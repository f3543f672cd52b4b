//! Marshalling of dialogue-protocol messages between owned domain values and a
//! flat, boundary-facing representation made of NUL-terminated text buffers,
//! counted arrays, in-band sentinels and tagged unions.
//!
//! Every `c_repr_of` builds a fresh boundary value that owns all it holds; every
//! `as_rust` borrows a boundary value and builds an independent domain value.
//! Releasing a boundary value is dropping it: ownership guarantees that its
//! whole subtree is released exactly once, and never while a reader holds it.

pub mod asr;
pub mod configure;
pub mod error;
pub mod intent;
pub mod laws;
pub mod nlu;
pub mod sentinel;
pub mod seq_codec;
pub mod session;
pub mod session_init;
pub mod termination;
pub mod text;

pub use asr::{AsrDecodingDuration, AsrToken, CAsrToken, CAsrTokenArray, CAsrTokenDoubleArray};
pub use configure::{
    CDialogueConfigureIntent, CDialogueConfigureIntentArray, CDialogueConfigureMessage,
    DialogueConfigureIntent, DialogueConfigureMessage,
};
pub use error::{CodecError, ErrorKind, Field};
pub use intent::{CIntentMessage, CIntentNotRecognizedMessage, IntentMessage, IntentNotRecognizedMessage};
pub use nlu::{CNluIntentClassifierResult, CNluSlot, CNluSlotArray, NluIntentClassifierResult, NluSlot};
pub use session::{
    CContinueSessionMessage, CEndSessionMessage, CSessionQueuedMessage, CSessionStartedMessage,
    ContinueSessionMessage, EndSessionMessage, SessionQueuedMessage, SessionStartedMessage,
};
pub use session_init::{
    CActionSessionInit, CSessionInit, CSessionInitValue, CStartSessionMessage, SessionInit,
    StartSessionMessage, SNIPS_SESSION_INIT_TYPE,
};
pub use termination::{
    CSessionEndedMessage, CSessionTermination, SessionEndedMessage, SessionTerminationType,
    SNIPS_SESSION_TERMINATION_TYPE,
};
pub use text::{CStringArray, CText};
