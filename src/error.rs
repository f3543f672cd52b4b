use vstd::prelude::*;

verus! {

/// What went wrong while converting a value across the boundary.
#[derive(Clone, Copy, Debug, PartialEq, Eq, Structural)]
pub enum ErrorKind {
    /// A domain value cannot be represented (text holding a NUL byte, an
    /// out-of-range confidence, a sequence too long for its count).
    Encoding,
    /// A pointer that the layout requires was null.
    NullPointer,
    /// A discriminant outside the known set, or a payload whose shape
    /// disagrees with the discriminant.
    InvalidUnion,
    /// A declared count disagrees with the entries actually held.
    ArrayLengthMismatch,
}

/// The field at which a conversion failed.
#[derive(Clone, Copy, Debug, PartialEq, Eq, Structural)]
pub enum Field {
    SessionId,
    CustomData,
    SiteId,
    Input,
    Intent,
    Slots,
    AsrTokens,
    AsrConfidence,
    IntentName,
    ConfidenceScore,
    RawValue,
    Value,
    Entity,
    SlotName,
    Confidence,
    Text,
    IntentFilter,
    Init,
    ReactivatedFromSessionId,
    Slot,
    Termination,
    IntentId,
    Intents,
    Entries,
}

/// A failed conversion: its kind and the innermost field at fault.
#[derive(Clone, Copy, Debug, PartialEq, Eq, Structural)]
pub struct CodecError {
    pub kind: ErrorKind,
    pub field: Field,
}

pub open spec fn err(kind: ErrorKind, field: Field) -> CodecError {
    CodecError { kind, field }
}

/// The first of two checks, in order.
pub open spec fn first_of(a: Option<CodecError>, b: Option<CodecError>) -> Option<CodecError> {
    if a is Some {
        a
    } else {
        b
    }
}

pub fn codec_error(kind: ErrorKind, field: Field) -> (r: CodecError)
    ensures
        r == err(kind, field),
{
    CodecError { kind, field }
}

} // verus!
