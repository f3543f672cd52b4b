use vstd::prelude::*;

use crate::asr::{
    AsrTokenView, CAsrToken, CAsrTokenArray, CAsrTokenDoubleArray,
};
use crate::configure::{
    CDialogueConfigureIntent, CDialogueConfigureIntentArray, CDialogueConfigureMessage,
    DialogueConfigureIntentView, DialogueConfigureMessageView,
};
use crate::error::{err, CodecError, ErrorKind, Field};
use crate::intent::{
    CIntentMessage, CIntentNotRecognizedMessage, IntentMessageView, IntentNotRecognizedMessageView,
};
use crate::nlu::{
    CNluIntentClassifierResult, CNluSlot, CNluSlotArray, NluIntentClassifierResultView, NluSlotView,
};
use crate::sentinel::{
    confidence_bits, flag_byte, in_unit_range, spec_confidence, spec_flag, ABSENT_CONFIDENCE,
    ABSENT_FLAG, CONFIDENCE_ONE,
};
use crate::seq_codec::lemma_decode_all_ok;
use crate::session::{
    CContinueSessionMessage, CEndSessionMessage, CSessionQueuedMessage, CSessionStartedMessage,
    ContinueSessionMessageView, EndSessionMessageView, SessionQueuedMessageView,
    SessionStartedMessageView,
};
use crate::session_init::{
    CSessionInit, CSessionInitValue, CStartSessionMessage, SessionInitView, StartSessionMessageView,
};
use crate::termination::{
    CSessionEndedMessage, CSessionTermination, SessionEndedMessageView, SessionTerminationTypeView,
};
use crate::text::{CStringArray, CText};

verus! {

// Each round trip below says: a boundary value that encodes `v`, which is what
// every `c_repr_of` returns on success, decodes to exactly `v`. Decoding only
// borrows, so the boundary value stays whole and is released on its own.

/// Sentinels at their boundaries: `0.0` and `1.0` read as present, `-1.0` as
/// absent; the tri-state byte reads `0` as false, `1` as true and any other
/// byte as absent; and each sentinel reads back what it was written from.
pub proof fn lemma_sentinel_boundaries(b: u8, x: Option<u32>, f: Option<bool>)
    ensures
        spec_confidence(0) == Some(0u32),
        spec_confidence(CONFIDENCE_ONE) == Some(CONFIDENCE_ONE),
        spec_confidence(ABSENT_CONFIDENCE) is None,
        spec_flag(0) == Some(false),
        spec_flag(1) == Some(true),
        b != 0 && b != 1 ==> spec_flag(b) is None,
        spec_flag(ABSENT_FLAG) is None,
        spec_flag(flag_byte(f)) == f,
        (x matches Some(y) ==> in_unit_range(y)) ==> spec_confidence(confidence_bits(x)) == x,
{
}

/// Round trip of a list of texts: order and count are kept.
pub proof fn lemma_strings_round_trip(c: CStringArray, v: Seq<Seq<char>>)
    requires
        c.encodes(v),
    ensures
        c.spec_rust() == Ok::<_, CodecError>(v),
{
    assert(c.data@.map_values(|t: CText| t@) =~= v);
}

/// Round trip of one intent setting: a boundary value that encodes `v`
/// decodes to exactly `v`, the tri-state flag included.
pub proof fn lemma_configure_intent_round_trip(c: CDialogueConfigureIntent, v: DialogueConfigureIntentView)
    requires
        c.encodes(v),
    ensures
        c.spec_rust() == Ok::<_, CodecError>(v),
{
}

/// Round trip of an ordered list of intent settings: order and count are kept.
pub proof fn lemma_configure_intents_round_trip(
    c: CDialogueConfigureIntentArray,
    v: Seq<DialogueConfigureIntentView>,
)
    requires
        c.encodes(v),
    ensures
        c.spec_rust() == Ok::<_, CodecError>(v),
{
    let dec = |x: CDialogueConfigureIntent| x.spec_rust();
    assert forall|i: int| 0 <= i < c.entries@.len() implies dec(#[trigger] c.entries@[i])
        == Ok::<_, CodecError>(v[i]) by {
        lemma_configure_intent_round_trip(c.entries@[i], v[i]);
    }
    lemma_decode_all_ok(c.entries@, v, dec);
}

/// Round trip of a whole configuration message.
pub proof fn lemma_configure_message_round_trip(
    c: CDialogueConfigureMessage,
    v: DialogueConfigureMessageView,
)
    requires
        c.encodes(v),
    ensures
        c.spec_rust() == Ok::<_, CodecError>(v),
{
    if let Some(a) = c.intents {
        lemma_configure_intents_round_trip(a, v.intents->0);
    }
}

/// Present but empty is not absent, for the configuration list: the encoded
/// list is null exactly when it is absent, and a present list, an empty one
/// included, is held as a non-null array whose count is its length. The site
/// is null exactly when absent. Each reads back as it was.
pub proof fn lemma_configure_empty_vs_absent(
    c: CDialogueConfigureMessage,
    v: DialogueConfigureMessageView,
)
    requires
        c.encodes(v),
    ensures
        c.intents is None <==> v.intents is None,
        v.intents matches Some(x) ==> (c.intents matches Some(a) && a.count == x.len()
            && a.entries@.len() == x.len()),
        c.site_id is None <==> v.site_id is None,
        (c.spec_rust() matches Ok(w) && w.intents == v.intents && w.site_id == v.site_id),
{
    lemma_configure_message_round_trip(c, v);
}

/// Round trip of the session-start union: the discriminant picks the same
/// variant back, and an action keeps its text, its filter and both flags.
pub proof fn lemma_session_init_round_trip(c: CSessionInit, v: SessionInitView)
    requires
        c.encodes(v),
    ensures
        c.spec_rust() == Ok::<_, CodecError>(v),
{
    if let (SessionInitView::Action { intent_filter, .. }, CSessionInitValue::Action(a)) = (v, c.value) {
        if let Some(x) = intent_filter {
            lemma_strings_round_trip(a.intent_filter->0, x);
        }
    }
}

/// Round trip of a session start request.
pub proof fn lemma_start_session_round_trip(c: CStartSessionMessage, v: StartSessionMessageView)
    requires
        c.encodes(v),
    ensures
        c.spec_rust() == Ok::<_, CodecError>(v),
{
    lemma_session_init_round_trip(c.init, v.init);
}

/// Round trip of a session-started notice.
pub proof fn lemma_session_started_round_trip(c: CSessionStartedMessage, v: SessionStartedMessageView)
    requires
        c.encodes(v),
    ensures
        c.spec_rust() == Ok::<_, CodecError>(v),
{
}

/// Round trip of a session-queued notice.
pub proof fn lemma_session_queued_round_trip(c: CSessionQueuedMessage, v: SessionQueuedMessageView)
    requires
        c.encodes(v),
    ensures
        c.spec_rust() == Ok::<_, CodecError>(v),
{
}

/// Round trip of a continue-session request, the intent filter included.
pub proof fn lemma_continue_session_round_trip(c: CContinueSessionMessage, v: ContinueSessionMessageView)
    requires
        c.encodes(v),
    ensures
        c.spec_rust() == Ok::<_, CodecError>(v),
{
    if let Some(x) = v.intent_filter {
        lemma_strings_round_trip(c.intent_filter->0, x);
    }
}

/// Round trip of an end-session request.
pub proof fn lemma_end_session_round_trip(c: CEndSessionMessage, v: EndSessionMessageView)
    requires
        c.encodes(v),
    ensures
        c.spec_rust() == Ok::<_, CodecError>(v),
{
}

/// Round trip of a termination: every kind comes back, the error with its text.
pub proof fn lemma_termination_round_trip(c: CSessionTermination, v: SessionTerminationTypeView)
    requires
        c.encodes(v),
    ensures
        c.spec_rust() == Ok::<_, CodecError>(v),
{
}

/// Round trip of a session-ended notice.
pub proof fn lemma_session_ended_round_trip(c: CSessionEndedMessage, v: SessionEndedMessageView)
    requires
        c.encodes(v),
    ensures
        c.spec_rust() == Ok::<_, CodecError>(v),
{
    lemma_termination_round_trip(c.termination, v.termination);
}

/// Round trip of an intent classification.
pub proof fn lemma_intent_result_round_trip(c: CNluIntentClassifierResult, v: NluIntentClassifierResultView)
    requires
        c.encodes(v),
    ensures
        c.spec_rust() == Ok::<_, CodecError>(v),
{
}

/// Round trip of one slot, its optional confidence included.
pub proof fn lemma_slot_round_trip(c: CNluSlot, v: NluSlotView)
    requires
        c.encodes(v),
    ensures
        c.spec_rust() == Ok::<_, CodecError>(v),
{
}

/// Round trip of a slot list.
pub proof fn lemma_slots_round_trip(c: CNluSlotArray, v: Seq<NluSlotView>)
    requires
        c.encodes(v),
    ensures
        c.spec_rust() == Ok::<_, CodecError>(v),
{
    let dec = |x: CNluSlot| x.spec_rust();
    assert forall|i: int| 0 <= i < c.entries@.len() implies dec(#[trigger] c.entries@[i])
        == Ok::<_, CodecError>(v[i]) by {
        lemma_slot_round_trip(c.entries@[i], v[i]);
    }
    lemma_decode_all_ok(c.entries@, v, dec);
}

/// Round trip of one token: text, confidence, character range and timing.
pub proof fn lemma_asr_token_round_trip(c: CAsrToken, v: AsrTokenView)
    requires
        c.encodes(v),
    ensures
        c.spec_rust() == Ok::<_, CodecError>(v),
{
}

/// Round trip of the tokens of one recognition attempt.
pub proof fn lemma_asr_tokens_round_trip(c: CAsrTokenArray, v: Seq<AsrTokenView>)
    requires
        c.encodes(v),
    ensures
        c.spec_rust() == Ok::<_, CodecError>(v),
{
    let dec = |x: CAsrToken| x.spec_rust();
    assert forall|i: int| 0 <= i < c.entries@.len() implies dec(#[trigger] c.entries@[i])
        == Ok::<_, CodecError>(v[i]) by {
        lemma_asr_token_round_trip(c.entries@[i], v[i]);
    }
    lemma_decode_all_ok(c.entries@, v, dec);
}

/// Round trip of tokens grouped by attempt: the group boundaries, empty
/// groups included, and every token of each group are kept.
pub proof fn lemma_asr_token_groups_round_trip(c: CAsrTokenDoubleArray, v: Seq<Seq<AsrTokenView>>)
    requires
        c.encodes(v),
    ensures
        c.spec_rust() == Ok::<_, CodecError>(v),
{
    let dec = |x: CAsrTokenArray| x.spec_rust();
    assert forall|i: int| 0 <= i < c.entries@.len() implies dec(#[trigger] c.entries@[i])
        == Ok::<_, CodecError>(v[i]) by {
        lemma_asr_tokens_round_trip(c.entries@[i], v[i]);
    }
    lemma_decode_all_ok(c.entries@, v, dec);
}

/// Round trip of an intent message, an empty slot list included.
pub proof fn lemma_intent_message_round_trip(c: CIntentMessage, v: IntentMessageView)
    requires
        c.encodes(v),
    ensures
        c.spec_rust() == Ok::<_, CodecError>(v),
{
    lemma_intent_result_round_trip(c.intent->0, v.intent);
    lemma_slots_round_trip(c.slots->0, v.slots);
    if let Some(x) = v.asr_tokens {
        lemma_asr_token_groups_round_trip(c.asr_tokens->0, x);
    }
}

/// Round trip of an intent-not-recognized notice.
pub proof fn lemma_intent_not_recognized_round_trip(c: CIntentNotRecognizedMessage, v: IntentNotRecognizedMessageView)
    requires
        c.encodes(v),
    ensures
        c.spec_rust() == Ok::<_, CodecError>(v),
{
}

/// Fail fast on a null required pointer: an intent message whose boundary
/// form is whole but for one required pointer left null fails to decode with
/// a null-pointer error naming that field, and yields no message.
pub proof fn lemma_intent_message_null_field(c: CIntentMessage, v: IntentMessageView)
    requires
        c.encodes(v),
    ensures
        (CIntentMessage { session_id: None, ..c }).spec_rust() == Err::<IntentMessageView, _>(
            err(ErrorKind::NullPointer, Field::SessionId),
        ),
        (CIntentMessage { site_id: None, ..c }).spec_rust() == Err::<IntentMessageView, _>(
            err(ErrorKind::NullPointer, Field::SiteId),
        ),
        (CIntentMessage { input: None, ..c }).spec_rust() == Err::<IntentMessageView, _>(
            err(ErrorKind::NullPointer, Field::Input),
        ),
        (CIntentMessage { intent: None, ..c }).spec_rust() == Err::<IntentMessageView, _>(
            err(ErrorKind::NullPointer, Field::Intent),
        ),
        (CIntentMessage { slots: None, ..c }).spec_rust() == Err::<IntentMessageView, _>(
            err(ErrorKind::NullPointer, Field::Slots),
        ),
{
    lemma_intent_result_round_trip(c.intent->0, v.intent);
    if let Some(x) = v.asr_tokens {
        lemma_asr_token_groups_round_trip(c.asr_tokens->0, x);
    }
}

/// Fail fast on a null required pointer, for a session-ended notice: a null
/// session id or site id is reported as such, with no message.
pub proof fn lemma_session_ended_null_field(c: CSessionEndedMessage, v: SessionEndedMessageView)
    requires
        c.encodes(v),
    ensures
        (CSessionEndedMessage { session_id: None, ..c }).spec_rust() == Err::<
            SessionEndedMessageView,
            _,
        >(err(ErrorKind::NullPointer, Field::SessionId)),
        (CSessionEndedMessage { site_id: None, ..c }).spec_rust() == Err::<
            SessionEndedMessageView,
            _,
        >(err(ErrorKind::NullPointer, Field::SiteId)),
{
    lemma_termination_round_trip(c.termination, v.termination);
}

/// Present but empty is not absent, for an intent filter: an empty filter is
/// held as a non-null array of count zero and reads back as an empty filter;
/// an absent one is held as null and reads back as absent.
pub proof fn lemma_filter_empty_vs_absent(c: CContinueSessionMessage, v: ContinueSessionMessageView)
    requires
        c.encodes(v),
        v.intent_filter == Some(Seq::<Seq<char>>::empty()) || v.intent_filter is None,
    ensures
        v.intent_filter is Some ==> (c.intent_filter matches Some(a) && a.size == 0
            && a.data@.len() == 0),
        v.intent_filter is None ==> c.intent_filter is None,
        (c.spec_rust() matches Ok(w) && w.intent_filter == v.intent_filter),
{
    lemma_continue_session_round_trip(c, v);
}

/// The shape of an encoded intent message. The slot list, even an empty one,
/// is a non-null array counting its slots. The ASR confidence is written as
/// is when present and as `-1.0`, outside `[0, 1]`, when absent. The token
/// groups are null exactly when absent; otherwise the outer count is the
/// number of groups, and each group, empty ones included, is an array of its
/// tokens in order.
pub proof fn lemma_intent_message_shape(c: CIntentMessage, v: IntentMessageView)
    requires
        c.encodes(v),
    ensures
        (c.slots matches Some(a) && a.count == v.slots.len() && a.entries@.len() == v.slots.len()),
        v.asr_confidence matches Some(x) ==> c.asr_confidence == x && in_unit_range(x),
        v.asr_confidence is None ==> c.asr_confidence == ABSENT_CONFIDENCE && !in_unit_range(
            c.asr_confidence,
        ),
        c.asr_tokens is None <==> v.asr_tokens is None,
        v.asr_tokens matches Some(g) ==> (c.asr_tokens matches Some(a) && a.count == g.len()
            && a.entries@.len() == g.len() && forall|i: int|
            #![trigger a.entries@[i]]
            0 <= i < g.len() ==> a.entries@[i].count == g[i].len() && a.entries@[i].entries@.len()
                == g[i].len() && forall|j: int|
                #![trigger a.entries@[i].entries@[j]]
                0 <= j < g[i].len() ==> a.entries@[i].entries@[j].encodes(g[i][j])),
{
    if let Some(g) = v.asr_tokens {
        let a = c.asr_tokens->0;
        assert forall|i: int| 0 <= i < g.len() implies a.entries@[i].count == g[i].len()
            && a.entries@[i].entries@.len() == g[i].len() && forall|j: int|
            #![trigger a.entries@[i].entries@[j]]
            0 <= j < g[i].len() ==> a.entries@[i].entries@[j].encodes(g[i][j]) by {
            assert(a.entries@[i].encodes(g[i]));
        }
    }
}

} // verus!
