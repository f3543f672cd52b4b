use vstd::prelude::*;

use crate::asr::{asr_token_groups_error, AsrToken, AsrTokenView, CAsrTokenDoubleArray};
use crate::error::{codec_error, err, first_of, CodecError, ErrorKind, Field};
use crate::nlu::{
    intent_result_error, slots_error, CNluIntentClassifierResult, CNluSlotArray,
    NluIntentClassifierResult, NluIntentClassifierResultView, NluSlot, NluSlotView,
};
use crate::sentinel::{c_confidence, confidence_holds, confidence_error, rust_confidence, spec_confidence};
use crate::text::{
    c_opt_text, c_text, null_error, opt_text_error, opt_text_holds, rust_opt_text, rust_text,
    spec_opt_text, text_error, text_holds, text_of, CText,
};

verus! {

/// An intent was recognised in what a user said.
#[derive(Clone, Debug, PartialEq)]
pub struct IntentMessage {
    pub session_id: String,
    pub custom_data: Option<String>,
    pub site_id: String,
    pub input: String,
    pub intent: NluIntentClassifierResult,
    pub slots: Vec<NluSlot>,
    pub asr_tokens: Option<Vec<Vec<AsrToken>>>,
    pub asr_confidence: Option<u32>,
}

pub struct IntentMessageView {
    pub session_id: Seq<char>,
    pub custom_data: Option<Seq<char>>,
    pub site_id: Seq<char>,
    pub input: Seq<char>,
    pub intent: NluIntentClassifierResultView,
    pub slots: Seq<NluSlotView>,
    pub asr_tokens: Option<Seq<Seq<AsrTokenView>>>,
    pub asr_confidence: Option<u32>,
}

impl DeepView for IntentMessage {
    type V = IntentMessageView;

    open spec fn deep_view(&self) -> IntentMessageView {
        IntentMessageView {
            session_id: self.session_id@,
            custom_data: self.custom_data.deep_view(),
            site_id: self.site_id@,
            input: self.input@,
            intent: self.intent.deep_view(),
            slots: self.slots.deep_view(),
            asr_tokens: self.asr_tokens.deep_view(),
            asr_confidence: self.asr_confidence,
        }
    }
}

pub open spec fn opt_asr_groups_error(v: Option<Seq<Seq<AsrTokenView>>>) -> Option<CodecError> {
    match v {
        Some(x) => asr_token_groups_error(x),
        None => None,
    }
}

pub open spec fn intent_message_error(v: IntentMessageView) -> Option<CodecError> {
    first_of(
        text_error(v.session_id, Field::SessionId),
        first_of(
            opt_text_error(v.custom_data, Field::CustomData),
            first_of(
                text_error(v.site_id, Field::SiteId),
                first_of(
                    text_error(v.input, Field::Input),
                    first_of(
                        intent_result_error(v.intent),
                        first_of(
                            slots_error(v.slots),
                            first_of(
                                opt_asr_groups_error(v.asr_tokens),
                                confidence_error(v.asr_confidence, Field::AsrConfidence),
                            ),
                        ),
                    ),
                ),
            ),
        ),
    )
}

/// The boundary form of [`IntentMessage`]. The slot list is always written as
/// an array, a zero-count one when there are no slots; the ASR tokens are null
/// when absent; the ASR confidence is a range sentinel.
pub struct CIntentMessage {
    pub session_id: Option<CText>,
    pub custom_data: Option<CText>,
    pub site_id: Option<CText>,
    pub input: Option<CText>,
    pub intent: Option<CNluIntentClassifierResult>,
    pub slots: Option<CNluSlotArray>,
    pub asr_tokens: Option<CAsrTokenDoubleArray>,
    pub asr_confidence: u32,
}

impl CIntentMessage {
    pub open spec fn encodes(&self, v: IntentMessageView) -> bool {
        &&& text_holds(self.session_id, v.session_id)
        &&& opt_text_holds(self.custom_data, v.custom_data)
        &&& text_holds(self.site_id, v.site_id)
        &&& text_holds(self.input, v.input)
        &&& (self.intent matches Some(i) && i.encodes(v.intent))
        &&& (self.slots matches Some(a) && a.encodes(v.slots))
        &&& match (self.asr_tokens, v.asr_tokens) {
            (None, None) => true,
            (Some(a), Some(x)) => a.encodes(x),
            _ => false,
        }
        &&& confidence_holds(self.asr_confidence, v.asr_confidence)
    }

    pub open spec fn spec_asr_tokens(&self) -> Result<Option<Seq<Seq<AsrTokenView>>>, CodecError> {
        match self.asr_tokens {
            Some(a) => match a.spec_rust() {
                Ok(x) => Ok(Some(x)),
                Err(e) => Err(e),
            },
            None => Ok(None),
        }
    }

    pub open spec fn spec_intent(&self) -> Result<NluIntentClassifierResultView, CodecError> {
        match self.intent {
            Some(i) => i.spec_rust(),
            None => Err(err(ErrorKind::NullPointer, Field::Intent)),
        }
    }

    /// The slot list is required: a null slot array is a null-pointer error.
    pub open spec fn spec_slots(&self) -> Result<Seq<NluSlotView>, CodecError> {
        match self.slots {
            Some(a) => a.spec_rust(),
            None => Err(err(ErrorKind::NullPointer, Field::Slots)),
        }
    }

    pub open spec fn spec_rust(&self) -> Result<IntentMessageView, CodecError> {
        match first_of(
            null_error(self.session_id, Field::SessionId),
            first_of(null_error(self.site_id, Field::SiteId), null_error(self.input, Field::Input)),
        ) {
            Some(e) => Err(e),
            None => match self.spec_asr_tokens() {
                Err(e) => Err(e),
                Ok(asr_tokens) => match self.spec_intent() {
                    Err(e) => Err(e),
                    Ok(intent) => match self.spec_slots() {
                        Err(e) => Err(e),
                        Ok(slots) => Ok(
                            IntentMessageView {
                                session_id: text_of(self.session_id),
                                custom_data: spec_opt_text(self.custom_data),
                                site_id: text_of(self.site_id),
                                input: text_of(self.input),
                                intent,
                                slots,
                                asr_tokens,
                                asr_confidence: spec_confidence(self.asr_confidence),
                            },
                        ),
                    },
                },
            },
        }
    }

    pub fn from(input: IntentMessage) -> (r: Result<Self, CodecError>)
        ensures
            r is Ok <==> intent_message_error(input.deep_view()) is None,
            r matches Ok(c) ==> c.encodes(input.deep_view()),
            r matches Err(e) ==> intent_message_error(input.deep_view()) == Some(e),
    {
        Self::c_repr_of(input)
    }

    pub fn c_repr_of(input: IntentMessage) -> (r: Result<Self, CodecError>)
        ensures
            r is Ok <==> intent_message_error(input.deep_view()) is None,
            r matches Ok(c) ==> c.encodes(input.deep_view()),
            r matches Err(e) ==> intent_message_error(input.deep_view()) == Some(e),
    {
        let session_id = match c_text(input.session_id.as_str(), Field::SessionId) {
            Ok(t) => t,
            Err(e) => return Err(e),
        };
        let custom_data = match c_opt_text(&input.custom_data, Field::CustomData) {
            Ok(t) => t,
            Err(e) => return Err(e),
        };
        let site_id = match c_text(input.site_id.as_str(), Field::SiteId) {
            Ok(t) => t,
            Err(e) => return Err(e),
        };
        let text = match c_text(input.input.as_str(), Field::Input) {
            Ok(t) => t,
            Err(e) => return Err(e),
        };
        let intent = match CNluIntentClassifierResult::c_repr_of(input.intent) {
            Ok(i) => Some(i),
            Err(e) => return Err(e),
        };
        let slots = match CNluSlotArray::c_repr_of(input.slots) {
            Ok(a) => Some(a),
            Err(e) => return Err(e),
        };
        let asr_tokens = match input.asr_tokens {
            Some(groups) => match CAsrTokenDoubleArray::c_repr_of(groups) {
                Ok(a) => Some(a),
                Err(e) => return Err(e),
            },
            None => None,
        };
        let asr_confidence = match c_confidence(input.asr_confidence, Field::AsrConfidence) {
            Ok(b) => b,
            Err(e) => return Err(e),
        };
        Ok(CIntentMessage {
            session_id,
            custom_data,
            site_id,
            input: text,
            intent,
            slots,
            asr_tokens,
            asr_confidence,
        })
    }

    pub fn as_rust(&self) -> (r: Result<IntentMessage, CodecError>)
        ensures
            match r {
                Ok(v) => self.spec_rust() == Ok::<_, CodecError>(v.deep_view()),
                Err(e) => self.spec_rust() == Err::<IntentMessageView, _>(e),
            },
    {
        let session_id = match rust_text(&self.session_id, Field::SessionId) {
            Ok(s) => s,
            Err(e) => return Err(e),
        };
        let site_id = match rust_text(&self.site_id, Field::SiteId) {
            Ok(s) => s,
            Err(e) => return Err(e),
        };
        let input = match rust_text(&self.input, Field::Input) {
            Ok(s) => s,
            Err(e) => return Err(e),
        };
        let asr_tokens = match &self.asr_tokens {
            Some(a) => match a.as_rust() {
                Ok(groups) => Some(groups),
                Err(e) => return Err(e),
            },
            None => None,
        };
        let intent = match &self.intent {
            Some(i) => match i.as_rust() {
                Ok(x) => x,
                Err(e) => return Err(e),
            },
            None => return Err(codec_error(ErrorKind::NullPointer, Field::Intent)),
        };
        let slots = match &self.slots {
            Some(a) => match a.as_rust() {
                Ok(x) => x,
                Err(e) => return Err(e),
            },
            None => return Err(codec_error(ErrorKind::NullPointer, Field::Slots)),
        };
        Ok(IntentMessage {
            session_id,
            custom_data: rust_opt_text(&self.custom_data),
            site_id,
            input,
            intent,
            slots,
            asr_tokens,
            asr_confidence: rust_confidence(self.asr_confidence),
        })
    }
}

/// Nothing was recognised in what a user said.
#[derive(Clone, Debug, PartialEq)]
pub struct IntentNotRecognizedMessage {
    pub site_id: String,
    pub session_id: String,
    pub input: Option<String>,
    pub custom_data: Option<String>,
    pub confidence_score: u32,
}

pub struct IntentNotRecognizedMessageView {
    pub site_id: Seq<char>,
    pub session_id: Seq<char>,
    pub input: Option<Seq<char>>,
    pub custom_data: Option<Seq<char>>,
    pub confidence_score: u32,
}

impl DeepView for IntentNotRecognizedMessage {
    type V = IntentNotRecognizedMessageView;

    open spec fn deep_view(&self) -> IntentNotRecognizedMessageView {
        IntentNotRecognizedMessageView {
            site_id: self.site_id@,
            session_id: self.session_id@,
            input: self.input.deep_view(),
            custom_data: self.custom_data.deep_view(),
            confidence_score: self.confidence_score,
        }
    }
}

pub open spec fn intent_not_recognized_error(v: IntentNotRecognizedMessageView) -> Option<CodecError> {
    first_of(
        text_error(v.site_id, Field::SiteId),
        first_of(
            text_error(v.session_id, Field::SessionId),
            first_of(
                opt_text_error(v.input, Field::Input),
                opt_text_error(v.custom_data, Field::CustomData),
            ),
        ),
    )
}

/// The boundary form of [`IntentNotRecognizedMessage`].
pub struct CIntentNotRecognizedMessage {
    pub site_id: Option<CText>,
    pub session_id: Option<CText>,
    pub input: Option<CText>,
    pub custom_data: Option<CText>,
    pub confidence_score: u32,
}

impl CIntentNotRecognizedMessage {
    pub open spec fn encodes(&self, v: IntentNotRecognizedMessageView) -> bool {
        &&& text_holds(self.site_id, v.site_id)
        &&& text_holds(self.session_id, v.session_id)
        &&& opt_text_holds(self.input, v.input)
        &&& opt_text_holds(self.custom_data, v.custom_data)
        &&& self.confidence_score == v.confidence_score
    }

    pub open spec fn spec_rust(&self) -> Result<IntentNotRecognizedMessageView, CodecError> {
        match first_of(
            null_error(self.site_id, Field::SiteId),
            null_error(self.session_id, Field::SessionId),
        ) {
            Some(e) => Err(e),
            None => Ok(
                IntentNotRecognizedMessageView {
                    site_id: text_of(self.site_id),
                    session_id: text_of(self.session_id),
                    input: spec_opt_text(self.input),
                    custom_data: spec_opt_text(self.custom_data),
                    confidence_score: self.confidence_score,
                },
            ),
        }
    }

    pub fn c_repr_of(input: IntentNotRecognizedMessage) -> (r: Result<Self, CodecError>)
        ensures
            r is Ok <==> intent_not_recognized_error(input.deep_view()) is None,
            r matches Ok(c) ==> c.encodes(input.deep_view()),
            r matches Err(e) ==> intent_not_recognized_error(input.deep_view()) == Some(e),
    {
        let site_id = match c_text(input.site_id.as_str(), Field::SiteId) {
            Ok(t) => t,
            Err(e) => return Err(e),
        };
        let session_id = match c_text(input.session_id.as_str(), Field::SessionId) {
            Ok(t) => t,
            Err(e) => return Err(e),
        };
        let text = match c_opt_text(&input.input, Field::Input) {
            Ok(t) => t,
            Err(e) => return Err(e),
        };
        let custom_data = match c_opt_text(&input.custom_data, Field::CustomData) {
            Ok(t) => t,
            Err(e) => return Err(e),
        };
        Ok(CIntentNotRecognizedMessage {
            site_id,
            session_id,
            input: text,
            custom_data,
            confidence_score: input.confidence_score,
        })
    }

    pub fn as_rust(&self) -> (r: Result<IntentNotRecognizedMessage, CodecError>)
        ensures
            match r {
                Ok(v) => self.spec_rust() == Ok::<_, CodecError>(v.deep_view()),
                Err(e) => self.spec_rust() == Err::<IntentNotRecognizedMessageView, _>(e),
            },
    {
        let site_id = match rust_text(&self.site_id, Field::SiteId) {
            Ok(s) => s,
            Err(e) => return Err(e),
        };
        let session_id = match rust_text(&self.session_id, Field::SessionId) {
            Ok(s) => s,
            Err(e) => return Err(e),
        };
        Ok(IntentNotRecognizedMessage {
            site_id,
            session_id,
            input: rust_opt_text(&self.input),
            custom_data: rust_opt_text(&self.custom_data),
            confidence_score: self.confidence_score,
        })
    }
}

} // verus!
