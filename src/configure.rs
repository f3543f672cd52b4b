use vstd::prelude::*;

use crate::error::{codec_error, err, CodecError, ErrorKind, Field};
use crate::sentinel::{c_flag, flag_byte, rust_flag, spec_flag};
use crate::seq_codec::{
    decode_all, first_error, lemma_decode_all_prefix, lemma_decode_all_step, lemma_first_error_prefix,
    lemma_first_error_step, seq_error,
};
use crate::text::{
    c_opt_text, c_text, opt_text_error, opt_text_holds, rust_opt_text, rust_text, spec_opt_text,
    spec_text, text_error, text_holds, CText,
};

verus! {

/// Enables or disables one intent; `enable` absent leaves it as it is.
#[derive(Clone, Debug, PartialEq)]
pub struct DialogueConfigureIntent {
    pub intent_id: String,
    pub enable: Option<bool>,
}

pub struct DialogueConfigureIntentView {
    pub intent_id: Seq<char>,
    pub enable: Option<bool>,
}

impl DeepView for DialogueConfigureIntent {
    type V = DialogueConfigureIntentView;

    open spec fn deep_view(&self) -> DialogueConfigureIntentView {
        DialogueConfigureIntentView { intent_id: self.intent_id@, enable: self.enable }
    }
}

/// Reconfigures the dialogue of one site, or of all when `site_id` is absent.
#[derive(Clone, Debug, PartialEq)]
pub struct DialogueConfigureMessage {
    pub site_id: Option<String>,
    pub intents: Option<Vec<DialogueConfigureIntent>>,
}

pub struct DialogueConfigureMessageView {
    pub site_id: Option<Seq<char>>,
    pub intents: Option<Seq<DialogueConfigureIntentView>>,
}

impl DeepView for DialogueConfigureMessage {
    type V = DialogueConfigureMessageView;

    open spec fn deep_view(&self) -> DialogueConfigureMessageView {
        DialogueConfigureMessageView {
            site_id: self.site_id.deep_view(),
            intents: self.intents.deep_view(),
        }
    }
}

pub open spec fn configure_intent_error(v: DialogueConfigureIntentView) -> Option<CodecError> {
    text_error(v.intent_id, Field::IntentId)
}

pub open spec fn configure_intents_error(v: Seq<DialogueConfigureIntentView>) -> Option<CodecError> {
    seq_error(v, |x: DialogueConfigureIntentView| configure_intent_error(x))
}

pub open spec fn configure_message_error(v: DialogueConfigureMessageView) -> Option<CodecError> {
    match opt_text_error(v.site_id, Field::SiteId) {
        Some(e) => Some(e),
        None => match v.intents {
            Some(x) => configure_intents_error(x),
            None => None,
        },
    }
}

/// The boundary form of [`DialogueConfigureIntent`]; `enable` is a tri-state byte.
pub struct CDialogueConfigureIntent {
    pub intent_id: Option<CText>,
    pub enable: u8,
}

impl CDialogueConfigureIntent {
    pub open spec fn encodes(&self, v: DialogueConfigureIntentView) -> bool {
        &&& text_holds(self.intent_id, v.intent_id)
        &&& self.enable == flag_byte(v.enable)
    }

    pub open spec fn spec_rust(&self) -> Result<DialogueConfigureIntentView, CodecError> {
        match spec_text(self.intent_id, Field::IntentId) {
            Ok(intent_id) => Ok(DialogueConfigureIntentView { intent_id, enable: spec_flag(self.enable) }),
            Err(e) => Err(e),
        }
    }

    pub fn c_repr_of(input: DialogueConfigureIntent) -> (r: Result<Self, CodecError>)
        ensures
            r is Ok <==> configure_intent_error(input.deep_view()) is None,
            r matches Ok(c) ==> c.encodes(input.deep_view()),
            r matches Err(e) ==> configure_intent_error(input.deep_view()) == Some(e),
    {
        let intent_id = match c_text(input.intent_id.as_str(), Field::IntentId) {
            Ok(t) => t,
            Err(e) => return Err(e),
        };
        Ok(CDialogueConfigureIntent { intent_id, enable: c_flag(input.enable) })
    }

    pub fn as_rust(&self) -> (r: Result<DialogueConfigureIntent, CodecError>)
        ensures
            match r {
                Ok(v) => self.spec_rust() == Ok::<_, CodecError>(v.deep_view()),
                Err(e) => self.spec_rust() == Err::<DialogueConfigureIntentView, _>(e),
            },
    {
        let intent_id = match rust_text(&self.intent_id, Field::IntentId) {
            Ok(s) => s,
            Err(e) => return Err(e),
        };
        Ok(DialogueConfigureIntent { intent_id, enable: rust_flag(self.enable) })
    }
}

pub open spec fn decode_configure_intents(s: Seq<CDialogueConfigureIntent>) -> Result<
    Seq<DialogueConfigureIntentView>,
    CodecError,
> {
    decode_all(s, |c: CDialogueConfigureIntent| c.spec_rust())
}

/// A counted array of [`CDialogueConfigureIntent`].
pub struct CDialogueConfigureIntentArray {
    pub entries: Vec<CDialogueConfigureIntent>,
    pub count: i32,
}

impl CDialogueConfigureIntentArray {
    pub open spec fn encodes(&self, v: Seq<DialogueConfigureIntentView>) -> bool {
        &&& self.count == v.len()
        &&& self.entries@.len() == v.len()
        &&& forall|i: int| 0 <= i < v.len() ==> #[trigger] self.entries@[i].encodes(v[i])
    }

    pub open spec fn spec_rust(&self) -> Result<Seq<DialogueConfigureIntentView>, CodecError> {
        if self.count < 0 || self.count != self.entries@.len() {
            Err(err(ErrorKind::ArrayLengthMismatch, Field::Entries))
        } else {
            decode_configure_intents(self.entries@)
        }
    }

    pub fn c_repr_of(input: Vec<DialogueConfigureIntent>) -> (r: Result<Self, CodecError>)
        ensures
            r is Ok <==> configure_intents_error(input.deep_view()) is None,
            r matches Ok(c) ==> c.encodes(input.deep_view()),
            r matches Err(e) ==> configure_intents_error(input.deep_view()) == Some(e),
    {
        let ghost v = input.deep_view();
        let ghost check = |x: DialogueConfigureIntentView| configure_intent_error(x);
        if input.len() > i32::MAX as usize {
            return Err(codec_error(ErrorKind::Encoding, Field::Entries));
        }
        let count = input.len() as i32;
        assert(configure_intents_error(v) == seq_error(v, check));
        let mut entries: Vec<CDialogueConfigureIntent> = Vec::new();
        let mut rest = input;
        let mut i: usize = 0;
        while rest.len() > 0
            invariant
                v.len() <= i32::MAX,
                count == v.len(),
                i + rest@.len() == v.len(),
                entries@.len() == i,
                forall|j: int| 0 <= j < rest@.len() ==> #[trigger] rest@[j].deep_view() == v[i + j],
                forall|j: int| 0 <= j < i ==> #[trigger] entries@[j].encodes(v[j]),
                first_error(v.subrange(0, i as int), check) is None,
                check == (|x: DialogueConfigureIntentView| configure_intent_error(x)),
                configure_intents_error(v) == seq_error(v, check),
                v == input.deep_view(),
            decreases rest@.len(),
        {
            let item = rest.remove(0);
            proof {
                assert(item.deep_view() == v[i as int]);
                lemma_first_error_step(v, check, i as int);
                assert(check(v[i as int]) == configure_intent_error(v[i as int]));
            }
            match CDialogueConfigureIntent::c_repr_of(item) {
                Ok(c) => entries.push(c),
                Err(e) => {
                    proof {
                        lemma_first_error_prefix(v, check, i + 1);
                    }
                    return Err(e);
                },
            }
            i += 1;
        }
        assert(v.subrange(0, v.len() as int) =~= v);
        Ok(CDialogueConfigureIntentArray { entries, count })
    }

    pub fn as_rust(&self) -> (r: Result<Vec<DialogueConfigureIntent>, CodecError>)
        ensures
            match r {
                Ok(v) => self.spec_rust() == Ok::<_, CodecError>(v.deep_view()),
                Err(e) => self.spec_rust() == Err::<Seq<DialogueConfigureIntentView>, _>(e),
            },
    {
        let ghost dec = |c: CDialogueConfigureIntent| c.spec_rust();
        if self.count < 0 || self.count as usize != self.entries.len() {
            return Err(codec_error(ErrorKind::ArrayLengthMismatch, Field::Entries));
        }
        let mut result: Vec<DialogueConfigureIntent> = Vec::new();
        let mut i: usize = 0;
        assert(decode_configure_intents(self.entries@) == decode_all(self.entries@, dec));
        assert(result.deep_view() =~= Seq::<DialogueConfigureIntentView>::empty());
        assert(self.entries@.subrange(0, 0) =~= Seq::<CDialogueConfigureIntent>::empty());
        while i < self.entries.len()
            invariant
                i <= self.entries@.len(),
                dec == (|c: CDialogueConfigureIntent| c.spec_rust()),
                self.spec_rust() == decode_all(self.entries@, dec),
                decode_all(self.entries@.subrange(0, i as int), dec) == Ok::<_, CodecError>(
                    result.deep_view(),
                ),
            decreases self.entries@.len() - i,
        {
            proof {
                lemma_decode_all_step(self.entries@, dec, i as int);
                assert(dec(self.entries@[i as int]) == self.entries@[i as int].spec_rust());
            }
            match self.entries[i].as_rust() {
                Ok(x) => {
                    let ghost before = result.deep_view();
                    result.push(x);
                    assert(result.deep_view() =~= before.push(x.deep_view()));
                },
                Err(e) => {
                    proof {
                        lemma_decode_all_prefix(self.entries@, dec, i + 1);
                    }
                    return Err(e);
                },
            }
            i += 1;
        }
        assert(self.entries@.subrange(0, self.entries@.len() as int) =~= self.entries@);
        assert(decode_configure_intents(self.entries@) == decode_all(self.entries@, dec));
        Ok(result)
    }
}

pub open spec fn opt_configure_intents_holds(
    c: Option<CDialogueConfigureIntentArray>,
    v: Option<Seq<DialogueConfigureIntentView>>,
) -> bool {
    match (c, v) {
        (None, None) => true,
        (Some(a), Some(x)) => a.encodes(x),
        _ => false,
    }
}

/// The boundary form of [`DialogueConfigureMessage`]; both fields are nullable.
pub struct CDialogueConfigureMessage {
    pub site_id: Option<CText>,
    pub intents: Option<CDialogueConfigureIntentArray>,
}

impl CDialogueConfigureMessage {
    pub open spec fn encodes(&self, v: DialogueConfigureMessageView) -> bool {
        &&& opt_text_holds(self.site_id, v.site_id)
        &&& opt_configure_intents_holds(self.intents, v.intents)
    }

    pub open spec fn spec_rust(&self) -> Result<DialogueConfigureMessageView, CodecError> {
        let site_id = spec_opt_text(self.site_id);
        match self.intents {
            None => Ok(DialogueConfigureMessageView { site_id, intents: None }),
            Some(a) => match a.spec_rust() {
                Ok(x) => Ok(DialogueConfigureMessageView { site_id, intents: Some(x) }),
                Err(e) => Err(e),
            },
        }
    }

    pub fn c_repr_of(input: DialogueConfigureMessage) -> (r: Result<Self, CodecError>)
        ensures
            r is Ok <==> configure_message_error(input.deep_view()) is None,
            r matches Ok(c) ==> c.encodes(input.deep_view()),
            r matches Err(e) ==> configure_message_error(input.deep_view()) == Some(e),
    {
        let site_id = match c_opt_text(&input.site_id, Field::SiteId) {
            Ok(t) => t,
            Err(e) => return Err(e),
        };
        let intents = match input.intents {
            Some(v) => match CDialogueConfigureIntentArray::c_repr_of(v) {
                Ok(a) => Some(a),
                Err(e) => return Err(e),
            },
            None => None,
        };
        Ok(CDialogueConfigureMessage { site_id, intents })
    }

    pub fn as_rust(&self) -> (r: Result<DialogueConfigureMessage, CodecError>)
        ensures
            match r {
                Ok(v) => self.spec_rust() == Ok::<_, CodecError>(v.deep_view()),
                Err(e) => self.spec_rust() == Err::<DialogueConfigureMessageView, _>(e),
            },
    {
        let site_id = rust_opt_text(&self.site_id);
        let intents = match &self.intents {
            Some(a) => match a.as_rust() {
                Ok(v) => Some(v),
                Err(e) => return Err(e),
            },
            None => None,
        };
        Ok(DialogueConfigureMessage { site_id, intents })
    }
}

} // verus!
