use vstd::prelude::*;

use crate::error::{codec_error, err, first_of, CodecError, ErrorKind, Field};
use crate::sentinel::{c_confidence, confidence_holds, confidence_error, rust_confidence, spec_confidence};
use crate::seq_codec::{
    decode_all, first_error, lemma_decode_all_prefix, lemma_decode_all_step, lemma_first_error_prefix,
    lemma_first_error_step, seq_error,
};
use crate::text::{c_text, null_error, rust_text, text_error, text_holds, text_of, CText};

verus! {

/// The intent that the understanding step picked, with its confidence
/// (the bits of a single-precision number, carried as they are).
#[derive(Clone, Debug, PartialEq)]
pub struct NluIntentClassifierResult {
    pub intent_name: String,
    pub confidence_score: u32,
}

pub struct NluIntentClassifierResultView {
    pub intent_name: Seq<char>,
    pub confidence_score: u32,
}

impl DeepView for NluIntentClassifierResult {
    type V = NluIntentClassifierResultView;

    open spec fn deep_view(&self) -> NluIntentClassifierResultView {
        NluIntentClassifierResultView {
            intent_name: self.intent_name@,
            confidence_score: self.confidence_score,
        }
    }
}

pub open spec fn intent_result_error(v: NluIntentClassifierResultView) -> Option<CodecError> {
    text_error(v.intent_name, Field::IntentName)
}

/// The boundary form of [`NluIntentClassifierResult`].
pub struct CNluIntentClassifierResult {
    pub intent_name: Option<CText>,
    pub confidence_score: u32,
}

impl CNluIntentClassifierResult {
    pub open spec fn encodes(&self, v: NluIntentClassifierResultView) -> bool {
        &&& text_holds(self.intent_name, v.intent_name)
        &&& self.confidence_score == v.confidence_score
    }

    pub open spec fn spec_rust(&self) -> Result<NluIntentClassifierResultView, CodecError> {
        match null_error(self.intent_name, Field::IntentName) {
            Some(e) => Err(e),
            None => Ok(
                NluIntentClassifierResultView {
                    intent_name: text_of(self.intent_name),
                    confidence_score: self.confidence_score,
                },
            ),
        }
    }

    pub fn c_repr_of(input: NluIntentClassifierResult) -> (r: Result<Self, CodecError>)
        ensures
            r is Ok <==> intent_result_error(input.deep_view()) is None,
            r matches Ok(c) ==> c.encodes(input.deep_view()),
            r matches Err(e) ==> intent_result_error(input.deep_view()) == Some(e),
    {
        let intent_name = match c_text(input.intent_name.as_str(), Field::IntentName) {
            Ok(t) => t,
            Err(e) => return Err(e),
        };
        Ok(CNluIntentClassifierResult { intent_name, confidence_score: input.confidence_score })
    }

    pub fn as_rust(&self) -> (r: Result<NluIntentClassifierResult, CodecError>)
        ensures
            match r {
                Ok(v) => self.spec_rust() == Ok::<_, CodecError>(v.deep_view()),
                Err(e) => self.spec_rust() == Err::<NluIntentClassifierResultView, _>(e),
            },
    {
        let intent_name = match rust_text(&self.intent_name, Field::IntentName) {
            Ok(s) => s,
            Err(e) => return Err(e),
        };
        Ok(NluIntentClassifierResult { intent_name, confidence_score: self.confidence_score })
    }
}

/// A slot filled in the input: the raw text, its resolved value, where it
/// stands in the input, its entity and name, and an optional confidence.
#[derive(Clone, Debug, PartialEq)]
pub struct NluSlot {
    pub raw_value: String,
    pub value: String,
    pub range_start: i32,
    pub range_end: i32,
    pub entity: String,
    pub slot_name: String,
    pub confidence_score: Option<u32>,
}

pub struct NluSlotView {
    pub raw_value: Seq<char>,
    pub value: Seq<char>,
    pub range_start: i32,
    pub range_end: i32,
    pub entity: Seq<char>,
    pub slot_name: Seq<char>,
    pub confidence_score: Option<u32>,
}

impl DeepView for NluSlot {
    type V = NluSlotView;

    open spec fn deep_view(&self) -> NluSlotView {
        NluSlotView {
            raw_value: self.raw_value@,
            value: self.value@,
            range_start: self.range_start,
            range_end: self.range_end,
            entity: self.entity@,
            slot_name: self.slot_name@,
            confidence_score: self.confidence_score,
        }
    }
}

pub open spec fn slot_error(v: NluSlotView) -> Option<CodecError> {
    first_of(
        text_error(v.raw_value, Field::RawValue),
        first_of(
            text_error(v.value, Field::Value),
            first_of(
                text_error(v.entity, Field::Entity),
                first_of(
                    text_error(v.slot_name, Field::SlotName),
                    confidence_error(v.confidence_score, Field::ConfidenceScore),
                ),
            ),
        ),
    )
}

/// The boundary form of [`NluSlot`]; the confidence is a range sentinel.
pub struct CNluSlot {
    pub raw_value: Option<CText>,
    pub value: Option<CText>,
    pub range_start: i32,
    pub range_end: i32,
    pub entity: Option<CText>,
    pub slot_name: Option<CText>,
    pub confidence_score: u32,
}

impl CNluSlot {
    pub open spec fn encodes(&self, v: NluSlotView) -> bool {
        &&& text_holds(self.raw_value, v.raw_value)
        &&& text_holds(self.value, v.value)
        &&& self.range_start == v.range_start
        &&& self.range_end == v.range_end
        &&& text_holds(self.entity, v.entity)
        &&& text_holds(self.slot_name, v.slot_name)
        &&& confidence_holds(self.confidence_score, v.confidence_score)
    }

    pub open spec fn spec_rust(&self) -> Result<NluSlotView, CodecError> {
        match first_of(
            null_error(self.raw_value, Field::RawValue),
            first_of(
                null_error(self.value, Field::Value),
                first_of(
                    null_error(self.entity, Field::Entity),
                    null_error(self.slot_name, Field::SlotName),
                ),
            ),
        ) {
            Some(e) => Err(e),
            None => Ok(
                NluSlotView {
                    raw_value: text_of(self.raw_value),
                    value: text_of(self.value),
                    range_start: self.range_start,
                    range_end: self.range_end,
                    entity: text_of(self.entity),
                    slot_name: text_of(self.slot_name),
                    confidence_score: spec_confidence(self.confidence_score),
                },
            ),
        }
    }

    pub fn c_repr_of(input: NluSlot) -> (r: Result<Self, CodecError>)
        ensures
            r is Ok <==> slot_error(input.deep_view()) is None,
            r matches Ok(c) ==> c.encodes(input.deep_view()),
            r matches Err(e) ==> slot_error(input.deep_view()) == Some(e),
    {
        let raw_value = match c_text(input.raw_value.as_str(), Field::RawValue) {
            Ok(t) => t,
            Err(e) => return Err(e),
        };
        let value = match c_text(input.value.as_str(), Field::Value) {
            Ok(t) => t,
            Err(e) => return Err(e),
        };
        let entity = match c_text(input.entity.as_str(), Field::Entity) {
            Ok(t) => t,
            Err(e) => return Err(e),
        };
        let slot_name = match c_text(input.slot_name.as_str(), Field::SlotName) {
            Ok(t) => t,
            Err(e) => return Err(e),
        };
        let confidence_score = match c_confidence(input.confidence_score, Field::ConfidenceScore) {
            Ok(b) => b,
            Err(e) => return Err(e),
        };
        Ok(CNluSlot {
            raw_value,
            value,
            range_start: input.range_start,
            range_end: input.range_end,
            entity,
            slot_name,
            confidence_score,
        })
    }

    pub fn as_rust(&self) -> (r: Result<NluSlot, CodecError>)
        ensures
            match r {
                Ok(v) => self.spec_rust() == Ok::<_, CodecError>(v.deep_view()),
                Err(e) => self.spec_rust() == Err::<NluSlotView, _>(e),
            },
    {
        let raw_value = match rust_text(&self.raw_value, Field::RawValue) {
            Ok(s) => s,
            Err(e) => return Err(e),
        };
        let value = match rust_text(&self.value, Field::Value) {
            Ok(s) => s,
            Err(e) => return Err(e),
        };
        let entity = match rust_text(&self.entity, Field::Entity) {
            Ok(s) => s,
            Err(e) => return Err(e),
        };
        let slot_name = match rust_text(&self.slot_name, Field::SlotName) {
            Ok(s) => s,
            Err(e) => return Err(e),
        };
        Ok(NluSlot {
            raw_value,
            value,
            range_start: self.range_start,
            range_end: self.range_end,
            entity,
            slot_name,
            confidence_score: rust_confidence(self.confidence_score),
        })
    }
}

pub open spec fn slots_error(v: Seq<NluSlotView>) -> Option<CodecError> {
    seq_error(v, |x: NluSlotView| slot_error(x))
}


pub open spec fn decode_slots(s: Seq<CNluSlot>) -> Result<
    Seq<NluSlotView>,
    CodecError,
> {
    decode_all(s, |c: CNluSlot| c.spec_rust())
}

/// A counted array of [`CNluSlot`].
pub struct CNluSlotArray {
    pub entries: Vec<CNluSlot>,
    pub count: i32,
}

impl CNluSlotArray {
    pub open spec fn encodes(&self, v: Seq<NluSlotView>) -> bool {
        &&& self.count == v.len()
        &&& self.entries@.len() == v.len()
        &&& forall|i: int| 0 <= i < v.len() ==> #[trigger] self.entries@[i].encodes(v[i])
    }

    pub open spec fn spec_rust(&self) -> Result<Seq<NluSlotView>, CodecError> {
        if self.count < 0 || self.count != self.entries@.len() {
            Err(err(ErrorKind::ArrayLengthMismatch, Field::Entries))
        } else {
            decode_slots(self.entries@)
        }
    }

    pub fn c_repr_of(input: Vec<NluSlot>) -> (r: Result<Self, CodecError>)
        ensures
            r is Ok <==> slots_error(input.deep_view()) is None,
            r matches Ok(c) ==> c.encodes(input.deep_view()),
            r matches Err(e) ==> slots_error(input.deep_view()) == Some(e),
    {
        let ghost v = input.deep_view();
        let ghost check = |x: NluSlotView| slot_error(x);
        if input.len() > i32::MAX as usize {
            return Err(codec_error(ErrorKind::Encoding, Field::Entries));
        }
        let count = input.len() as i32;
        assert(slots_error(v) == seq_error(v, check));
        let mut entries: Vec<CNluSlot> = Vec::new();
        let mut rest = input;
        let mut i: usize = 0;
        while rest.len() > 0
            invariant
                v.len() <= i32::MAX,
                count == v.len(),
                i + rest@.len() == v.len(),
                entries@.len() == i,
                forall|j: int| 0 <= j < rest@.len() ==> #[trigger] rest@[j].deep_view() == v[i + j],
                forall|j: int| 0 <= j < i ==> #[trigger] entries@[j].encodes(v[j]),
                first_error(v.subrange(0, i as int), check) is None,
                check == (|x: NluSlotView| slot_error(x)),
                slots_error(v) == seq_error(v, check),
                v == input.deep_view(),
            decreases rest@.len(),
        {
            let item = rest.remove(0);
            proof {
                assert(item.deep_view() == v[i as int]);
                lemma_first_error_step(v, check, i as int);
                assert(check(v[i as int]) == slot_error(v[i as int]));
            }
            match CNluSlot::c_repr_of(item) {
                Ok(c) => entries.push(c),
                Err(e) => {
                    proof {
                        lemma_first_error_prefix(v, check, i + 1);
                    }
                    return Err(e);
                },
            }
            i += 1;
        }
        assert(v.subrange(0, v.len() as int) =~= v);
        Ok(CNluSlotArray { entries, count })
    }

    pub fn as_rust(&self) -> (r: Result<Vec<NluSlot>, CodecError>)
        ensures
            match r {
                Ok(v) => self.spec_rust() == Ok::<_, CodecError>(v.deep_view()),
                Err(e) => self.spec_rust() == Err::<Seq<NluSlotView>, _>(e),
            },
    {
        let ghost dec = |c: CNluSlot| c.spec_rust();
        if self.count < 0 || self.count as usize != self.entries.len() {
            return Err(codec_error(ErrorKind::ArrayLengthMismatch, Field::Entries));
        }
        let mut result: Vec<NluSlot> = Vec::new();
        let mut i: usize = 0;
        assert(decode_slots(self.entries@) == decode_all(self.entries@, dec));
        assert(result.deep_view() =~= Seq::<NluSlotView>::empty());
        assert(self.entries@.subrange(0, 0) =~= Seq::<CNluSlot>::empty());
        while i < self.entries.len()
            invariant
                i <= self.entries@.len(),
                dec == (|c: CNluSlot| c.spec_rust()),
                self.spec_rust() == decode_all(self.entries@, dec),
                decode_all(self.entries@.subrange(0, i as int), dec) == Ok::<_, CodecError>(
                    result.deep_view(),
                ),
            decreases self.entries@.len() - i,
        {
            proof {
                lemma_decode_all_step(self.entries@, dec, i as int);
                assert(dec(self.entries@[i as int]) == self.entries@[i as int].spec_rust());
            }
            match self.entries[i].as_rust() {
                Ok(x) => {
                    let ghost before = result.deep_view();
                    result.push(x);
                    assert(result.deep_view() =~= before.push(x.deep_view()));
                },
                Err(e) => {
                    proof {
                        lemma_decode_all_prefix(self.entries@, dec, i + 1);
                    }
                    return Err(e);
                },
            }
            i += 1;
        }
        assert(self.entries@.subrange(0, self.entries@.len() as int) =~= self.entries@);
        assert(decode_slots(self.entries@) == decode_all(self.entries@, dec));
        Ok(result)
    }
}


} // verus!
