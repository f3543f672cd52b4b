use vstd::prelude::*;

use crate::error::{codec_error, err, CodecError, ErrorKind, Field};
use crate::seq_codec::{
    decode_all, first_error, lemma_decode_all_prefix, lemma_decode_all_step, lemma_first_error_prefix,
    lemma_first_error_step, seq_error,
};
use crate::text::{c_text, null_error, rust_text, text_error, text_holds, text_of, CText};

verus! {

/// When a token was heard, in seconds from the start of decoding (the bits of
/// two single-precision numbers, carried as they are).
#[derive(Clone, Copy, Debug, PartialEq, Eq, Structural)]
pub struct AsrDecodingDuration {
    pub start: u32,
    pub end: u32,
}

/// One recognised word: its text, confidence, character range and timing.
#[derive(Clone, Debug, PartialEq)]
pub struct AsrToken {
    pub value: String,
    pub confidence: u32,
    pub range_start: i32,
    pub range_end: i32,
    pub time: AsrDecodingDuration,
}

pub struct AsrTokenView {
    pub value: Seq<char>,
    pub confidence: u32,
    pub range_start: i32,
    pub range_end: i32,
    pub time: AsrDecodingDuration,
}

impl DeepView for AsrToken {
    type V = AsrTokenView;

    open spec fn deep_view(&self) -> AsrTokenView {
        AsrTokenView {
            value: self.value@,
            confidence: self.confidence,
            range_start: self.range_start,
            range_end: self.range_end,
            time: self.time,
        }
    }
}

pub open spec fn asr_token_error(v: AsrTokenView) -> Option<CodecError> {
    text_error(v.value, Field::Value)
}

/// The boundary form of [`AsrToken`].
pub struct CAsrToken {
    pub value: Option<CText>,
    pub confidence: u32,
    pub range_start: i32,
    pub range_end: i32,
    pub time: AsrDecodingDuration,
}

impl CAsrToken {
    pub open spec fn encodes(&self, v: AsrTokenView) -> bool {
        &&& text_holds(self.value, v.value)
        &&& self.confidence == v.confidence
        &&& self.range_start == v.range_start
        &&& self.range_end == v.range_end
        &&& self.time == v.time
    }

    pub open spec fn spec_rust(&self) -> Result<AsrTokenView, CodecError> {
        match null_error(self.value, Field::Value) {
            Some(e) => Err(e),
            None => Ok(
                AsrTokenView {
                    value: text_of(self.value),
                    confidence: self.confidence,
                    range_start: self.range_start,
                    range_end: self.range_end,
                    time: self.time,
                },
            ),
        }
    }

    pub fn c_repr_of(input: AsrToken) -> (r: Result<Self, CodecError>)
        ensures
            r is Ok <==> asr_token_error(input.deep_view()) is None,
            r matches Ok(c) ==> c.encodes(input.deep_view()),
            r matches Err(e) ==> asr_token_error(input.deep_view()) == Some(e),
    {
        let value = match c_text(input.value.as_str(), Field::Value) {
            Ok(t) => t,
            Err(e) => return Err(e),
        };
        Ok(CAsrToken {
            value,
            confidence: input.confidence,
            range_start: input.range_start,
            range_end: input.range_end,
            time: input.time,
        })
    }

    pub fn as_rust(&self) -> (r: Result<AsrToken, CodecError>)
        ensures
            match r {
                Ok(v) => self.spec_rust() == Ok::<_, CodecError>(v.deep_view()),
                Err(e) => self.spec_rust() == Err::<AsrTokenView, _>(e),
            },
    {
        let value = match rust_text(&self.value, Field::Value) {
            Ok(s) => s,
            Err(e) => return Err(e),
        };
        Ok(AsrToken {
            value,
            confidence: self.confidence,
            range_start: self.range_start,
            range_end: self.range_end,
            time: self.time,
        })
    }
}

pub open spec fn asr_tokens_error(v: Seq<AsrTokenView>) -> Option<CodecError> {
    seq_error(v, |x: AsrTokenView| asr_token_error(x))
}


pub open spec fn decode_asr_tokens(s: Seq<CAsrToken>) -> Result<
    Seq<AsrTokenView>,
    CodecError,
> {
    decode_all(s, |c: CAsrToken| c.spec_rust())
}

/// The tokens of one recognition attempt, as a counted array.
pub struct CAsrTokenArray {
    pub entries: Vec<CAsrToken>,
    pub count: i32,
}

impl CAsrTokenArray {
    pub open spec fn encodes(&self, v: Seq<AsrTokenView>) -> bool {
        &&& self.count == v.len()
        &&& self.entries@.len() == v.len()
        &&& forall|i: int| 0 <= i < v.len() ==> #[trigger] self.entries@[i].encodes(v[i])
    }

    pub open spec fn spec_rust(&self) -> Result<Seq<AsrTokenView>, CodecError> {
        if self.count < 0 || self.count != self.entries@.len() {
            Err(err(ErrorKind::ArrayLengthMismatch, Field::Entries))
        } else {
            decode_asr_tokens(self.entries@)
        }
    }

    pub fn c_repr_of(input: Vec<AsrToken>) -> (r: Result<Self, CodecError>)
        ensures
            r is Ok <==> asr_tokens_error(input.deep_view()) is None,
            r matches Ok(c) ==> c.encodes(input.deep_view()),
            r matches Err(e) ==> asr_tokens_error(input.deep_view()) == Some(e),
    {
        let ghost v = input.deep_view();
        let ghost check = |x: AsrTokenView| asr_token_error(x);
        if input.len() > i32::MAX as usize {
            return Err(codec_error(ErrorKind::Encoding, Field::Entries));
        }
        let count = input.len() as i32;
        assert(asr_tokens_error(v) == seq_error(v, check));
        let mut entries: Vec<CAsrToken> = Vec::new();
        let mut rest = input;
        let mut i: usize = 0;
        while rest.len() > 0
            invariant
                v.len() <= i32::MAX,
                count == v.len(),
                i + rest@.len() == v.len(),
                entries@.len() == i,
                forall|j: int| 0 <= j < rest@.len() ==> #[trigger] rest@[j].deep_view() == v[i + j],
                forall|j: int| 0 <= j < i ==> #[trigger] entries@[j].encodes(v[j]),
                first_error(v.subrange(0, i as int), check) is None,
                check == (|x: AsrTokenView| asr_token_error(x)),
                asr_tokens_error(v) == seq_error(v, check),
                v == input.deep_view(),
            decreases rest@.len(),
        {
            let item = rest.remove(0);
            proof {
                assert(item.deep_view() == v[i as int]);
                lemma_first_error_step(v, check, i as int);
                assert(check(v[i as int]) == asr_token_error(v[i as int]));
            }
            match CAsrToken::c_repr_of(item) {
                Ok(c) => entries.push(c),
                Err(e) => {
                    proof {
                        lemma_first_error_prefix(v, check, i + 1);
                    }
                    return Err(e);
                },
            }
            i += 1;
        }
        assert(v.subrange(0, v.len() as int) =~= v);
        Ok(CAsrTokenArray { entries, count })
    }

    pub fn as_rust(&self) -> (r: Result<Vec<AsrToken>, CodecError>)
        ensures
            match r {
                Ok(v) => self.spec_rust() == Ok::<_, CodecError>(v.deep_view()),
                Err(e) => self.spec_rust() == Err::<Seq<AsrTokenView>, _>(e),
            },
    {
        let ghost dec = |c: CAsrToken| c.spec_rust();
        if self.count < 0 || self.count as usize != self.entries.len() {
            return Err(codec_error(ErrorKind::ArrayLengthMismatch, Field::Entries));
        }
        let mut result: Vec<AsrToken> = Vec::new();
        let mut i: usize = 0;
        assert(decode_asr_tokens(self.entries@) == decode_all(self.entries@, dec));
        assert(result.deep_view() =~= Seq::<AsrTokenView>::empty());
        assert(self.entries@.subrange(0, 0) =~= Seq::<CAsrToken>::empty());
        while i < self.entries.len()
            invariant
                i <= self.entries@.len(),
                dec == (|c: CAsrToken| c.spec_rust()),
                self.spec_rust() == decode_all(self.entries@, dec),
                decode_all(self.entries@.subrange(0, i as int), dec) == Ok::<_, CodecError>(
                    result.deep_view(),
                ),
            decreases self.entries@.len() - i,
        {
            proof {
                lemma_decode_all_step(self.entries@, dec, i as int);
                assert(dec(self.entries@[i as int]) == self.entries@[i as int].spec_rust());
            }
            match self.entries[i].as_rust() {
                Ok(x) => {
                    let ghost before = result.deep_view();
                    result.push(x);
                    assert(result.deep_view() =~= before.push(x.deep_view()));
                },
                Err(e) => {
                    proof {
                        lemma_decode_all_prefix(self.entries@, dec, i + 1);
                    }
                    return Err(e);
                },
            }
            i += 1;
        }
        assert(self.entries@.subrange(0, self.entries@.len() as int) =~= self.entries@);
        assert(decode_asr_tokens(self.entries@) == decode_all(self.entries@, dec));
        Ok(result)
    }
}


pub open spec fn asr_token_groups_error(v: Seq<Seq<AsrTokenView>>) -> Option<CodecError> {
    seq_error(v, |x: Seq<AsrTokenView>| asr_tokens_error(x))
}


pub open spec fn decode_asr_token_groups(s: Seq<CAsrTokenArray>) -> Result<
    Seq<Seq<AsrTokenView>>,
    CodecError,
> {
    decode_all(s, |c: CAsrTokenArray| c.spec_rust())
}

/// Tokens grouped by recognition attempt: a counted array of counted arrays.
pub struct CAsrTokenDoubleArray {
    pub entries: Vec<CAsrTokenArray>,
    pub count: i32,
}

impl CAsrTokenDoubleArray {
    pub open spec fn encodes(&self, v: Seq<Seq<AsrTokenView>>) -> bool {
        &&& self.count == v.len()
        &&& self.entries@.len() == v.len()
        &&& forall|i: int| 0 <= i < v.len() ==> #[trigger] self.entries@[i].encodes(v[i])
    }

    pub open spec fn spec_rust(&self) -> Result<Seq<Seq<AsrTokenView>>, CodecError> {
        if self.count < 0 || self.count != self.entries@.len() {
            Err(err(ErrorKind::ArrayLengthMismatch, Field::Entries))
        } else {
            decode_asr_token_groups(self.entries@)
        }
    }

    pub fn c_repr_of(input: Vec<Vec<AsrToken>>) -> (r: Result<Self, CodecError>)
        ensures
            r is Ok <==> asr_token_groups_error(input.deep_view()) is None,
            r matches Ok(c) ==> c.encodes(input.deep_view()),
            r matches Err(e) ==> asr_token_groups_error(input.deep_view()) == Some(e),
    {
        let ghost v = input.deep_view();
        let ghost check = |x: Seq<AsrTokenView>| asr_tokens_error(x);
        if input.len() > i32::MAX as usize {
            return Err(codec_error(ErrorKind::Encoding, Field::Entries));
        }
        let count = input.len() as i32;
        assert(asr_token_groups_error(v) == seq_error(v, check));
        let mut entries: Vec<CAsrTokenArray> = Vec::new();
        let mut rest = input;
        let mut i: usize = 0;
        while rest.len() > 0
            invariant
                v.len() <= i32::MAX,
                count == v.len(),
                i + rest@.len() == v.len(),
                entries@.len() == i,
                forall|j: int| 0 <= j < rest@.len() ==> #[trigger] rest@[j].deep_view() == v[i + j],
                forall|j: int| 0 <= j < i ==> #[trigger] entries@[j].encodes(v[j]),
                first_error(v.subrange(0, i as int), check) is None,
                check == (|x: Seq<AsrTokenView>| asr_tokens_error(x)),
                asr_token_groups_error(v) == seq_error(v, check),
                v == input.deep_view(),
            decreases rest@.len(),
        {
            let item = rest.remove(0);
            proof {
                assert(item.deep_view() == v[i as int]);
                lemma_first_error_step(v, check, i as int);
                assert(check(v[i as int]) == asr_tokens_error(v[i as int]));
            }
            match CAsrTokenArray::c_repr_of(item) {
                Ok(c) => entries.push(c),
                Err(e) => {
                    proof {
                        lemma_first_error_prefix(v, check, i + 1);
                    }
                    return Err(e);
                },
            }
            i += 1;
        }
        assert(v.subrange(0, v.len() as int) =~= v);
        Ok(CAsrTokenDoubleArray { entries, count })
    }

    pub fn as_rust(&self) -> (r: Result<Vec<Vec<AsrToken>>, CodecError>)
        ensures
            match r {
                Ok(v) => self.spec_rust() == Ok::<_, CodecError>(v.deep_view()),
                Err(e) => self.spec_rust() == Err::<Seq<Seq<AsrTokenView>>, _>(e),
            },
    {
        let ghost dec = |c: CAsrTokenArray| c.spec_rust();
        if self.count < 0 || self.count as usize != self.entries.len() {
            return Err(codec_error(ErrorKind::ArrayLengthMismatch, Field::Entries));
        }
        let mut result: Vec<Vec<AsrToken>> = Vec::new();
        let mut i: usize = 0;
        assert(decode_asr_token_groups(self.entries@) == decode_all(self.entries@, dec));
        assert(result.deep_view() =~= Seq::<Seq<AsrTokenView>>::empty());
        assert(self.entries@.subrange(0, 0) =~= Seq::<CAsrTokenArray>::empty());
        while i < self.entries.len()
            invariant
                i <= self.entries@.len(),
                dec == (|c: CAsrTokenArray| c.spec_rust()),
                self.spec_rust() == decode_all(self.entries@, dec),
                decode_all(self.entries@.subrange(0, i as int), dec) == Ok::<_, CodecError>(
                    result.deep_view(),
                ),
            decreases self.entries@.len() - i,
        {
            proof {
                lemma_decode_all_step(self.entries@, dec, i as int);
                assert(dec(self.entries@[i as int]) == self.entries@[i as int].spec_rust());
            }
            match self.entries[i].as_rust() {
                Ok(x) => {
                    let ghost before = result.deep_view();
                    result.push(x);
                    assert(result.deep_view() =~= before.push(x.deep_view()));
                },
                Err(e) => {
                    proof {
                        lemma_decode_all_prefix(self.entries@, dec, i + 1);
                    }
                    return Err(e);
                },
            }
            i += 1;
        }
        assert(self.entries@.subrange(0, self.entries@.len() as int) =~= self.entries@);
        assert(decode_asr_token_groups(self.entries@) == decode_all(self.entries@, dec));
        Ok(result)
    }
}


} // verus!
