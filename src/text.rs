use vstd::prelude::*;
use vstd::utf8::*;

use crate::error::{codec_error, err, CodecError, ErrorKind, Field};

verus! {

broadcast use {encode_utf8_valid_utf8, encode_utf8_decode_utf8, decode_utf8_encode_utf8};

/// A text can cross the boundary when its UTF-8 bytes hold no NUL, which
/// would cut the terminated buffer short.
pub open spec fn representable(s: Seq<char>) -> bool {
    !encode_utf8(s).contains(0u8)
}

/// Relies on `String::from_utf8`: it succeeds exactly on valid UTF-8 input, and
/// the string then holds the characters that the bytes encode.
#[verifier::external_body]
fn string_from_utf8(b: Vec<u8>) -> (r: Option<String>)
    ensures
        r is Some <==> valid_utf8(b@),
        r matches Some(s) ==> s@ == decode_utf8(b@),
{
    String::from_utf8(b).ok()
}

/// An owned, NUL-terminated UTF-8 buffer: the text part of the boundary layout.
pub struct CText {
    bytes: Vec<u8>,
}

impl CText {
    #[verifier::type_invariant]
    spec fn wf(self) -> bool {
        &&& self.bytes@.len() >= 1
        &&& self.bytes@.last() == 0u8
        &&& !self.bytes@.drop_last().contains(0u8)
        &&& valid_utf8(self.bytes@.drop_last())
    }

    /// Encodes `s` into a fresh terminated buffer; `None` when `s` holds a NUL.
    pub fn new(s: &str) -> (r: Option<CText>)
        ensures
            r is Some <==> representable(s@),
            r matches Some(c) ==> c@ == s@,
    {
        let src = s.as_bytes();
        let mut bytes: Vec<u8> = Vec::new();
        let mut i: usize = 0;
        while i < src.len()
            invariant
                src@ == encode_utf8(s@),
                i <= src@.len(),
                bytes@ == src@.subrange(0, i as int),
                !bytes@.contains(0u8),
            decreases src@.len() - i,
        {
            if src[i] == 0 {
                assert(src@[i as int] == 0u8);
                return None;
            }
            let ghost prev = bytes@;
            bytes.push(src[i]);
            assert(!bytes@.contains(0u8)) by {
                assert forall|j: int| 0 <= j < bytes@.len() implies bytes@[j] != 0u8 by {
                    if j < prev.len() {
                        assert(prev[j] == bytes@[j]);
                    }
                }
            }
            i += 1;
        }
        assert(bytes@ == encode_utf8(s@));
        bytes.push(0);
        assert(bytes@.drop_last() == encode_utf8(s@));
        Some(CText { bytes })
    }

    /// The terminated bytes, as a reader on the other side sees them.
    pub fn as_bytes(&self) -> (r: &Vec<u8>)
        ensures
            r@ == encode_utf8(self@).push(0u8),
    {
        proof {
            use_type_invariant(self);
            assert(self.bytes@ == self.bytes@.drop_last().push(0u8));
        }
        &self.bytes
    }

    /// Reads the text back into a fresh string; the buffer is only borrowed.
    pub fn to_text(&self) -> (r: String)
        ensures
            r@ == self@,
    {
        proof {
            use_type_invariant(self);
        }
        let n: usize = self.bytes.len() - 1;
        let mut b: Vec<u8> = Vec::new();
        let mut i: usize = 0;
        while i < n
            invariant
                n == self.bytes@.len() - 1,
                i <= n,
                b@ == self.bytes@.subrange(0, i as int),
            decreases n - i,
        {
            b.push(self.bytes[i]);
            i += 1;
        }
        assert(b@ == self.bytes@.drop_last());
        match string_from_utf8(b) {
            Some(s) => s,
            None => String::new(),
        }
    }
}

impl View for CText {
    type V = Seq<char>;

    closed spec fn view(&self) -> Seq<char> {
        decode_utf8(self.bytes@.drop_last())
    }
}

/// What a required text pointer must hold to stand for `s`.
pub open spec fn text_holds(c: Option<CText>, s: Seq<char>) -> bool {
    c matches Some(t) && t@ == s
}

/// What a nullable text pointer must hold to stand for `s`.
pub open spec fn opt_text_holds(c: Option<CText>, s: Option<Seq<char>>) -> bool {
    match (c, s) {
        (None, None) => true,
        (Some(t), Some(x)) => t@ == x,
        _ => false,
    }
}

pub open spec fn text_error(s: Seq<char>, f: Field) -> Option<CodecError> {
    if representable(s) {
        None
    } else {
        Some(err(ErrorKind::Encoding, f))
    }
}

pub open spec fn opt_text_error(s: Option<Seq<char>>, f: Field) -> Option<CodecError> {
    match s {
        Some(x) => text_error(x, f),
        None => None,
    }
}

/// The text behind a pointer, or the empty text where it is null.
pub open spec fn text_of(c: Option<CText>) -> Seq<char> {
    match c {
        Some(t) => t@,
        None => Seq::empty(),
    }
}

/// A required pointer that is null.
pub open spec fn null_error<T>(c: Option<T>, f: Field) -> Option<CodecError> {
    if c is None {
        Some(err(ErrorKind::NullPointer, f))
    } else {
        None
    }
}

/// Decoding a required text pointer.
pub open spec fn spec_text(c: Option<CText>, f: Field) -> Result<Seq<char>, CodecError> {
    match c {
        Some(t) => Ok(t@),
        None => Err(err(ErrorKind::NullPointer, f)),
    }
}

/// Decoding a nullable text pointer: null stands for an absent text.
pub open spec fn spec_opt_text(c: Option<CText>) -> Option<Seq<char>> {
    match c {
        Some(t) => Some(t@),
        None => None,
    }
}

/// Encodes a required text field.
pub fn c_text(s: &str, f: Field) -> (r: Result<Option<CText>, CodecError>)
    ensures
        r is Ok <==> text_error(s@, f) is None,
        r matches Ok(c) ==> text_holds(c, s@),
        r matches Err(e) ==> text_error(s@, f) == Some(e),
{
    match CText::new(s) {
        Some(t) => Ok(Some(t)),
        None => Err(codec_error(ErrorKind::Encoding, f)),
    }
}

/// Encodes a nullable text field: an absent text becomes a null pointer.
pub fn c_opt_text(s: &Option<String>, f: Field) -> (r: Result<Option<CText>, CodecError>)
    ensures
        r is Ok <==> opt_text_error(s.deep_view(), f) is None,
        r matches Ok(c) ==> opt_text_holds(c, s.deep_view()),
        r matches Err(e) ==> opt_text_error(s.deep_view(), f) == Some(e),
{
    match s {
        Some(x) => match CText::new(x.as_str()) {
            Some(t) => Ok(Some(t)),
            None => Err(codec_error(ErrorKind::Encoding, f)),
        },
        None => Ok(None),
    }
}

/// Decodes a required text field; a null pointer is an error naming `f`.
pub fn rust_text(c: &Option<CText>, f: Field) -> (r: Result<String, CodecError>)
    ensures
        match r {
            Ok(s) => spec_text(*c, f) == Ok::<Seq<char>, CodecError>(s@),
            Err(e) => spec_text(*c, f) == Err::<Seq<char>, CodecError>(e),
        },
{
    match c {
        Some(t) => Ok(t.to_text()),
        None => Err(codec_error(ErrorKind::NullPointer, f)),
    }
}

/// Decodes a nullable text field.
pub fn rust_opt_text(c: &Option<CText>) -> (r: Option<String>)
    ensures
        r.deep_view() == spec_opt_text(*c),
{
    match c {
        Some(t) => Some(t.to_text()),
        None => None,
    }
}

/// Encoding a list of texts: it fails when its length does not fit the
/// count, or when one of the texts holds a NUL.
pub open spec fn strings_error(v: Seq<Seq<char>>) -> Option<CodecError> {
    if v.len() <= i32::MAX && forall|i: int| 0 <= i < v.len() ==> representable(#[trigger] v[i]) {
        None
    } else {
        Some(err(ErrorKind::Encoding, Field::Entries))
    }
}

pub open spec fn opt_strings_error(v: Option<Seq<Seq<char>>>) -> Option<CodecError> {
    match v {
        Some(x) => strings_error(x),
        None => None,
    }
}

/// A counted array of owned texts.
pub struct CStringArray {
    pub data: Vec<CText>,
    pub size: i32,
}

impl CStringArray {
    /// The array holds exactly the texts of `v`, in order, with a count that agrees.
    pub open spec fn encodes(&self, v: Seq<Seq<char>>) -> bool {
        &&& self.size == v.len()
        &&& self.data@.len() == v.len()
        &&& forall|i: int| 0 <= i < v.len() ==> #[trigger] self.data@[i]@ == v[i]
    }

    /// Decoding: the texts in order, once the count is checked against the entries.
    pub open spec fn spec_rust(&self) -> Result<Seq<Seq<char>>, CodecError> {
        if self.size < 0 || self.size != self.data@.len() {
            Err(err(ErrorKind::ArrayLengthMismatch, Field::Entries))
        } else {
            Ok(self.data@.map_values(|t: CText| t@))
        }
    }

    pub fn c_repr_of(input: Vec<String>) -> (r: Result<CStringArray, CodecError>)
        ensures
            r is Ok <==> strings_error(input.deep_view()) is None,
            r matches Ok(c) ==> c.encodes(input.deep_view()),
            r matches Err(e) ==> strings_error(input.deep_view()) == Some(e),
    {
        let ghost v = input.deep_view();
        if input.len() > i32::MAX as usize {
            return Err(codec_error(ErrorKind::Encoding, Field::Entries));
        }
        let mut data: Vec<CText> = Vec::new();
        let mut i: usize = 0;
        while i < input.len()
            invariant
                v == input.deep_view(),
                input@.len() <= i32::MAX,
                i <= input@.len(),
                data@.len() == i,
                forall|j: int| 0 <= j < i ==> #[trigger] data@[j]@ == v[j],
                forall|j: int| 0 <= j < i ==> representable(#[trigger] v[j]),
            decreases input@.len() - i,
        {
            assert(v[i as int] == input@[i as int]@);
            match CText::new(input[i].as_str()) {
                Some(t) => {
                    data.push(t);
                },
                None => {
                    assert(!representable(v[i as int]));
                    return Err(codec_error(ErrorKind::Encoding, Field::Entries));
                },
            }
            i += 1;
        }
        let size = i as i32;
        Ok(CStringArray { data, size })
    }

    pub fn as_rust(&self) -> (r: Result<Vec<String>, CodecError>)
        ensures
            match r {
                Ok(v) => self.spec_rust() == Ok::<Seq<Seq<char>>, CodecError>(v.deep_view()),
                Err(e) => self.spec_rust() == Err::<Seq<Seq<char>>, CodecError>(e),
            },
    {
        if self.size < 0 || self.size as usize != self.data.len() {
            return Err(codec_error(ErrorKind::ArrayLengthMismatch, Field::Entries));
        }
        let mut out: Vec<String> = Vec::new();
        let mut i: usize = 0;
        while i < self.data.len()
            invariant
                i <= self.data@.len(),
                out@.len() == i,
                forall|j: int| 0 <= j < i ==> #[trigger] out@[j]@ == self.data@[j]@,
            decreases self.data@.len() - i,
        {
            out.push(self.data[i].to_text());
            i += 1;
        }
        assert(out.deep_view() == self.data@.map_values(|t: CText| t@));
        Ok(out)
    }
}

/// Nullable string array: what the field holds for an optional list.
pub open spec fn opt_strings_holds(c: Option<CStringArray>, v: Option<Seq<Seq<char>>>) -> bool {
    match (c, v) {
        (None, None) => true,
        (Some(a), Some(x)) => a.encodes(x),
        _ => false,
    }
}

pub open spec fn spec_opt_strings(c: Option<CStringArray>) -> Result<
    Option<Seq<Seq<char>>>,
    CodecError,
> {
    match c {
        Some(a) => match a.spec_rust() {
            Ok(v) => Ok(Some(v)),
            Err(e) => Err(e),
        },
        None => Ok(None),
    }
}

/// Encodes an optional list: absent becomes null, present (even empty) an array.
pub fn c_opt_strings(input: Option<Vec<String>>) -> (r: Result<Option<CStringArray>, CodecError>)
    ensures
        r is Ok <==> opt_strings_error(input.deep_view()) is None,
        r matches Ok(c) ==> opt_strings_holds(c, input.deep_view()),
        r matches Err(e) ==> opt_strings_error(input.deep_view()) == Some(e),
{
    match input {
        Some(v) => match CStringArray::c_repr_of(v) {
            Ok(a) => Ok(Some(a)),
            Err(e) => Err(e),
        },
        None => Ok(None),
    }
}

/// Decodes an optional list: null stands for absent.
pub fn rust_opt_strings(c: &Option<CStringArray>) -> (r: Result<Option<Vec<String>>, CodecError>)
    ensures
        match r {
            Ok(v) => spec_opt_strings(*c) == Ok::<Option<Seq<Seq<char>>>, CodecError>(
                v.deep_view(),
            ),
            Err(e) => spec_opt_strings(*c) == Err::<Option<Seq<Seq<char>>>, CodecError>(e),
        },
{
    match c {
        Some(a) => match a.as_rust() {
            Ok(v) => Ok(Some(v)),
            Err(e) => Err(e),
        },
        None => Ok(None),
    }
}

} // verus!
