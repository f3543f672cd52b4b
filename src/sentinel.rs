use vstd::prelude::*;

use crate::error::{codec_error, err, CodecError, ErrorKind, Field};

verus! {

// Confidences are single-precision numbers, carried as their IEEE-754 bit
// patterns (`f32::to_bits`), so that the range test below is exact.
/// The bits of `1.0`.
pub const CONFIDENCE_ONE: u32 = 0x3F80_0000;

/// The bits of `-0.0`, which compares equal to `0.0`.
pub const NEGATIVE_ZERO: u32 = 0x8000_0000;

/// The bits of `-1.0`: what an absent confidence is written as.
pub const ABSENT_CONFIDENCE: u32 = 0xBF80_0000;

/// The byte written for an absent tri-state boolean.
pub const ABSENT_FLAG: u8 = 255;

/// Whether the number with bit pattern `bits` satisfies `0.0 <= x <= 1.0`.
/// Patterns up to that of `1.0` are `+0.0` through `1.0`; every other pattern
/// is negative, above one, infinite or NaN, except `-0.0`.
pub open spec fn in_unit_range(bits: u32) -> bool {
    bits <= CONFIDENCE_ONE || bits == NEGATIVE_ZERO
}

pub fn is_in_unit_range(bits: u32) -> (r: bool)
    ensures
        r == in_unit_range(bits),
{
    bits <= CONFIDENCE_ONE || bits == NEGATIVE_ZERO
}

/// Encoding an optional confidence: a present one must lie in `[0, 1]`.
pub open spec fn confidence_error(v: Option<u32>, f: Field) -> Option<CodecError> {
    match v {
        Some(x) => if in_unit_range(x) {
            None
        } else {
            Some(err(ErrorKind::Encoding, f))
        },
        None => None,
    }
}

/// The range sentinel as read: inside `[0, 1]` present, anywhere else absent.
pub open spec fn spec_confidence(bits: u32) -> Option<u32> {
    if in_unit_range(bits) {
        Some(bits)
    } else {
        None
    }
}

/// The range sentinel as written: a present value as is, absence as `-1.0`.
pub open spec fn confidence_bits(v: Option<u32>) -> u32 {
    match v {
        Some(x) => x,
        None => ABSENT_CONFIDENCE,
    }
}

/// What a confidence field must hold to stand for `v`: the written bits, and
/// a present value that lies in `[0, 1]` (nothing stands for any other).
pub open spec fn confidence_holds(bits: u32, v: Option<u32>) -> bool {
    &&& bits == confidence_bits(v)
    &&& (v matches Some(x) ==> in_unit_range(x))
}

pub fn c_confidence(v: Option<u32>, f: Field) -> (r: Result<u32, CodecError>)
    ensures
        r is Ok <==> confidence_error(v, f) is None,
        r matches Ok(b) ==> confidence_holds(b, v),
        r matches Err(e) ==> confidence_error(v, f) == Some(e),
{
    match v {
        Some(x) => if is_in_unit_range(x) {
            Ok(x)
        } else {
            Err(codec_error(ErrorKind::Encoding, f))
        },
        None => Ok(ABSENT_CONFIDENCE),
    }
}

pub fn rust_confidence(bits: u32) -> (r: Option<u32>)
    ensures
        r == spec_confidence(bits),
{
    if is_in_unit_range(bits) {
        Some(bits)
    } else {
        None
    }
}

/// The tri-state byte as written: `0` false, `1` true, `255` absent.
pub open spec fn flag_byte(v: Option<bool>) -> u8 {
    match v {
        Some(false) => 0,
        Some(true) => 1,
        None => ABSENT_FLAG,
    }
}

/// The tri-state byte as read: `0` false, `1` true, any other byte absent.
pub open spec fn spec_flag(b: u8) -> Option<bool> {
    if b == 0 {
        Some(false)
    } else if b == 1 {
        Some(true)
    } else {
        None
    }
}

pub fn c_flag(v: Option<bool>) -> (r: u8)
    ensures
        r == flag_byte(v),
{
    match v {
        Some(false) => 0,
        Some(true) => 1,
        None => ABSENT_FLAG,
    }
}

pub fn rust_flag(b: u8) -> (r: Option<bool>)
    ensures
        r == spec_flag(b),
{
    if b == 0 {
        Some(false)
    } else if b == 1 {
        Some(true)
    } else {
        None
    }
}

/// A plain boolean byte as written: `1` for true, `0` for false.
pub open spec fn bool_byte(v: bool) -> u8 {
    if v {
        1
    } else {
        0
    }
}

pub fn c_bool(v: bool) -> (r: u8)
    ensures
        r == bool_byte(v),
{
    if v {
        1
    } else {
        0
    }
}

/// A plain boolean byte as read: any nonzero byte is true.
pub fn rust_bool(b: u8) -> (r: bool)
    ensures
        r == (b != 0),
{
    b != 0
}

} // verus!
