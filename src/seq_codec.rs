use vstd::prelude::*;

use crate::error::{err, CodecError, ErrorKind, Field};

verus! {

/// The error of the first element that `check` refuses, in order.
pub open spec fn first_error<T>(v: Seq<T>, check: spec_fn(T) -> Option<CodecError>) -> Option<
    CodecError,
>
    decreases v.len(),
{
    if v.len() == 0 {
        None
    } else {
        match first_error(v.drop_last(), check) {
            Some(e) => Some(e),
            None => check(v.last()),
        }
    }
}

/// Encoding a sequence: its length must fit the 32-bit count, then each
/// element must encode.
pub open spec fn seq_error<T>(v: Seq<T>, check: spec_fn(T) -> Option<CodecError>) -> Option<
    CodecError,
> {
    if v.len() > i32::MAX {
        Some(err(ErrorKind::Encoding, Field::Entries))
    } else {
        first_error(v, check)
    }
}

/// Decoding each element in order, stopping at the first failure.
pub open spec fn decode_all<C, V>(s: Seq<C>, dec: spec_fn(C) -> Result<V, CodecError>) -> Result<
    Seq<V>,
    CodecError,
>
    decreases s.len(),
{
    if s.len() == 0 {
        Ok(Seq::empty())
    } else {
        match decode_all(s.drop_last(), dec) {
            Err(e) => Err(e),
            Ok(p) => match dec(s.last()) {
                Ok(x) => Ok(p.push(x)),
                Err(e) => Err(e),
            },
        }
    }
}

pub proof fn lemma_first_error_step<T>(
    v: Seq<T>,
    check: spec_fn(T) -> Option<CodecError>,
    i: int,
)
    requires
        0 <= i < v.len(),
    ensures
        first_error(v.subrange(0, i + 1), check) == match first_error(v.subrange(0, i), check) {
            Some(e) => Some(e),
            None => check(v[i]),
        },
{
    assert(v.subrange(0, i + 1).drop_last() =~= v.subrange(0, i));
}

/// Once a prefix holds a refused element, the whole sequence fails with its error.
pub proof fn lemma_first_error_prefix<T>(
    v: Seq<T>,
    check: spec_fn(T) -> Option<CodecError>,
    k: int,
)
    requires
        0 <= k <= v.len(),
        first_error(v.subrange(0, k), check) is Some,
    ensures
        first_error(v, check) == first_error(v.subrange(0, k), check),
    decreases v.len(),
{
    if k < v.len() {
        assert(v.drop_last().subrange(0, k) =~= v.subrange(0, k));
        lemma_first_error_prefix(v.drop_last(), check, k);
    } else {
        assert(v.subrange(0, k) =~= v);
    }
}

pub proof fn lemma_decode_all_step<C, V>(
    s: Seq<C>,
    dec: spec_fn(C) -> Result<V, CodecError>,
    i: int,
)
    requires
        0 <= i < s.len(),
    ensures
        decode_all(s.subrange(0, i + 1), dec) == match decode_all(s.subrange(0, i), dec) {
            Err(e) => Err(e),
            Ok(p) => match dec(s[i]) {
                Ok(x) => Ok(p.push(x)),
                Err(e) => Err(e),
            },
        },
{
    assert(s.subrange(0, i + 1).drop_last() =~= s.subrange(0, i));
}

/// Once a prefix fails to decode, the whole sequence fails with its error.
pub proof fn lemma_decode_all_prefix<C, V>(
    s: Seq<C>,
    dec: spec_fn(C) -> Result<V, CodecError>,
    k: int,
)
    requires
        0 <= k <= s.len(),
        decode_all(s.subrange(0, k), dec) is Err,
    ensures
        decode_all(s, dec) == decode_all(s.subrange(0, k), dec),
    decreases s.len(),
{
    if k < s.len() {
        assert(s.drop_last().subrange(0, k) =~= s.subrange(0, k));
        lemma_decode_all_prefix(s.drop_last(), dec, k);
    } else {
        assert(s.subrange(0, k) =~= s);
    }
}

/// Elements that each decode to the matching value decode together, in order.
pub proof fn lemma_decode_all_ok<C, V>(s: Seq<C>, v: Seq<V>, dec: spec_fn(C) -> Result<V, CodecError>)
    requires
        s.len() == v.len(),
        forall|i: int| 0 <= i < s.len() ==> dec(#[trigger] s[i]) == Ok::<V, CodecError>(v[i]),
    ensures
        decode_all(s, dec) == Ok::<Seq<V>, CodecError>(v),
    decreases s.len(),
{
    if s.len() > 0 {
        assert forall|i: int| 0 <= i < s.drop_last().len() implies dec(
            #[trigger] s.drop_last()[i],
        ) == Ok::<V, CodecError>(v.drop_last()[i]) by {
            assert(s.drop_last()[i] == s[i]);
        }
        lemma_decode_all_ok(s.drop_last(), v.drop_last(), dec);
        assert(dec(s[s.len() - 1]) == Ok::<V, CodecError>(v[s.len() - 1]));
        assert(v.drop_last().push(v.last()) =~= v);
    } else {
        assert(v =~= Seq::<V>::empty());
    }
}

} // verus!
