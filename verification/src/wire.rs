//! Big integers in parameter records.
//!
//! In a record a big integer is a byte string in sign-and-magnitude form:
//! no bytes at all for zero, else a sign byte (`0` for a positive number, `1`
//! for a negative one) followed by the magnitude in big-endian order. An
//! amount that is never negative carries the sign byte all the same. A byte
//! string of more than [`MAX_BIGINT_SIZE`] bytes is not accepted in either
//! direction.

use crate::bigint::{
    at_most, big_endian, big_endian_bytes, from_magnitude_bytes, from_u64, is_zero,
    magnitude_bytes, magnitude_of, minus, value,
};
use fvm_shared::bigint::BigInt;
use vstd::prelude::*;

verus! {

/// The largest number of bytes of a big integer in a record, sign byte
/// included.
pub const MAX_BIGINT_SIZE: usize = 128;

/// The bytes that stand for an integer.
pub open spec fn encoding(v: int) -> Seq<u8> {
    if v == 0 {
        Seq::empty()
    } else if v > 0 {
        seq![0u8] + big_endian_bytes(magnitude_of(v))
    } else {
        seq![1u8] + big_endian_bytes(magnitude_of(v))
    }
}

/// Whether bytes stand for an integer: they are empty, or begin with a sign
/// byte and are not too many.
pub open spec fn decodable(bytes: Seq<u8>) -> bool {
    bytes.len() == 0 || ((bytes[0] == 0 || bytes[0] == 1) && bytes.len() <= 128)
}

/// The integer that decodable bytes stand for.
pub open spec fn decoding(bytes: Seq<u8>) -> int {
    if bytes.len() == 0 {
        0
    } else if bytes[0] == 1 {
        -(big_endian(bytes.skip(1)) as int)
    } else {
        big_endian(bytes.skip(1)) as int
    }
}

/// The bytes of a big integer for a record, or `None` where they would be
/// more than [`MAX_BIGINT_SIZE`].
pub fn encode_bigint(x: &BigInt) -> (r: Option<Vec<u8>>)
    ensures
        r is Some <==> encoding(value(*x)).len() <= 128,
        r matches Some(bytes) ==> bytes@ == encoding(value(*x)),
{
    if is_zero(x) {
        return Some(Vec::new());
    }
    let mut out: Vec<u8> = Vec::new();
    if at_most(&from_u64(0), x) {
        out.push(0);
    } else {
        out.push(1);
    }
    let mut magnitude = magnitude_bytes(x);
    out.append(&mut magnitude);
    if out.len() > MAX_BIGINT_SIZE {
        None
    } else {
        Some(out)
    }
}

/// The big integer that the bytes of a record stand for, or `None` where
/// they do not begin with a sign byte or are too many.
pub fn decode_bigint(bytes: &[u8]) -> (r: Option<BigInt>)
    ensures
        r is Some <==> decodable(bytes@),
        r matches Some(x) ==> value(x) == decoding(bytes@),
{
    if bytes.len() == 0 {
        return Some(from_u64(0));
    }
    let sign_byte = bytes[0];
    if sign_byte != 0 && sign_byte != 1 {
        return None;
    }
    if bytes.len() > MAX_BIGINT_SIZE {
        return None;
    }
    let (_, tail) = bytes.split_at(1);
    let magnitude = from_magnitude_bytes(tail);
    if sign_byte == 1 {
        Some(minus(&from_u64(0), &magnitude))
    } else {
        Some(magnitude)
    }
}

/// The bytes of a number in big-endian order stand for that number.
pub proof fn lemma_big_endian_round_trip(n: nat)
    ensures
        big_endian(big_endian_bytes(n)) == n,
    decreases n,
{
    if n < 256 {
        assert(seq![n as u8].drop_last() =~= Seq::<u8>::empty());
        assert(big_endian(Seq::<u8>::empty()) == 0);
    } else {
        lemma_big_endian_round_trip(n / 256);
        let head = big_endian_bytes(n / 256);
        assert(head.push((n % 256) as u8).drop_last() =~= head);
    }
}

/// Encoding then decoding gives the integer back, whatever its sign: the
/// bytes that stand for an integer are decodable, where they are not too
/// many, and stand for that integer.
pub proof fn lemma_encoding_round_trip(v: int)
    ensures
        encoding(v).len() <= 128 ==> decodable(encoding(v)),
        decoding(encoding(v)) == v,
        encoding(v).len() == 0 <==> v == 0,
{
    if v != 0 {
        let tail = big_endian_bytes(magnitude_of(v));
        lemma_big_endian_round_trip(magnitude_of(v));
        assert(encoding(v).skip(1) =~= tail);
    }
}

} // verus!
