//! Arbitrary-precision integers.
//!
//! The numbers are `BigInt` values of the `num-bigint` crate, reached through
//! `fvm_shared::bigint`. Verus sees such a value only through [`value`], the
//! mathematical integer it stands for. Every operation this crate performs on
//! a `BigInt` is one of the thin functions below; each calls the outside
//! operation and its contract says which integer comes back. Those contracts
//! are believed, not proved.

use fvm_shared::bigint::BigInt;
use fvm_shared::bigint::Integer;
use fvm_shared::bigint::Sign;
use fvm_shared::bigint::Zero;
use vstd::arithmetic::power2::pow2;
use vstd::prelude::*;

verus! {

/// `num_bigint::BigInt`, an integer of any size; nothing inside it is read
/// here.
#[verifier::external_type_specification]
#[verifier::external_body]
pub struct ExBigInt(BigInt);

/// The mathematical integer that a `BigInt` holds.
pub uninterp spec fn value(x: BigInt) -> int;

/// Division rounding toward negative infinity, for a non-zero divisor.
pub open spec fn div_floor(a: int, b: int) -> int {
    if b > 0 {
        a / b
    } else {
        (-a) / (-b)
    }
}

/// The larger of two integers.
pub open spec fn max_int(a: int, b: int) -> int {
    if a >= b {
        a
    } else {
        b
    }
}

/// The smaller of two integers.
pub open spec fn min_int(a: int, b: int) -> int {
    if a <= b {
        a
    } else {
        b
    }
}

/// The distance of an integer from zero.
pub open spec fn magnitude_of(v: int) -> nat {
    if v < 0 {
        (-v) as nat
    } else {
        v as nat
    }
}

/// The number that bytes stand for in big-endian order; no bytes stand for
/// zero, and leading zero bytes do not count.
pub open spec fn big_endian(bytes: Seq<u8>) -> nat
    decreases bytes.len(),
{
    if bytes.len() == 0 {
        0
    } else {
        big_endian(bytes.drop_last()) * 256 + bytes.last() as nat
    }
}

/// The bytes of a number in big-endian order, without leading zero bytes;
/// zero is the single byte zero.
pub open spec fn big_endian_bytes(n: nat) -> Seq<u8>
    decreases n,
{
    if n < 256 {
        seq![n as u8]
    } else {
        big_endian_bytes(n / 256).push((n % 256) as u8)
    }
}

/// `BigInt::from` on a `u64`: the result holds the same number.
#[verifier::external_body]
pub(crate) fn from_u64(n: u64) -> (r: BigInt)
    ensures
        value(r) == n,
{
    BigInt::from(n)
}

/// `BigInt::from` on an `i64`: the result holds the same number.
#[verifier::external_body]
pub(crate) fn from_i64(n: i64) -> (r: BigInt)
    ensures
        value(r) == n,
{
    BigInt::from(n)
}

/// `BigInt::clone`: a second value holding the same number.
pub assume_specification[ <BigInt as Clone>::clone ](a: &BigInt) -> (r: BigInt)
    ensures
        value(r) == value(*a),
;

/// `&BigInt + &BigInt`: the exact sum.
#[verifier::external_body]
pub(crate) fn plus(a: &BigInt, b: &BigInt) -> (r: BigInt)
    ensures
        value(r) == value(*a) + value(*b),
{
    a + b
}

/// `&BigInt - &BigInt`: the exact difference.
#[verifier::external_body]
pub(crate) fn minus(a: &BigInt, b: &BigInt) -> (r: BigInt)
    ensures
        value(r) == value(*a) - value(*b),
{
    a - b
}

/// `&BigInt * &BigInt`: the exact product.
#[verifier::external_body]
pub(crate) fn times(a: &BigInt, b: &BigInt) -> (r: BigInt)
    ensures
        value(r) == value(*a) * value(*b),
{
    a * b
}

/// `&BigInt << u8`: the number multiplied by two to the power `bits`,
/// whatever its sign.
#[verifier::external_body]
pub(crate) fn shift_left(a: &BigInt, bits: u8) -> (r: BigInt)
    ensures
        value(r) == value(*a) * pow2(bits as nat),
{
    a << bits
}

/// `&BigInt >> u8`: the number divided by two to the power `bits`, rounded
/// toward negative infinity (the outside crate rounds a negative number
/// down, not toward zero).
#[verifier::external_body]
pub(crate) fn shift_right(a: &BigInt, bits: u8) -> (r: BigInt)
    ensures
        value(r) == value(*a) / (pow2(bits as nat) as int),
{
    a >> bits
}

/// `Integer::div_floor` of `BigInt`: the quotient rounded toward negative
/// infinity. The outside function panics on a zero divisor, which the
/// precondition leaves out.
#[verifier::external_body]
pub(crate) fn floor_div(a: &BigInt, b: &BigInt) -> (r: BigInt)
    requires
        value(*b) != 0,
    ensures
        value(r) == div_floor(value(*a), value(*b)),
{
    a.div_floor(b)
}

/// `BigInt::to_bytes_be`, of which the bytes are kept: the magnitude of the
/// number in big-endian order, without leading zero bytes, and the single
/// byte zero for zero.
#[verifier::external_body]
pub(crate) fn magnitude_bytes(a: &BigInt) -> (r: Vec<u8>)
    ensures
        r@ == big_endian_bytes(magnitude_of(value(*a))),
{
    a.to_bytes_be().1
}

/// `BigInt::from_bytes_be` with a positive sign: the number that the bytes
/// stand for in big-endian order.
#[verifier::external_body]
pub(crate) fn from_magnitude_bytes(bytes: &[u8]) -> (r: BigInt)
    ensures
        value(r) == big_endian(bytes@),
{
    BigInt::from_bytes_be(Sign::Plus, bytes)
}

/// `Zero::is_zero` of `BigInt`: whether the number is zero.
#[verifier::external_body]
pub(crate) fn is_zero(a: &BigInt) -> (r: bool)
    ensures
        r == (value(*a) == 0),
{
    a.is_zero()
}

/// `&BigInt == &BigInt`: whether the two hold the same integer.
#[verifier::external_body]
pub(crate) fn same(a: &BigInt, b: &BigInt) -> (r: bool)
    ensures
        r == (value(*a) == value(*b)),
{
    a == b
}

/// `&BigInt <= &BigInt`: the order of the integers.
#[verifier::external_body]
pub(crate) fn at_most(a: &BigInt, b: &BigInt) -> (r: bool)
    ensures
        r == (value(*a) <= value(*b)),
{
    a <= b
}

/// The larger of two numbers, as a new value.
pub(crate) fn larger(a: &BigInt, b: &BigInt) -> (r: BigInt)
    ensures
        value(r) == max_int(value(*a), value(*b)),
{
    if at_most(a, b) {
        b.clone()
    } else {
        a.clone()
    }
}

/// The smaller of two numbers, as a new value.
pub(crate) fn smaller(a: &BigInt, b: &BigInt) -> (r: BigInt)
    ensures
        value(r) == min_int(value(*a), value(*b)),
{
    if at_most(a, b) {
        a.clone()
    } else {
        b.clone()
    }
}

} // verus!
