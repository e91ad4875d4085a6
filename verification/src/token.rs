//! Token amounts.
//!
//! A `TokenAmount` of `fvm_shared` is a signed count of the smallest currency
//! unit. Verus sees it through [`atto`], the integer it counts.

use crate::bigint::value;
use fvm_shared::bigint::BigInt;
use fvm_shared::econ::TokenAmount;
use vstd::prelude::*;

verus! {

/// `fvm_shared::econ::TokenAmount`, a signed amount of the native token.
#[verifier::external_type_specification]
#[verifier::external_body]
pub struct ExTokenAmount(TokenAmount);

/// The number of smallest units that a token amount holds.
pub uninterp spec fn atto(t: TokenAmount) -> int;

/// `TokenAmount::from_atto`: the amount that counts exactly the given number
/// of smallest units.
#[verifier::external_body]
pub(crate) fn from_atto(units: BigInt) -> (r: TokenAmount)
    ensures
        atto(r) == value(units),
{
    TokenAmount::from_atto(units)
}

/// `TokenAmount::atto`: the count of smallest units, as the outside type
/// stores it.
#[verifier::external_body]
pub(crate) fn atto_of(t: &TokenAmount) -> (r: &BigInt)
    ensures
        value(*r) == atto(*t),
{
    t.atto()
}

} // verus!
