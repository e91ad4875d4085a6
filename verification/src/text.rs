//! Decimal text of integers, as it appears in violation messages.

use crate::bigint::value;
use fvm_shared::bigint::BigInt;
use vstd::prelude::*;
use vstd::string::StringExecFns;

verus! {

/// The character of a decimal digit.
pub open spec fn digit(d: int) -> char {
    seq!['0', '1', '2', '3', '4', '5', '6', '7', '8', '9'][d]
}

/// The decimal digits of a natural number, without leading zeros.
pub open spec fn decimal_nat(n: nat) -> Seq<char>
    decreases n,
{
    if n < 10 {
        seq![digit(n as int)]
    } else {
        decimal_nat(n / 10).push(digit((n % 10) as int))
    }
}

/// The decimal text of an integer: its digits, after a minus sign where it
/// is negative.
pub open spec fn decimal(n: int) -> Seq<char> {
    if n < 0 {
        seq!['-'] + decimal_nat((-n) as nat)
    } else {
        decimal_nat(n as nat)
    }
}

/// `i128::to_string`: the decimal text of the number.
#[verifier::external_body]
pub(crate) fn decimal_of_i128(n: i128) -> (s: String)
    ensures
        s@ == decimal(n as int),
{
    n.to_string()
}

/// `BigInt::to_string`: the decimal text of the number, which the outside
/// crate writes as its digits in base ten after a minus sign where it is
/// negative.
#[verifier::external_body]
pub(crate) fn decimal_of_big(x: &BigInt) -> (s: String)
    ensures
        s@ == decimal(value(*x)),
{
    x.to_string()
}

/// Two texts, one after the other.
pub(crate) fn join2(a: &str, b: &str) -> (s: String)
    ensures
        s@ == a@ + b@,
{
    String::from_str(a).concat(b)
}

/// Three texts, one after the other.
pub(crate) fn join3(a: &str, b: &str, c: &str) -> (s: String)
    ensures
        s@ == a@ + b@ + c@,
{
    let mut s = String::from_str(a);
    s.append(b);
    s.append(c);
    s
}

/// Four texts, one after the other.
pub(crate) fn join4(a: &str, b: &str, c: &str, d: &str) -> (s: String)
    ensures
        s@ == a@ + b@ + c@ + d@,
{
    let mut s = String::from_str(a);
    s.append(b);
    s.append(c);
    s.append(d);
    s
}

} // verus!
