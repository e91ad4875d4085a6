//! Sets of sector numbers.
//!
//! A `BitField` of the `fvm_ipld_bitfield` crate holds a set of bit
//! positions. Verus sees it through [`set_bits`], the positions that are set,
//! in ascending order.

use crate::state::Policy;
use fvm_ipld_bitfield::BitField;
use fvm_shared::sector::SectorNumber;
use vstd::prelude::*;

verus! {

/// `fvm_ipld_bitfield::BitField`, a set of bit positions.
#[verifier::external_type_specification]
#[verifier::external_body]
pub struct ExBitField(BitField);

/// The positions that are set in a bit field, in ascending order.
pub uninterp spec fn set_bits(bf: BitField) -> Seq<u64>;

/// Whether each number of the sequence is smaller than the next.
pub open spec fn ascending(s: Seq<u64>) -> bool {
    forall|i: int, j: int| 0 <= i < j < s.len() ==> s[i] < s[j]
}

/// Whether a position can be held by a bit field: every one but the largest
/// `u64`.
pub open spec fn in_range(bits: Seq<u64>) -> bool {
    forall|i: int| 0 <= i < bits.len() ==> bits[i] != u64::MAX
}

/// `BitField::try_from_bits` on the numbers of a slice: the bit field in
/// which exactly these positions are set, or nothing where one of them is the
/// largest `u64`, which a bit field cannot hold.
#[verifier::external_body]
fn from_bits(bits: &[u64]) -> (r: Option<BitField>)
    ensures
        r is Some <==> in_range(bits@),
        r matches Some(bf) ==> ascending(set_bits(bf)) && set_bits(bf).to_set() == bits@.to_set(),
{
    BitField::try_from_bits(bits.iter().copied()).ok()
}

/// `BitField::bounded_iter`, collected: the positions that are set, in
/// ascending order, or nothing where more than `max` are set.
#[verifier::external_body]
fn bits_up_to(bf: &BitField, max: u64) -> (r: Option<Vec<u64>>)
    ensures
        r is Some <==> set_bits(*bf).len() <= max,
        r matches Some(v) ==> v@ == set_bits(*bf) && ascending(v@),
{
    match bf.bounded_iter(max) {
        Some(iter) => Some(iter.collect()),
        None => None,
    }
}

/// `BitField::get`: whether the position is set.
#[verifier::external_body]
fn has_bit(bf: &BitField, position: u64) -> (r: bool)
    ensures
        r == set_bits(*bf).contains(position),
{
    bf.get(position)
}

/// The bit field in which exactly the given positions are set. No position
/// may be the largest `u64`.
pub fn make_bitfield(bits: &[u64]) -> (bf: BitField)
    requires
        in_range(bits@),
    ensures
        ascending(set_bits(bf)),
        set_bits(bf).to_set() == bits@.to_set(),
{
    match from_bits(bits) {
        Some(bf) => bf,
        None => vstd::pervasive::unreached(),
    }
}

/// Whether a sector is faulty, given the set of the faulty sectors of its
/// partition.
pub fn check_sector_faulty(faults: &BitField, s: SectorNumber) -> (r: bool)
    ensures
        r == set_bits(*faults).contains(s),
{
    has_bit(faults, s)
}

/// The positions that are set, in ascending order, or `None` where more than
/// `max` are set.
pub fn bounded_bits(bf: &BitField, max: u64) -> (r: Option<Vec<u64>>)
    ensures
        r is Some <==> set_bits(*bf).len() <= max,
        r matches Some(v) ==> v@ == set_bits(*bf) && ascending(v@),
{
    bits_up_to(bf, max)
}

/// All positions that are set, in ascending order. The bit field may hold
/// no more positions than one message may address under the default policy.
pub fn bf_all(bf: BitField) -> (v: Vec<u64>)
    requires
        set_bits(bf).len() <= 25_000,
    ensures
        v@ == set_bits(bf),
        ascending(v@),
{
    let policy = Policy::default();
    match bits_up_to(&bf, policy.addressed_sectors_max) {
        Some(v) => v,
        None => vstd::pervasive::unreached(),
    }
}

} // verus!
