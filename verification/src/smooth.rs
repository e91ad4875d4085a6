//! Smoothed estimates.
//!
//! A [`FilterEstimate`] is a snapshot of a smoothed time series: a position
//! and a velocity (the change of the position per epoch), both fixed-point
//! numbers with [`PRECISION`] fractional bits.

use crate::bigint::{from_i64, plus, shift_left, shift_right, times, value};
use fvm_shared::bigint::BigInt;
use fvm_shared::clock::ChainEpoch;
use vstd::arithmetic::power2::pow2;
use vstd::prelude::*;

verus! {

/// The number of fractional bits of positions, velocities and ratio sums.
pub const PRECISION: u64 = 128;

/// A position and a velocity in fixed point, as mathematical integers.
pub ghost struct Estimate {
    pub position: int,
    pub velocity: int,
}

/// The whole part of a fixed-point number with [`PRECISION`] fractional bits,
/// rounded toward negative infinity.
pub open spec fn whole_part(x: int) -> int {
    x / (pow2(PRECISION as nat) as int)
}

/// The position that linear extrapolation reaches `delta` epochs ahead,
/// with twice [`PRECISION`] fractional bits.
pub open spec fn extrapolated(e: Estimate, delta: int) -> int {
    e.velocity * (delta * pow2(PRECISION as nat)) + e.position * pow2(PRECISION as nat)
}

/// A smoothed value and its rate of change at a reference epoch.
#[derive(Clone, Debug)]
pub struct FilterEstimate {
    pub position: BigInt,
    pub velocity: BigInt,
}

impl View for FilterEstimate {
    type V = Estimate;

    open spec fn view(&self) -> Estimate {
        Estimate { position: value(self.position), velocity: value(self.velocity) }
    }
}

impl FilterEstimate {
    /// Builds an estimate from a whole position and a whole velocity.
    pub fn new(position: BigInt, velocity: BigInt) -> (r: FilterEstimate)
        ensures
            r@.position == value(position) * pow2(PRECISION as nat),
            r@.velocity == value(velocity) * pow2(PRECISION as nat),
    {
        FilterEstimate {
            position: shift_left(&position, PRECISION as u8),
            velocity: shift_left(&velocity, PRECISION as u8),
        }
    }

    /// The current value of the series: the whole part of the position.
    pub fn estimate(&self) -> (r: BigInt)
        ensures
            value(r) == whole_part(self@.position),
    {
        shift_right(&self.position, PRECISION as u8)
    }

    /// Extrapolates the position `delta` epochs ahead; the result has twice
    /// [`PRECISION`] fractional bits.
    pub fn extrapolate(&self, delta: ChainEpoch) -> (r: BigInt)
        ensures
            value(r) == extrapolated(self@, delta as int),
    {
        let delta_t = shift_left(&from_i64(delta), PRECISION as u8);
        let position = shift_left(&self.position, PRECISION as u8);
        plus(&times(&self.velocity, &delta_t), &position)
    }
}

} // verus!
