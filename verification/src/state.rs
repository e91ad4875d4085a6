//! Snapshots of actor state.
//!
//! These types hold, as plain values, what the reports and the statistics of
//! this crate read from the committed state of the power, reward, market and
//! miner actors. A snapshot is never changed by this crate.

use crate::bigint::{from_u64, plus, value};
use crate::miner::StoragePower;
use crate::smooth::FilterEstimate;
use fvm_shared::clock::ChainEpoch;
use fvm_shared::econ::TokenAmount;
use vstd::prelude::*;

verus! {

/// A raw and a quality-adjusted power, as mathematical integers.
pub ghost struct Power {
    pub raw: int,
    pub qa: int,
}

/// A raw byte power together with the quality-adjusted power it stands for.
#[derive(Clone, Debug)]
pub struct PowerPair {
    pub raw: StoragePower,
    pub qa: StoragePower,
}

impl View for PowerPair {
    type V = Power;

    open spec fn view(&self) -> Power {
        Power { raw: value(self.raw), qa: value(self.qa) }
    }
}

impl PowerPair {
    /// The pair of the two given powers.
    pub fn new(raw: StoragePower, qa: StoragePower) -> (p: PowerPair)
        ensures
            p.raw == raw,
            p.qa == qa,
    {
        PowerPair { raw, qa }
    }

    /// The pair of no power at all.
    pub fn zero() -> (p: PowerPair)
        ensures
            p@ == (Power { raw: 0, qa: 0 }),
    {
        PowerPair { raw: from_u64(0), qa: from_u64(0) }
    }

    /// The sum of two pairs, part by part.
    pub fn add(&self, other: &PowerPair) -> (p: PowerPair)
        ensures
            p@ == (Power { raw: self@.raw + other@.raw, qa: self@.qa + other@.qa }),
    {
        PowerPair { raw: plus(&self.raw, &other.raw), qa: plus(&self.qa, &other.qa) }
    }
}

/// The power that the power actor records for one miner.
#[derive(Clone, Debug)]
pub struct Claim {
    pub raw_byte_power: StoragePower,
    pub quality_adj_power: StoragePower,
}

/// What the power actor records: its cached totals and the claims of the
/// miners.
#[derive(Debug)]
pub struct PowerState {
    pub total_raw_byte_power: StoragePower,
    pub total_bytes_committed: StoragePower,
    pub total_quality_adj_power: StoragePower,
    pub total_qa_bytes_committed: StoragePower,
    pub total_pledge_collateral: TokenAmount,
    pub this_epoch_raw_byte_power: StoragePower,
    pub this_epoch_quality_adj_power: StoragePower,
    pub this_epoch_pledge_collateral: TokenAmount,
    pub miner_count: i64,
    pub miner_above_min_power_count: i64,
    pub claims: Vec<Claim>,
}

/// What the reward actor records.
#[derive(Debug)]
pub struct RewardState {
    pub epoch: ChainEpoch,
    pub this_epoch_reward: TokenAmount,
    pub this_epoch_reward_smoothed: FilterEstimate,
    pub this_epoch_baseline_power: StoragePower,
    pub total_storage_power_reward: TokenAmount,
}

/// What the market actor records of locked funds.
#[derive(Debug)]
pub struct MarketState {
    pub total_client_locked_collateral: TokenAmount,
    pub total_provider_locked_collateral: TokenAmount,
    pub total_client_storage_fee: TokenAmount,
}

/// The power of one partition of a deadline.
#[derive(Clone, Debug)]
pub struct Partition {
    pub live_power: PowerPair,
    pub faulty_power: PowerPair,
}

/// One deadline of a miner: its partitions and the faulty power it caches
/// for them.
#[derive(Clone, Debug)]
pub struct Deadline {
    pub faulty_power: PowerPair,
    pub partitions: Vec<Partition>,
}

/// What a miner actor records of its deadlines.
#[derive(Clone, Debug)]
pub struct MinerState {
    pub deadlines: Vec<Deadline>,
}

/// A committed snapshot of the state of all actors: the three singleton
/// actors, every miner, and the token balance of every actor.
#[derive(Debug)]
pub struct StateTree {
    pub power: PowerState,
    pub reward: RewardState,
    pub market: MarketState,
    pub miners: Vec<MinerState>,
    pub balances: Vec<TokenAmount>,
}

/// The configuration of the network that this crate reads.
#[derive(Clone, Copy, Debug)]
pub struct Policy {
    /// The number of deadlines in a proving period of a miner.
    pub wpost_period_deadlines: u64,
    /// The largest number of sectors that one message may address.
    pub addressed_sectors_max: u64,
}

impl Default for Policy {
    fn default() -> (p: Policy)
        ensures
            p.wpost_period_deadlines == 48,
            p.addressed_sectors_max == 25_000,
    {
        Policy { wpost_period_deadlines: 48, addressed_sectors_max: 25_000 }
    }
}

} // verus!
