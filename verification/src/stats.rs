//! Network statistics.
//!
//! A flat summary of what the power, reward and market actors record, for
//! the pledge computation and for observers. Nothing is computed: every
//! field of the summary is a field of one of the three states.

use crate::miner::StoragePower;
use crate::smooth::FilterEstimate;
use crate::state::{MarketState, PowerState, RewardState};
use fvm_shared::econ::TokenAmount;
use vstd::prelude::*;

verus! {

/// The totals of the network at one epoch.
#[derive(Debug)]
pub struct NetworkStats {
    pub total_raw_byte_power: StoragePower,
    pub total_bytes_committed: StoragePower,
    pub total_quality_adj_power: StoragePower,
    pub total_qa_bytes_committed: StoragePower,
    pub total_pledge_collateral: TokenAmount,
    pub this_epoch_raw_byte_power: StoragePower,
    pub this_epoch_quality_adj_power: StoragePower,
    pub this_epoch_pledge_collateral: TokenAmount,
    pub miner_count: i64,
    pub miner_above_min_power_count: i64,
    pub this_epoch_reward: TokenAmount,
    pub this_epoch_reward_smoothed: FilterEstimate,
    pub this_epoch_baseline_power: StoragePower,
    pub total_storage_power_reward: TokenAmount,
    pub total_client_locked_collateral: TokenAmount,
    pub total_provider_locked_collateral: TokenAmount,
    pub total_client_storage_fee: TokenAmount,
}

/// The summary that holds, field by field, what the three states record.
pub open spec fn network_stats(
    power_state: PowerState,
    reward_state: RewardState,
    market_state: MarketState,
) -> NetworkStats {
    NetworkStats {
        total_raw_byte_power: power_state.total_raw_byte_power,
        total_bytes_committed: power_state.total_bytes_committed,
        total_quality_adj_power: power_state.total_quality_adj_power,
        total_qa_bytes_committed: power_state.total_qa_bytes_committed,
        total_pledge_collateral: power_state.total_pledge_collateral,
        this_epoch_raw_byte_power: power_state.this_epoch_raw_byte_power,
        this_epoch_quality_adj_power: power_state.this_epoch_quality_adj_power,
        this_epoch_pledge_collateral: power_state.this_epoch_pledge_collateral,
        miner_count: power_state.miner_count,
        miner_above_min_power_count: power_state.miner_above_min_power_count,
        this_epoch_reward: reward_state.this_epoch_reward,
        this_epoch_reward_smoothed: reward_state.this_epoch_reward_smoothed,
        this_epoch_baseline_power: reward_state.this_epoch_baseline_power,
        total_storage_power_reward: reward_state.total_storage_power_reward,
        total_client_locked_collateral: market_state.total_client_locked_collateral,
        total_provider_locked_collateral: market_state.total_provider_locked_collateral,
        total_client_storage_fee: market_state.total_client_storage_fee,
    }
}

/// Flattens the three states into one summary. The states are consumed:
/// their values move into the summary unchanged.
pub fn get_network_stats(
    power_state: PowerState,
    reward_state: RewardState,
    market_state: MarketState,
) -> (stats: NetworkStats)
    ensures
        stats == network_stats(power_state, reward_state, market_state),
{
    NetworkStats {
        total_raw_byte_power: power_state.total_raw_byte_power,
        total_bytes_committed: power_state.total_bytes_committed,
        total_quality_adj_power: power_state.total_quality_adj_power,
        total_qa_bytes_committed: power_state.total_qa_bytes_committed,
        total_pledge_collateral: power_state.total_pledge_collateral,
        this_epoch_raw_byte_power: power_state.this_epoch_raw_byte_power,
        this_epoch_quality_adj_power: power_state.this_epoch_quality_adj_power,
        this_epoch_pledge_collateral: power_state.this_epoch_pledge_collateral,
        miner_count: power_state.miner_count,
        miner_above_min_power_count: power_state.miner_above_min_power_count,
        this_epoch_reward: reward_state.this_epoch_reward,
        this_epoch_reward_smoothed: reward_state.this_epoch_reward_smoothed,
        this_epoch_baseline_power: reward_state.this_epoch_baseline_power,
        total_storage_power_reward: reward_state.total_storage_power_reward,
        total_client_locked_collateral: market_state.total_client_locked_collateral,
        total_provider_locked_collateral: market_state.total_provider_locked_collateral,
        total_client_storage_fee: market_state.total_client_storage_fee,
    }
}

} // verus!
