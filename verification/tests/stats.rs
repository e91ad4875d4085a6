use fvm_shared::bigint::BigInt;
use fvm_shared::econ::TokenAmount;
use power_pledge::smooth::FilterEstimate;
use power_pledge::state::{Claim, MarketState, PowerPair, PowerState, RewardState};
use power_pledge::stats::get_network_stats;

fn big(n: i128) -> BigInt {
    BigInt::from(n)
}

fn atto(n: i128) -> TokenAmount {
    TokenAmount::from_atto(big(n))
}

#[test]
fn network_stats_select_the_fields() {
    let power = PowerState {
        total_raw_byte_power: big(1),
        total_bytes_committed: big(2),
        total_quality_adj_power: big(3),
        total_qa_bytes_committed: big(4),
        total_pledge_collateral: atto(5),
        this_epoch_raw_byte_power: big(6),
        this_epoch_quality_adj_power: big(7),
        this_epoch_pledge_collateral: atto(8),
        miner_count: 9,
        miner_above_min_power_count: 10,
        claims: vec![Claim { raw_byte_power: big(2), quality_adj_power: big(4) }],
    };
    let reward = RewardState {
        epoch: 100,
        this_epoch_reward: atto(11),
        this_epoch_reward_smoothed: FilterEstimate { position: big(12), velocity: big(-13) },
        this_epoch_baseline_power: big(14),
        total_storage_power_reward: atto(15),
    };
    let market = MarketState {
        total_client_locked_collateral: atto(16),
        total_provider_locked_collateral: atto(17),
        total_client_storage_fee: atto(18),
    };
    let stats = get_network_stats(power, reward, market);
    assert_eq!(stats.total_raw_byte_power, big(1));
    assert_eq!(stats.total_bytes_committed, big(2));
    assert_eq!(stats.total_quality_adj_power, big(3));
    assert_eq!(stats.total_qa_bytes_committed, big(4));
    assert_eq!(stats.total_pledge_collateral, atto(5));
    assert_eq!(stats.this_epoch_raw_byte_power, big(6));
    assert_eq!(stats.this_epoch_quality_adj_power, big(7));
    assert_eq!(stats.this_epoch_pledge_collateral, atto(8));
    assert_eq!(stats.miner_count, 9);
    assert_eq!(stats.miner_above_min_power_count, 10);
    assert_eq!(stats.this_epoch_reward, atto(11));
    assert_eq!(stats.this_epoch_reward_smoothed.position, big(12));
    assert_eq!(stats.this_epoch_reward_smoothed.velocity, big(-13));
    assert_eq!(stats.this_epoch_baseline_power, big(14));
    assert_eq!(stats.total_storage_power_reward, atto(15));
    assert_eq!(stats.total_client_locked_collateral, atto(16));
    assert_eq!(stats.total_provider_locked_collateral, atto(17));
    assert_eq!(stats.total_client_storage_fee, atto(18));
}

#[test]
fn power_pairs_add_part_by_part() {
    let zero = PowerPair::zero();
    assert_eq!(zero.raw, big(0));
    assert_eq!(zero.qa, big(0));
    let sum = PowerPair::new(big(3), big(-4)).add(&PowerPair::new(big(10), big(20)));
    assert_eq!(sum.raw, big(13));
    assert_eq!(sum.qa, big(16));
}
