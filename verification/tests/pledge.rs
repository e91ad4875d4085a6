use fvm_shared::bigint::BigInt;
use fvm_shared::econ::TokenAmount;
use power_pledge::miner::{
    checked_initial_pledge_for_power, expected_reward_for_power, expected_reward_for_power_clamped_at_atto_fil,
    initial_pledge_for_power, ratio_sum_is_needed, EPOCHS_IN_DAY, INITIAL_PLEDGE_FACTOR,
    INITIAL_PLEDGE_PROJECTION_PERIOD,
};
use power_pledge::smooth::FilterEstimate;

fn big(n: i128) -> BigInt {
    BigInt::from(n)
}

fn whole(n: i128) -> FilterEstimate {
    FilterEstimate::new(big(n), big(0))
}

fn three_sevenths() -> BigInt {
    (big(3) << 128u32) / big(7)
}

fn seven_billionths() -> BigInt {
    (big(7) << 128u32) / big(1_000_000_000)
}

#[test]
fn expected_reward_scales_the_ratio_sum_by_power() {
    let r = expected_reward_for_power(&whole(5), &whole(100), &big(1000), &three_sevenths());
    assert_eq!(r, TokenAmount::from_atto(428));
}

#[test]
fn expected_reward_is_zero_for_a_negative_projection() {
    let negative = -three_sevenths();
    let r = expected_reward_for_power(&whole(5), &whole(100), &big(1000), &negative);
    assert_eq!(r, TokenAmount::from_atto(0));
}

#[test]
fn expected_reward_without_network_power_is_the_reward_estimate() {
    let reward = FilterEstimate { position: (big(5) << 128u32) + big(12_345), velocity: big(9) };
    let network = FilterEstimate { position: (big(1) << 128u32) - big(1), velocity: big(77) };
    for qa in [0i128, 1, 1000, 1 << 70] {
        for ratio in [big(0), three_sevenths(), -three_sevenths()] {
            let r = expected_reward_for_power(&reward, &network, &big(qa), &ratio);
            assert_eq!(r, TokenAmount::from_atto(5));
        }
    }
}

#[test]
fn expected_reward_without_network_power_may_be_negative() {
    let reward = FilterEstimate { position: -(big(5) << 128u32) + big(1), velocity: big(0) };
    let r = expected_reward_for_power(&reward, &whole(0), &big(10), &big(0));
    assert_eq!(r, TokenAmount::from_atto(-5));
}

#[test]
fn clamped_reward_is_never_below_one_unit() {
    let negative = -three_sevenths();
    let r = expected_reward_for_power_clamped_at_atto_fil(
        &whole(5),
        &whole(100),
        &big(1000),
        &negative,
    );
    assert_eq!(r, TokenAmount::from_atto(1));

    let r = expected_reward_for_power_clamped_at_atto_fil(&whole(5), &whole(100), &big(0), &three_sevenths());
    assert_eq!(r, TokenAmount::from_atto(1));

    let r = expected_reward_for_power_clamped_at_atto_fil(&whole(-3), &whole(0), &big(9), &big(0));
    assert_eq!(r, TokenAmount::from_atto(1));
}

#[test]
fn clamped_reward_keeps_a_positive_projection() {
    let r = expected_reward_for_power_clamped_at_atto_fil(
        &whole(5),
        &whole(100),
        &big(1000),
        &three_sevenths(),
    );
    assert_eq!(r, TokenAmount::from_atto(428));
}

#[test]
fn initial_pledge_adds_the_share_of_the_lock_target() {
    let qa = big(32 << 30);
    let baseline = big(5 * (1i128 << 60));
    let network = whole(10 * (1i128 << 60));
    let supply = TokenAmount::from_atto(big(100_000_000_000_000_000_000));
    let r = initial_pledge_for_power(&qa, &baseline, &whole(5), &network, &supply, &seven_billionths());
    assert_eq!(r, TokenAmount::from_atto(89_406_967_403u64));
}

#[test]
fn initial_pledge_takes_the_baseline_where_it_is_largest() {
    let qa = big(32 << 30);
    let baseline = big(20 * (1i128 << 60));
    let network = whole(10 * (1i128 << 60));
    let supply = TokenAmount::from_atto(big(100_000_000_000_000_000_000));
    let r = initial_pledge_for_power(&qa, &baseline, &whole(5), &network, &supply, &seven_billionths());
    assert_eq!(r, TokenAmount::from_atto(44_703_483_821u64));
}

#[test]
fn initial_pledge_takes_the_sector_power_where_it_is_largest() {
    let supply = TokenAmount::from_atto(1_000_000);
    let r = initial_pledge_for_power(&big(1000), &big(0), &whole(77), &whole(0), &supply, &seven_billionths());
    assert_eq!(r, TokenAmount::from_atto(300_077));
}

#[test]
fn initial_pledge_is_capped_per_byte() {
    let qa = big(32 << 30);
    let baseline = big(5 * (1i128 << 60));
    let network = whole(10 * (1i128 << 60));
    let supply = TokenAmount::from_atto(big(10_000_000_000_000_000_000_000_000_000));
    let r = initial_pledge_for_power(&qa, &baseline, &whole(5), &network, &supply, &seven_billionths());
    assert_eq!(r, TokenAmount::from_atto(999_999_984_306_749_440u64));
    assert_eq!(r, TokenAmount::from_atto(big(29_103_830) * &qa));
}

#[test]
fn initial_pledge_clamps_a_negative_projection_to_one_unit() {
    let qa = big(32 << 30);
    let baseline = big(5 * (1i128 << 60));
    let network = whole(10 * (1i128 << 60));
    let supply = TokenAmount::from_atto(big(100_000_000_000_000_000_000));
    let negative = -seven_billionths();
    let r = initial_pledge_for_power(&qa, &baseline, &whole(5), &network, &supply, &negative);
    assert_eq!(r, TokenAmount::from_atto(89_406_967_164u64));
}

#[test]
fn initial_pledge_never_exceeds_the_cap() {
    let network = whole(1 << 40);
    for qa in [1i128, 2048, 32 << 30, 1 << 50] {
        for supply in [0i128, 1_000_000, 1i128 << 100] {
            let r = initial_pledge_for_power(
                &big(qa),
                &big(1 << 45),
                &whole(1 << 30),
                &network,
                &TokenAmount::from_atto(big(supply)),
                &(big(1) << 150u32),
            );
            assert!(r <= TokenAmount::from_atto(big(29_103_830) * big(qa)));
        }
    }
}

#[test]
fn projection_period_is_twenty_days() {
    assert_eq!(INITIAL_PLEDGE_PROJECTION_PERIOD, 57_600);
    assert_eq!(INITIAL_PLEDGE_PROJECTION_PERIOD, INITIAL_PLEDGE_FACTOR as i64 * EPOCHS_IN_DAY);
}

#[test]
fn ratio_sum_is_needed_unless_the_network_estimate_is_zero() {
    assert!(ratio_sum_is_needed(&whole(1)));
    assert!(ratio_sum_is_needed(&whole(-1)));
    assert!(!ratio_sum_is_needed(&whole(0)));
    let below_one = FilterEstimate { position: (big(1) << 128u32) - big(1), velocity: big(5) };
    assert!(!ratio_sum_is_needed(&below_one));
    let just_below_zero = FilterEstimate { position: big(-1), velocity: big(0) };
    assert!(ratio_sum_is_needed(&just_below_zero));
}

#[test]
fn checked_initial_pledge_needs_some_power() {
    let supply = TokenAmount::from_atto(1_000_000);
    let none = checked_initial_pledge_for_power(
        &big(0),
        &big(0),
        &whole(77),
        &whole(0),
        &supply,
        &seven_billionths(),
    );
    assert_eq!(none, None);
    let none = checked_initial_pledge_for_power(
        &big(-5),
        &big(0),
        &whole(77),
        &whole(-1),
        &supply,
        &seven_billionths(),
    );
    assert_eq!(none, None);
    let some = checked_initial_pledge_for_power(
        &big(1000),
        &big(0),
        &whole(77),
        &whole(0),
        &supply,
        &seven_billionths(),
    );
    assert_eq!(some, Some(TokenAmount::from_atto(300_077)));
}
