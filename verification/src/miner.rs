//! Sector quality, quality-adjusted power, expected reward and initial pledge.
//!
//! Every function here is a pure computation on arbitrary-precision integers.
//! The order of the integer operations (multiply before divide, where each
//! quotient is rounded down) is part of the result and is fixed by the spec
//! functions below.

use crate::bigint::{
    at_most, div_floor, floor_div, from_i64, from_u64, is_zero, larger, max_int, min_int, minus,
    plus, shift_left, shift_right, smaller, times, value,
};
use crate::smooth::{whole_part, Estimate, FilterEstimate, PRECISION};
use crate::token::{atto, atto_of, from_atto};
use fvm_ipld_encoding::BytesDe;
use fvm_shared::address::Address;
use fvm_shared::bigint::BigInt;
use fvm_shared::clock::ChainEpoch;
use fvm_shared::econ::TokenAmount;
use fvm_shared::sector::{RegisteredPoStProof, SectorNumber, SectorSize};
use vstd::arithmetic::div_mod::{lemma_div_is_ordered, lemma_div_multiples_vanish};
use vstd::arithmetic::power2::{lemma2_to64, pow2};
use vstd::prelude::*;

verus! {

/// `fvm_shared::sector::SectorSize`, with its five variants.
#[verifier::external_type_specification]
pub struct ExSectorSize(SectorSize);

/// `fvm_shared::sector::RegisteredPoStProof`, carried through in records.
#[verifier::external_type_specification]
#[verifier::external_body]
pub struct ExRegisteredPoStProof(RegisteredPoStProof);

/// `fvm_ipld_encoding::BytesDe`, a byte string carried through in records.
#[verifier::external_type_specification]
#[verifier::external_body]
pub struct ExBytesDe(BytesDe);

/// Spacetime occupied by deals in a sector, in byte-epochs.
pub type DealWeight = BigInt;

/// Storage power, in bytes.
pub type StoragePower = BigInt;

/// Quality multiplier for committed capacity (no deals) in a sector.
pub const QUALITY_BASE_MULTIPLIER: u64 = 10;

/// Quality multiplier for unverified deals in a sector.
pub const DEAL_WEIGHT_MULTIPLIER: u64 = 10;

/// Quality multiplier for verified deals in a sector.
pub const VERIFIED_DEAL_WEIGHT_MULTIPLIER: u64 = 100;

/// Number of fractional bits of a sector quality.
pub const SECTOR_QUALITY_PRECISION: i64 = 20;

/// Number of epochs in a day.
pub const EPOCHS_IN_DAY: i64 = 2880;

/// Projection period of expected sector block rewards, in days, for the
/// storage pledge required to commit a sector.
pub const INITIAL_PLEDGE_FACTOR: u64 = 20;

/// The same projection period in epochs.
pub const INITIAL_PLEDGE_PROJECTION_PERIOD: i64 = 57600;

/// Numerator of the share of the circulating supply that pledges target.
pub const LOCK_TARGET_FACTOR_NUM: u32 = 3;

/// Denominator of the share of the circulating supply that pledges target.
pub const LOCK_TARGET_FACTOR_DENOM: u32 = 10;

/// Smallest units in one whole token.
pub const ATTO_PER_TOKEN: u64 = 1_000_000_000_000_000_000;

/// Number of bytes for which the pledge cap is one whole token.
pub const PLEDGE_CAP_BYTES_PER_TOKEN: u64 = 34_359_738_368;

/// Method number of the confirmation of sector proofs.
pub const CONFIRM_SECTOR_PROOFS_VALID_METHOD: u64 = 17;

/// Method number of the deferred cron event.
pub const ON_DEFERRED_CRON_EVENT_METHOD: u64 = 12;

/// Method number of the locking of a deposit for the creation of a miner:
/// the method hash of the name `LockCreateMinerDeposit`.
pub const LOCK_CREATE_MINER_DESPOIT_METHOD: u64 = 4_178_206_432;

/// Parameters of the confirmation of sector proofs.
pub struct ConfirmSectorProofsParams {
    pub sectors: Vec<SectorNumber>,
    pub reward_smoothed: FilterEstimate,
    pub reward_baseline_power: StoragePower,
    pub quality_adj_power_smoothed: FilterEstimate,
}

/// Parameters of the construction of a miner actor. The peer id and each
/// multi-address are raw byte strings.
pub struct MinerConstructorParams {
    pub owner: Address,
    pub worker: Address,
    pub control_addresses: Vec<Address>,
    pub window_post_proof_type: RegisteredPoStProof,
    pub peer_id: Vec<u8>,
    pub multi_addresses: Vec<BytesDe>,
}

/// Network inputs to the calculation of sector pledge and associated
/// parameters.
pub struct MinerNetworkPledgeInputs {
    pub network_qap: FilterEstimate,
    pub network_baseline: StoragePower,
    pub circulating_supply: TokenAmount,
    pub epoch_reward: FilterEstimate,
}

/// Parameters of the deferred cron event.
pub struct DeferredCronEventParams {
    pub event_payload: Vec<u8>,
    pub reward_smoothed: FilterEstimate,
    pub quality_adj_power_smoothed: FilterEstimate,
}

/// Parameters of the locking of a deposit for the creation of a miner.
pub struct LockCreateMinerDepositParams {
    pub amount: TokenAmount,
}

/// The number of bytes of a sector size.
pub open spec fn sector_bytes(size: SectorSize) -> int {
    match size {
        SectorSize::_2KiB => 2048,
        SectorSize::_8MiB => 8_388_608,
        SectorSize::_512MiB => 536_870_912,
        SectorSize::_32GiB => 34_359_738_368,
        SectorSize::_64GiB => 68_719_476_736,
    }
}

/// The quality of a sector as a fixed-point number with 20 fractional bits:
/// the three multipliers weighted by the spacetime each kind of content
/// occupies, over the base multiplier.
pub open spec fn quality(size: int, duration: int, deal_weight: int, verified_weight: int) -> int {
    let sector_space_time = size * duration;
    let total_deal_space_time = deal_weight + verified_weight;
    let weighted_sum = (sector_space_time - total_deal_space_time) * QUALITY_BASE_MULTIPLIER
        + deal_weight * DEAL_WEIGHT_MULTIPLIER + verified_weight
        * VERIFIED_DEAL_WEIGHT_MULTIPLIER;
    div_floor(
        div_floor(weighted_sum * pow2(SECTOR_QUALITY_PRECISION as nat), sector_space_time),
        QUALITY_BASE_MULTIPLIER as int,
    )
}

/// The quality-adjusted power of a sector: its size in bytes times its
/// quality, with the fraction cut off.
pub open spec fn qa_power(size: int, duration: int, deal_weight: int, verified_weight: int) -> int {
    (size * quality(size, duration, deal_weight, verified_weight)) / (pow2(
        SECTOR_QUALITY_PRECISION as nat,
    ) as int)
}

/// The reward a sector of power `qa_sector_power` is expected to earn over a
/// projection period, where `ratio_sum` is the sum over that period of the
/// ratio of the reward estimate to the network power estimate, with 128
/// fractional bits. With a network power estimate of zero it is the current
/// reward estimate.
pub open spec fn expected_reward(
    reward: Estimate,
    network_qa_power: Estimate,
    qa_sector_power: int,
    ratio_sum: int,
) -> int {
    if whole_part(network_qa_power.position) == 0 {
        whole_part(reward.position)
    } else {
        max_int(whole_part(qa_sector_power * ratio_sum), 0)
    }
}

/// The expected reward, with any value that is not positive replaced by one
/// smallest unit.
pub open spec fn expected_reward_clamped(
    reward: Estimate,
    network_qa_power: Estimate,
    qa_sector_power: int,
    ratio_sum: int,
) -> int {
    let br = expected_reward(reward, network_qa_power, qa_sector_power, ratio_sum);
    if br <= 0 {
        1
    } else {
        br
    }
}

/// The pledge cap per byte: one whole token per 32 GiB, rounded down.
pub open spec fn initial_pledge_max_per_byte() -> int {
    ATTO_PER_TOKEN as int / PLEDGE_CAP_BYTES_PER_TOKEN as int
}

/// The hard ceiling of the initial pledge for `qa_power` bytes.
pub open spec fn pledge_cap(qa_power: int) -> int {
    initial_pledge_max_per_byte() * qa_power
}

/// The power over which a sector's share of the network is taken: the largest
/// of the network power estimate, the baseline power and the sector's own.
pub open spec fn pledge_share_denominator(
    qa_power: int,
    baseline_power: int,
    network_qa_power: Estimate,
) -> int {
    max_int(max_int(whole_part(network_qa_power.position), baseline_power), qa_power)
}

/// The initial pledge for committing `qa_power`: the clamped expected reward
/// plus the sector's share of three tenths of the circulating supply, capped
/// by [`pledge_cap`].
pub open spec fn initial_pledge(
    qa_power: int,
    baseline_power: int,
    reward: Estimate,
    network_qa_power: Estimate,
    circulating_supply: int,
    ratio_sum: int,
) -> int {
    let ip_base = expected_reward_clamped(reward, network_qa_power, qa_power, ratio_sum);
    let lock_target_num = circulating_supply * LOCK_TARGET_FACTOR_NUM;
    let share_denom = pledge_share_denominator(qa_power, baseline_power, network_qa_power);
    let additional_ip = div_floor(
        lock_target_num * qa_power,
        share_denom * LOCK_TARGET_FACTOR_DENOM,
    );
    min_int(ip_base + additional_ip, pledge_cap(qa_power))
}

/// `SectorSize as u64`: the number of bytes that the variant stands for.
#[verifier::external_body]
fn bytes_of(size: SectorSize) -> (r: u64)
    ensures
        r == sector_bytes(size),
{
    size as u64
}

/// Returns the quality of a sector of the given size and lifetime that holds
/// the given deal weights.
pub fn quality_for_weight(
    size: SectorSize,
    duration: ChainEpoch,
    deal_weight: &DealWeight,
    verified_weight: &DealWeight,
) -> (q: BigInt)
    requires
        duration != 0,
    ensures
        value(q) == quality(
            sector_bytes(size),
            duration as int,
            value(*deal_weight),
            value(*verified_weight),
        ),
{
    let sector_space_time = times(&from_u64(bytes_of(size)), &from_i64(duration));
    let total_deal_space_time = plus(deal_weight, verified_weight);
    let base_multiplier = from_u64(QUALITY_BASE_MULTIPLIER);

    let weighted_base_space_time = times(
        &minus(&sector_space_time, &total_deal_space_time),
        &base_multiplier,
    );
    let weighted_deal_space_time = times(deal_weight, &from_u64(DEAL_WEIGHT_MULTIPLIER));
    let weighted_verified_space_time = times(
        verified_weight,
        &from_u64(VERIFIED_DEAL_WEIGHT_MULTIPLIER),
    );
    let weighted_sum_space_time = plus(
        &plus(&weighted_base_space_time, &weighted_deal_space_time),
        &weighted_verified_space_time,
    );
    let scaled_up_weighted_sum_space_time = shift_left(
        &weighted_sum_space_time,
        SECTOR_QUALITY_PRECISION as u8,
    );

    proof {
        lemma_product_not_zero(sector_bytes(size), duration as int);
    }
    floor_div(&floor_div(&scaled_up_weighted_sum_space_time, &sector_space_time), &base_multiplier)
}

/// Returns the quality-adjusted power of a sector of the given size and
/// lifetime that holds the given deal weights.
pub fn qa_power_for_weight(
    size: SectorSize,
    duration: ChainEpoch,
    deal_weight: &DealWeight,
    verified_weight: &DealWeight,
) -> (p: StoragePower)
    requires
        duration != 0,
    ensures
        value(p) == qa_power(
            sector_bytes(size),
            duration as int,
            value(*deal_weight),
            value(*verified_weight),
        ),
{
    let quality = quality_for_weight(size, duration, deal_weight, verified_weight);
    shift_right(&times(&from_u64(bytes_of(size)), &quality), SECTOR_QUALITY_PRECISION as u8)
}

/// Whether the projection of a reward reads the sum of the reward-to-power
/// ratio: it does unless the current network power estimate is zero. Where
/// it does not, the sum need not be computed.
pub fn ratio_sum_is_needed(network_qa_power_estimate: &FilterEstimate) -> (r: bool)
    ensures
        r == (whole_part(network_qa_power_estimate@.position) != 0),
{
    !is_zero(&network_qa_power_estimate.estimate())
}

/// The projected block reward a sector would earn over a projection period.
///
/// `ratio_sum` is the sum, over the epochs of that period, of the ratio of
/// the reward estimate to the network power estimate, as a fixed-point
/// number with 128 fractional bits. It is not read when the network power
/// estimate is zero.
pub fn expected_reward_for_power(
    reward_estimate: &FilterEstimate,
    network_qa_power_estimate: &FilterEstimate,
    qa_sector_power: &StoragePower,
    ratio_sum: &BigInt,
) -> (r: TokenAmount)
    ensures
        atto(r) == expected_reward(
            reward_estimate@,
            network_qa_power_estimate@,
            value(*qa_sector_power),
            value(*ratio_sum),
        ),
{
    let network_qa_power_smoothed = network_qa_power_estimate.estimate();

    if is_zero(&network_qa_power_smoothed) {
        return from_atto(reward_estimate.estimate());
    }
    let br128 = times(qa_sector_power, ratio_sum);
    from_atto(larger(&shift_right(&br128, PRECISION as u8), &from_u64(0)))
}

/// The projected block reward, with a value that is not positive replaced by
/// one smallest unit: some uses need a strictly positive reward.
pub fn expected_reward_for_power_clamped_at_atto_fil(
    reward_estimate: &FilterEstimate,
    network_qa_power_estimate: &FilterEstimate,
    qa_sector_power: &StoragePower,
    ratio_sum: &BigInt,
) -> (r: TokenAmount)
    ensures
        atto(r) == expected_reward_clamped(
            reward_estimate@,
            network_qa_power_estimate@,
            value(*qa_sector_power),
            value(*ratio_sum),
        ),
        atto(r) >= 1,
{
    let br = expected_reward_for_power(
        reward_estimate,
        network_qa_power_estimate,
        qa_sector_power,
        ratio_sum,
    );
    if at_most(atto_of(&br), &from_u64(0)) {
        from_atto(from_u64(1))
    } else {
        br
    }
}

/// The pledge cap per byte, computed as the outside arithmetic rounds it.
fn pledge_max_per_byte() -> (r: BigInt)
    ensures
        value(r) == initial_pledge_max_per_byte(),
{
    floor_div(&from_u64(ATTO_PER_TOKEN), &from_u64(PLEDGE_CAP_BYTES_PER_TOKEN))
}

/// Computes the pledge requirement for committing new quality-adjusted power
/// to the network, given the current network total and baseline power, the
/// per-epoch reward and the circulating token supply.
///
/// `ratio_sum` is the sum of the ratio of the reward estimate to the network
/// power estimate over [`INITIAL_PLEDGE_PROJECTION_PERIOD`] epochs, with 128
/// fractional bits. The three powers must not all be zero.
pub fn initial_pledge_for_power(
    qa_power: &StoragePower,
    baseline_power: &StoragePower,
    reward_estimate: &FilterEstimate,
    network_qa_power_estimate: &FilterEstimate,
    circulating_supply: &TokenAmount,
    ratio_sum: &BigInt,
) -> (r: TokenAmount)
    requires
        pledge_share_denominator(
            value(*qa_power),
            value(*baseline_power),
            network_qa_power_estimate@,
        ) != 0,
    ensures
        atto(r) == initial_pledge(
            value(*qa_power),
            value(*baseline_power),
            reward_estimate@,
            network_qa_power_estimate@,
            atto(*circulating_supply),
            value(*ratio_sum),
        ),
        atto(r) <= pledge_cap(value(*qa_power)),
{
    let ip_base = expected_reward_for_power_clamped_at_atto_fil(
        reward_estimate,
        network_qa_power_estimate,
        qa_power,
        ratio_sum,
    );

    let lock_target_num = times(
        atto_of(circulating_supply),
        &from_u64(LOCK_TARGET_FACTOR_NUM as u64),
    );
    let lock_target_denom = from_u64(LOCK_TARGET_FACTOR_DENOM as u64);
    let network_qa_power = network_qa_power_estimate.estimate();
    let pledge_share_denom = larger(&larger(&network_qa_power, baseline_power), qa_power);
    let additional_ip_num = times(&lock_target_num, qa_power);
    let additional_ip_denom = times(&pledge_share_denom, &lock_target_denom);
    proof {
        lemma_product_not_zero(value(pledge_share_denom), LOCK_TARGET_FACTOR_DENOM as int);
    }
    let additional_ip = floor_div(&additional_ip_num, &additional_ip_denom);

    let nominal_pledge = plus(atto_of(&ip_base), &additional_ip);
    let pledge_cap = times(&pledge_max_per_byte(), qa_power);

    from_atto(smaller(&nominal_pledge, &pledge_cap))
}

/// The initial pledge, or `None` where the network power estimate, the
/// baseline power and the committed power leave nothing to take the share
/// of: where the largest of the three is zero.
pub fn checked_initial_pledge_for_power(
    qa_power: &StoragePower,
    baseline_power: &StoragePower,
    reward_estimate: &FilterEstimate,
    network_qa_power_estimate: &FilterEstimate,
    circulating_supply: &TokenAmount,
    ratio_sum: &BigInt,
) -> (r: Option<TokenAmount>)
    ensures
        r is Some <==> pledge_share_denominator(
            value(*qa_power),
            value(*baseline_power),
            network_qa_power_estimate@,
        ) != 0,
        r matches Some(pledge) ==> atto(pledge) == initial_pledge(
            value(*qa_power),
            value(*baseline_power),
            reward_estimate@,
            network_qa_power_estimate@,
            atto(*circulating_supply),
            value(*ratio_sum),
        ),
{
    let network_qa_power = network_qa_power_estimate.estimate();
    let pledge_share_denom = larger(&larger(&network_qa_power, baseline_power), qa_power);
    if is_zero(&pledge_share_denom) {
        None
    } else {
        Some(
            initial_pledge_for_power(
                qa_power,
                baseline_power,
                reward_estimate,
                network_qa_power_estimate,
                circulating_supply,
                ratio_sum,
            ),
        )
    }
}

/// A sector that holds no deals has quality exactly one (`1 << 20` in fixed
/// point) whatever its size and lifetime, and its quality-adjusted power is
/// its size in bytes.
pub proof fn lemma_empty_sector_has_unit_quality(size: SectorSize, duration: ChainEpoch)
    requires
        duration != 0,
    ensures
        quality(sector_bytes(size), duration as int, 0, 0) == 1_048_576,
        quality(sector_bytes(size), duration as int, 0, 0) == pow2(20),
        qa_power(sector_bytes(size), duration as int, 0, 0) == sector_bytes(size),
{
    let bytes = sector_bytes(size);
    let space_time = bytes * (duration as int);
    lemma_product_not_zero(bytes, duration as int);
    lemma2_to64();
    lemma_scaled_quotient(space_time, 10_485_760);
    assert((space_time * 10) * pow2(20) == space_time * (10 * 1_048_576)) by (nonlinear_arith)
        requires
            pow2(20) == 1_048_576,
    ;
    lemma_div_multiples_vanish(bytes, 1_048_576);
    assert(bytes * 1_048_576 == 1_048_576 * bytes) by (nonlinear_arith);
}

/// A sector whose whole spacetime is occupied by verified deals has quality
/// exactly ten (`10 << 20` in fixed point).
pub proof fn lemma_verified_sector_has_tenfold_quality(
    size: SectorSize,
    duration: ChainEpoch,
    verified_weight: int,
)
    requires
        duration != 0,
        verified_weight == sector_bytes(size) * duration,
    ensures
        quality(sector_bytes(size), duration as int, 0, verified_weight) == 10_485_760,
        quality(sector_bytes(size), duration as int, 0, verified_weight) == 10 * pow2(20),
{
    let bytes = sector_bytes(size);
    let space_time = bytes * (duration as int);
    lemma_product_not_zero(bytes, duration as int);
    lemma2_to64();
    lemma_scaled_quotient(space_time, 104_857_600);
    assert((space_time * 100) * pow2(20) == space_time * (100 * 1_048_576)) by (nonlinear_arith)
        requires
            pow2(20) == 1_048_576,
    ;
}

/// Ordinary deals weigh as much as committed capacity: a sector without
/// verified deals has quality exactly one, however much of it ordinary deals
/// occupy.
pub proof fn lemma_ordinary_deals_keep_unit_quality(
    size: SectorSize,
    duration: ChainEpoch,
    deal_weight: int,
)
    requires
        duration != 0,
    ensures
        quality(sector_bytes(size), duration as int, deal_weight, 0) == 1_048_576,
{
    let bytes = sector_bytes(size);
    let space_time = bytes * (duration as int);
    lemma_product_not_zero(bytes, duration as int);
    lemma2_to64();
    lemma_scaled_quotient(space_time, 10_485_760);
    assert((space_time * 10) * pow2(20) == space_time * 10_485_760) by (nonlinear_arith)
        requires
            pow2(20) == 1_048_576,
    ;
}

/// The quality of a sector lies between one and ten, and its
/// quality-adjusted power between its size and ten times its size, where the
/// deal weights are not negative and together do not exceed the spacetime of
/// the sector.
pub proof fn lemma_quality_is_between_one_and_ten(
    size: SectorSize,
    duration: ChainEpoch,
    deal_weight: int,
    verified_weight: int,
)
    requires
        duration > 0,
        0 <= deal_weight,
        0 <= verified_weight,
        deal_weight + verified_weight <= sector_bytes(size) * duration,
    ensures
        1_048_576 <= quality(sector_bytes(size), duration as int, deal_weight, verified_weight)
            <= 10_485_760,
        sector_bytes(size) <= qa_power(
            sector_bytes(size),
            duration as int,
            deal_weight,
            verified_weight,
        ) <= 10 * sector_bytes(size),
{
    let bytes = sector_bytes(size);
    let space_time = bytes * (duration as int);
    assert(space_time > 0) by (nonlinear_arith)
        requires
            bytes > 0,
            duration > 0,
            space_time == bytes * (duration as int),
    ;
    lemma2_to64();
    let weighted = (space_time - (deal_weight + verified_weight)) * 10 + deal_weight * 10
        + verified_weight * 100;
    let scaled = weighted * pow2(20);
    assert(space_time * 10_485_760 <= scaled <= space_time * 104_857_600) by (nonlinear_arith)
        requires
            scaled == weighted * pow2(20),
            pow2(20) == 1_048_576,
            space_time * 10 <= weighted <= space_time * 100,
    ;
    lemma_scaled_quotient(space_time, 10_485_760);
    lemma_scaled_quotient(space_time, 104_857_600);
    lemma_div_is_ordered(space_time * 10_485_760, scaled, space_time);
    lemma_div_is_ordered(scaled, space_time * 104_857_600, space_time);
    let q = quality(bytes, duration as int, deal_weight, verified_weight);
    assert(bytes * 1_048_576 <= bytes * q <= bytes * 10_485_760) by (nonlinear_arith)
        requires
            bytes > 0,
            1_048_576 <= q <= 10_485_760,
    ;
    lemma_div_multiples_vanish(bytes, 1_048_576);
    lemma_div_multiples_vanish(10 * bytes, 1_048_576);
    assert(bytes * 1_048_576 == 1_048_576 * bytes) by (nonlinear_arith);
    assert(bytes * 10_485_760 == 1_048_576 * (10 * bytes)) by (nonlinear_arith);
    lemma_div_is_ordered(bytes * 1_048_576, bytes * q, 1_048_576);
    lemma_div_is_ordered(bytes * q, bytes * 10_485_760, 1_048_576);
}

/// The clamped expected reward is at least one smallest unit for every
/// input, also where the projection itself is zero or negative.
pub proof fn lemma_clamped_reward_is_positive(
    reward: Estimate,
    network_qa_power: Estimate,
    qa_sector_power: int,
    ratio_sum: int,
)
    ensures
        expected_reward_clamped(reward, network_qa_power, qa_sector_power, ratio_sum) >= 1,
{
}

/// The initial pledge never exceeds the pledge cap for the committed power,
/// whatever the reward, supply and power inputs are.
pub proof fn lemma_initial_pledge_is_capped(
    qa_power: int,
    baseline_power: int,
    reward: Estimate,
    network_qa_power: Estimate,
    circulating_supply: int,
    ratio_sum: int,
)
    ensures
        initial_pledge(
            qa_power,
            baseline_power,
            reward,
            network_qa_power,
            circulating_supply,
            ratio_sum,
        ) <= pledge_cap(qa_power),
        pledge_cap(qa_power) == 29_103_830 * qa_power,
{
}

/// With a network power estimate of zero the expected reward is exactly the
/// current value of the reward estimate, whatever the sector's power and the
/// projection are.
pub proof fn lemma_reward_without_network_power(
    reward: Estimate,
    network_qa_power: Estimate,
    qa_sector_power: int,
    ratio_sum: int,
)
    requires
        whole_part(network_qa_power.position) == 0,
    ensures
        expected_reward(reward, network_qa_power, qa_sector_power, ratio_sum) == whole_part(
            reward.position,
        ),
{
}

/// Where the sum of the reward-to-power ratio is not needed, neither the
/// expected reward nor the initial pledge depends on it.
pub proof fn lemma_unneeded_ratio_sum_is_not_read(
    qa_power: int,
    baseline_power: int,
    reward: Estimate,
    network_qa_power: Estimate,
    circulating_supply: int,
    ratio_sum: int,
    other_ratio_sum: int,
)
    requires
        whole_part(network_qa_power.position) == 0,
    ensures
        expected_reward(reward, network_qa_power, qa_power, ratio_sum) == expected_reward(
            reward,
            network_qa_power,
            qa_power,
            other_ratio_sum,
        ),
        initial_pledge(
            qa_power,
            baseline_power,
            reward,
            network_qa_power,
            circulating_supply,
            ratio_sum,
        ) == initial_pledge(
            qa_power,
            baseline_power,
            reward,
            network_qa_power,
            circulating_supply,
            other_ratio_sum,
        ),
{
}

/// The projection period is the pledge factor in days.
pub proof fn lemma_projection_period_in_days()
    ensures
        INITIAL_PLEDGE_PROJECTION_PERIOD == INITIAL_PLEDGE_FACTOR * EPOCHS_IN_DAY,
{
}

/// Dividing a multiple of a non-zero number by that number, rounding down,
/// gives the factor back.
proof fn lemma_scaled_quotient(d: int, k: int)
    requires
        d != 0,
    ensures
        div_floor(d * k, d) == k,
{
    if d > 0 {
        lemma_div_multiples_vanish(k, d);
    } else {
        assert(-(d * k) == (-d) * k) by (nonlinear_arith);
        lemma_div_multiples_vanish(k, -d);
    }
}

/// A product of two non-zero integers is not zero.
proof fn lemma_product_not_zero(a: int, b: int)
    requires
        a != 0,
        b != 0,
    ensures
        a * b != 0,
{
    assert(a * b != 0) by (nonlinear_arith)
        requires
            a != 0,
            b != 0,
    ;
}

} // verus!
