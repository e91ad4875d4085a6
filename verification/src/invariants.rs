//! The state invariant check.
//!
//! One pass over a [`StateTree`] derives again, from the finer state, the
//! aggregates that the actors cache, and compares what the actors record
//! with what is expected of them. A mismatch never stops the pass: it becomes
//! a message of the report. What a report means is decided by the caller,
//! strictly with [`assert_invariants`] or against expected patterns with
//! [`expect_invariants`].

use crate::bigint::{at_most, from_u64, plus, same, value};
use crate::report::{compile, compiled, expected_by, prefixed, MessageAccumulator};
use crate::state::{
    Claim, Deadline, MarketState, MinerState, Partition, Policy, PowerPair, PowerState,
    RewardState, StateTree,
};
use crate::text::{decimal, decimal_of_big, decimal_of_i128, join2, join3, join4};
use crate::token::{atto, atto_of};
use fvm_shared::bigint::BigInt;
use fvm_shared::clock::ChainEpoch;
use fvm_shared::econ::TokenAmount;
use regex::Regex;
use vstd::prelude::*;

verus! {

/// The pattern of the message that reports a reward state whose epoch does
/// not follow the prior epoch.
pub const REWARD_STATE_EPOCH_MISMATCH: &'static str =
    "^reward state epoch \\d+ does not match prior_epoch\\+1 \\d+$";

/// The sum of the raw byte power of the claims.
pub open spec fn claimed_raw(claims: Seq<Claim>) -> int
    decreases claims.len(),
{
    if claims.len() == 0 {
        0
    } else {
        claimed_raw(claims.drop_last()) + value(claims.last().raw_byte_power)
    }
}

/// The sum of the quality-adjusted power of the claims.
pub open spec fn claimed_qa(claims: Seq<Claim>) -> int
    decreases claims.len(),
{
    if claims.len() == 0 {
        0
    } else {
        claimed_qa(claims.drop_last()) + value(claims.last().quality_adj_power)
    }
}

/// The sum of the faulty raw byte power of the partitions.
pub open spec fn faulty_raw(partitions: Seq<Partition>) -> int
    decreases partitions.len(),
{
    if partitions.len() == 0 {
        0
    } else {
        faulty_raw(partitions.drop_last()) + partitions.last().faulty_power@.raw
    }
}

/// The sum of the faulty quality-adjusted power of the partitions.
pub open spec fn faulty_qa(partitions: Seq<Partition>) -> int
    decreases partitions.len(),
{
    if partitions.len() == 0 {
        0
    } else {
        faulty_qa(partitions.drop_last()) + partitions.last().faulty_power@.qa
    }
}

/// The sum of the balances, in smallest units.
pub open spec fn total_balance(balances: Seq<TokenAmount>) -> int
    decreases balances.len(),
{
    if balances.len() == 0 {
        0
    } else {
        total_balance(balances.drop_last()) + atto(balances.last())
    }
}

/// The text of a message that sets a number that was found against the one
/// that was expected.
pub open spec fn mismatch(lead: Seq<char>, found: int, middle: Seq<char>, expected: int) -> Seq<
    char,
> {
    lead + decimal(found) + middle + decimal(expected)
}

/// No message, where the two numbers agree; else the one message that sets
/// them against each other.
pub open spec fn unless_equal(lead: Seq<char>, found: int, middle: Seq<char>, expected: int) -> Seq<
    Seq<char>,
> {
    if found == expected {
        Seq::empty()
    } else {
        seq![mismatch(lead, found, middle, expected)]
    }
}

/// No message, where the amount is not negative; else the one message that
/// names it.
pub open spec fn unless_negative(lead: Seq<char>, amount: int) -> Seq<Seq<char>> {
    if amount >= 0 {
        Seq::empty()
    } else {
        seq![lead + decimal(amount)]
    }
}

/// What is reported of the reward actor: that its epoch is not the one after
/// the prior epoch.
pub open spec fn reward_violations(reward: RewardState, prior_epoch: int) -> Seq<Seq<char>> {
    unless_equal(
        "reward state epoch "@,
        reward.epoch as int,
        " does not match prior_epoch+1 "@,
        prior_epoch + 1,
    )
}

/// What is reported of the power actor: that a cached total of committed
/// power is not the sum of the claims.
pub open spec fn power_violations(power: PowerState) -> Seq<Seq<char>> {
    unless_equal(
        "sum of raw power in claims "@,
        claimed_raw(power.claims@),
        " does not match recorded bytes committed "@,
        value(power.total_bytes_committed),
    ) + unless_equal(
        "sum of qa power in claims "@,
        claimed_qa(power.claims@),
        " does not match recorded qa power committed "@,
        value(power.total_qa_bytes_committed),
    )
}

/// What is reported of the market actor: each total of locked funds that is
/// negative.
pub open spec fn market_violations(market: MarketState) -> Seq<Seq<char>> {
    unless_negative(
        "negative total client locked collateral: "@,
        atto(market.total_client_locked_collateral),
    ) + unless_negative(
        "negative total provider locked collateral: "@,
        atto(market.total_provider_locked_collateral),
    ) + unless_negative(
        "negative total client storage fee: "@,
        atto(market.total_client_storage_fee),
    )
}

/// The words in front of every message about the deadline at `index`.
pub open spec fn deadline_prefix(index: int) -> Seq<char> {
    "deadline "@ + decimal(index) + " "@
}

/// The words in front of every message about the miner at `index`.
pub open spec fn miner_prefix(index: int) -> Seq<char> {
    "miner "@ + decimal(index) + " "@
}

/// What is reported of one deadline: that the faulty power it caches is not
/// the sum over its partitions.
pub open spec fn deadline_violations(index: int, deadline: Deadline) -> Seq<Seq<char>> {
    prefixed(
        deadline_prefix(index),
        unless_equal(
            "faulty raw power "@,
            deadline.faulty_power@.raw,
            " does not match partitions total "@,
            faulty_raw(deadline.partitions@),
        ) + unless_equal(
            "faulty qa power "@,
            deadline.faulty_power@.qa,
            " does not match partitions total "@,
            faulty_qa(deadline.partitions@),
        ),
    )
}

/// What is reported of a list of deadlines, one after the other.
pub open spec fn deadlines_violations(deadlines: Seq<Deadline>) -> Seq<Seq<char>>
    decreases deadlines.len(),
{
    if deadlines.len() == 0 {
        Seq::empty()
    } else {
        deadlines_violations(deadlines.drop_last()) + deadline_violations(
            deadlines.len() - 1,
            deadlines.last(),
        )
    }
}

/// What is reported of the miner at `index`: a number of deadlines that is
/// not the one of the policy, then what is reported of each deadline.
pub open spec fn miner_violations(index: int, miner: MinerState, policy: Policy) -> Seq<Seq<char>> {
    prefixed(
        miner_prefix(index),
        unless_equal(
            "deadline count "@,
            miner.deadlines@.len() as int,
            " does not match expected "@,
            policy.wpost_period_deadlines as int,
        ) + deadlines_violations(miner.deadlines@),
    )
}

/// What is reported of a list of miners, one after the other.
pub open spec fn miners_violations(miners: Seq<MinerState>, policy: Policy) -> Seq<Seq<char>>
    decreases miners.len(),
{
    if miners.len() == 0 {
        Seq::empty()
    } else {
        miners_violations(miners.drop_last(), policy) + miner_violations(
            miners.len() - 1,
            miners.last(),
            policy,
        )
    }
}

/// What is reported of the balances: that their sum is not the circulating
/// supply.
pub open spec fn balance_violations(balances: Seq<TokenAmount>, circulating_supply: int) -> Seq<
    Seq<char>,
> {
    unless_equal(
        "total token balance is "@,
        total_balance(balances),
        " but expected "@,
        circulating_supply,
    )
}

/// The report of one pass: what is reported of the power actor, the reward
/// actor, the market actor, every miner in turn, and the balances.
pub open spec fn violations(
    state: StateTree,
    policy: Policy,
    circulating_supply: int,
    prior_epoch: int,
) -> Seq<Seq<char>> {
    power_violations(state.power) + reward_violations(state.reward, prior_epoch)
        + market_violations(state.market) + miners_violations(state.miners@, policy)
        + balance_violations(state.balances@, circulating_supply)
}

/// Appends the message that sets the two numbers against each other, unless
/// they agree.
fn require_equal(
    acc: &mut MessageAccumulator,
    lead: &str,
    found: &BigInt,
    middle: &str,
    expected: &BigInt,
)
    ensures
        final(acc)@ == old(acc)@ + unless_equal(
            lead@,
            value(*found),
            middle@,
            value(*expected),
        ),
{
    if !same(found, expected) {
        let found_text = decimal_of_big(found);
        let expected_text = decimal_of_big(expected);
        acc.add(join4(lead, found_text.as_str(), middle, expected_text.as_str()));
    }
}

/// Appends the message that names the amount, if it is negative.
fn require_not_negative(acc: &mut MessageAccumulator, lead: &str, amount: &TokenAmount)
    ensures
        final(acc)@ == old(acc)@ + unless_negative(lead@, atto(*amount)),
{
    let units = atto_of(amount);
    if !at_most(&from_u64(0), units) {
        let text = decimal_of_big(units);
        acc.add(join2(lead, text.as_str()));
    }
}

/// The sums of the raw and the quality-adjusted power of the claims.
fn sum_claims(claims: &Vec<Claim>) -> (total: PowerPair)
    ensures
        total@.raw == claimed_raw(claims@),
        total@.qa == claimed_qa(claims@),
{
    let mut total = PowerPair::zero();
    let mut i: usize = 0;
    while i < claims.len()
        invariant
            0 <= i <= claims.len(),
            total@.raw == claimed_raw(claims@.subrange(0, i as int)),
            total@.qa == claimed_qa(claims@.subrange(0, i as int)),
        decreases claims.len() - i,
    {
        assert(claims@.subrange(0, i + 1).drop_last() =~= claims@.subrange(0, i as int));
        total = PowerPair::new(
            plus(&total.raw, &claims[i].raw_byte_power),
            plus(&total.qa, &claims[i].quality_adj_power),
        );
        i += 1;
    }
    assert(claims@.subrange(0, claims@.len() as int) =~= claims@);
    total
}

/// The sum of the faulty power of the partitions.
fn sum_faulty(partitions: &Vec<Partition>) -> (total: PowerPair)
    ensures
        total@.raw == faulty_raw(partitions@),
        total@.qa == faulty_qa(partitions@),
{
    let mut total = PowerPair::zero();
    let mut i: usize = 0;
    while i < partitions.len()
        invariant
            0 <= i <= partitions.len(),
            total@.raw == faulty_raw(partitions@.subrange(0, i as int)),
            total@.qa == faulty_qa(partitions@.subrange(0, i as int)),
        decreases partitions.len() - i,
    {
        assert(partitions@.subrange(0, i + 1).drop_last() =~= partitions@.subrange(0, i as int));
        total = total.add(&partitions[i].faulty_power);
        i += 1;
    }
    assert(partitions@.subrange(0, partitions@.len() as int) =~= partitions@);
    total
}

/// The sum of the balances, in smallest units.
fn sum_balances(balances: &Vec<TokenAmount>) -> (total: BigInt)
    ensures
        value(total) == total_balance(balances@),
{
    let mut total = from_u64(0);
    let mut i: usize = 0;
    while i < balances.len()
        invariant
            0 <= i <= balances.len(),
            value(total) == total_balance(balances@.subrange(0, i as int)),
        decreases balances.len() - i,
    {
        assert(balances@.subrange(0, i + 1).drop_last() =~= balances@.subrange(0, i as int));
        total = plus(&total, atto_of(&balances[i]));
        i += 1;
    }
    assert(balances@.subrange(0, balances@.len() as int) =~= balances@);
    total
}

/// Checks the cached totals of the power actor against its claims.
pub fn check_power_state(acc: &mut MessageAccumulator, power: &PowerState)
    ensures
        final(acc)@ == old(acc)@ + power_violations(*power),
{
    let claimed = sum_claims(&power.claims);
    require_equal(
        acc,
        "sum of raw power in claims ",
        &claimed.raw,
        " does not match recorded bytes committed ",
        &power.total_bytes_committed,
    );
    require_equal(
        acc,
        "sum of qa power in claims ",
        &claimed.qa,
        " does not match recorded qa power committed ",
        &power.total_qa_bytes_committed,
    );
}

/// Checks that the epoch of the reward actor is the one after the prior
/// epoch.
pub fn check_reward_state(
    acc: &mut MessageAccumulator,
    reward: &RewardState,
    prior_epoch: ChainEpoch,
)
    ensures
        final(acc)@ == old(acc)@ + reward_violations(*reward, prior_epoch as int),
{
    let found: i128 = reward.epoch as i128;
    let expected: i128 = prior_epoch as i128 + 1;
    if found != expected {
        let found_text = decimal_of_i128(found);
        let expected_text = decimal_of_i128(expected);
        acc.add(
            join4(
                "reward state epoch ",
                found_text.as_str(),
                " does not match prior_epoch+1 ",
                expected_text.as_str(),
            ),
        );
    }
}

/// Checks that no total of locked funds of the market actor is negative.
pub fn check_market_state(acc: &mut MessageAccumulator, market: &MarketState)
    ensures
        final(acc)@ == old(acc)@ + market_violations(*market),
{
    require_not_negative(
        acc,
        "negative total client locked collateral: ",
        &market.total_client_locked_collateral,
    );
    require_not_negative(
        acc,
        "negative total provider locked collateral: ",
        &market.total_provider_locked_collateral,
    );
    require_not_negative(
        acc,
        "negative total client storage fee: ",
        &market.total_client_storage_fee,
    );
}

/// Checks the faulty power that a deadline caches against its partitions.
fn check_deadline(acc: &mut MessageAccumulator, index: usize, deadline: &Deadline)
    ensures
        final(acc)@ == old(acc)@ + deadline_violations(index as int, *deadline),
{
    let total = sum_faulty(&deadline.partitions);
    let mut found = MessageAccumulator::new();
    require_equal(
        &mut found,
        "faulty raw power ",
        &deadline.faulty_power.raw,
        " does not match partitions total ",
        &total.raw,
    );
    require_equal(
        &mut found,
        "faulty qa power ",
        &deadline.faulty_power.qa,
        " does not match partitions total ",
        &total.qa,
    );
    let index_text = decimal_of_i128(index as i128);
    let prefix = join3("deadline ", index_text.as_str(), " ");
    acc.add_all_prefixed(prefix.as_str(), &found);
}

/// Checks one miner: the number of its deadlines, then each deadline.
pub fn check_miner_state(
    acc: &mut MessageAccumulator,
    index: usize,
    miner: &MinerState,
    policy: &Policy,
)
    ensures
        final(acc)@ == old(acc)@ + miner_violations(index as int, *miner, *policy),
{
    let mut found = MessageAccumulator::new();
    require_equal(
        &mut found,
        "deadline count ",
        &from_u64(miner.deadlines.len() as u64),
        " does not match expected ",
        &from_u64(policy.wpost_period_deadlines),
    );
    let ghost count_part = found@;
    let mut d: usize = 0;
    while d < miner.deadlines.len()
        invariant
            0 <= d <= miner.deadlines.len(),
            found@ == count_part + deadlines_violations(miner.deadlines@.subrange(0, d as int)),
        decreases miner.deadlines.len() - d,
    {
        check_deadline(&mut found, d, &miner.deadlines[d]);
        assert(miner.deadlines@.subrange(0, d + 1).drop_last() =~= miner.deadlines@.subrange(
            0,
            d as int,
        ));
        d += 1;
    }
    assert(miner.deadlines@.subrange(0, miner.deadlines@.len() as int) =~= miner.deadlines@);
    let index_text = decimal_of_i128(index as i128);
    let prefix = join3("miner ", index_text.as_str(), " ");
    acc.add_all_prefixed(prefix.as_str(), &found);
}

/// Checks the sum of all balances against the circulating supply.
pub fn check_balances(
    acc: &mut MessageAccumulator,
    balances: &Vec<TokenAmount>,
    circulating_supply: &TokenAmount,
)
    ensures
        final(acc)@ == old(acc)@ + balance_violations(balances@, atto(*circulating_supply)),
{
    let total = sum_balances(balances);
    require_equal(
        acc,
        "total token balance is ",
        &total,
        " but expected ",
        atto_of(circulating_supply),
    );
}

/// Runs one pass over the state: every check is made, whatever the others
/// found, and the report holds the violations in the order of the checks.
pub fn check_invariants(
    state: &StateTree,
    policy: &Policy,
    circulating_supply: &TokenAmount,
    prior_epoch: ChainEpoch,
) -> (acc: MessageAccumulator)
    ensures
        acc@ == violations(*state, *policy, atto(*circulating_supply), prior_epoch as int),
{
    let mut acc = MessageAccumulator::new();
    check_power_state(&mut acc, &state.power);
    check_reward_state(&mut acc, &state.reward, prior_epoch);
    check_market_state(&mut acc, &state.market);
    let ghost head = acc@;
    let mut m: usize = 0;
    while m < state.miners.len()
        invariant
            0 <= m <= state.miners.len(),
            acc@ == head + miners_violations(state.miners@.subrange(0, m as int), *policy),
        decreases state.miners.len() - m,
    {
        check_miner_state(&mut acc, m, &state.miners[m], policy);
        assert(state.miners@.subrange(0, m + 1).drop_last() =~= state.miners@.subrange(
            0,
            m as int,
        ));
        m += 1;
    }
    assert(state.miners@.subrange(0, state.miners@.len() as int) =~= state.miners@);
    check_balances(&mut acc, &state.balances, circulating_supply);
    acc
}

/// The strict reading of a pass: `Ok` if and only if nothing was reported,
/// otherwise the report.
pub fn assert_invariants(
    state: &StateTree,
    policy: &Policy,
    circulating_supply: &TokenAmount,
    prior_epoch: ChainEpoch,
) -> (r: Result<(), MessageAccumulator>)
    ensures
        r.is_ok() <==> violations(
            *state,
            *policy,
            atto(*circulating_supply),
            prior_epoch as int,
        ).len() == 0,
        r matches Err(acc) ==> acc@ == violations(
            *state,
            *policy,
            atto(*circulating_supply),
            prior_epoch as int,
        ),
{
    let acc = check_invariants(state, policy, circulating_supply, prior_epoch);
    if acc.is_empty() {
        Ok(())
    } else {
        Err(acc)
    }
}

/// The tolerant reading of a pass: `Ok` if and only if every message is
/// matched by one of the expected patterns and every pattern matches one of
/// the messages, otherwise the report.
pub fn expect_invariants(
    state: &StateTree,
    policy: &Policy,
    circulating_supply: &TokenAmount,
    prior_epoch: ChainEpoch,
    expected_patterns: &[Regex],
) -> (r: Result<(), MessageAccumulator>)
    ensures
        r.is_ok() <==> expected_by(
            violations(*state, *policy, atto(*circulating_supply), prior_epoch as int),
            expected_patterns@,
        ),
        r matches Err(acc) ==> acc@ == violations(
            *state,
            *policy,
            atto(*circulating_supply),
            prior_epoch as int,
        ),
{
    let acc = check_invariants(state, policy, circulating_supply, prior_epoch);
    if acc.matches_expected(expected_patterns) {
        Ok(())
    } else {
        Err(acc)
    }
}

/// Compiles [`REWARD_STATE_EPOCH_MISMATCH`].
pub fn reward_state_epoch_mismatch() -> (r: Option<Regex>)
    ensures
        r == compiled(REWARD_STATE_EPOCH_MISMATCH@),
{
    compile(REWARD_STATE_EPOCH_MISMATCH)
}

/// A reward state whose epoch is not the one after the prior epoch is
/// always reported: the report of the pass holds the message that names both
/// epochs, so the strict reading of the pass fails.
pub proof fn lemma_reward_epoch_mismatch_is_reported(
    state: StateTree,
    policy: Policy,
    circulating_supply: int,
    prior_epoch: int,
)
    requires
        state.reward.epoch != prior_epoch + 1,
    ensures
        violations(state, policy, circulating_supply, prior_epoch).len() > 0,
        violations(state, policy, circulating_supply, prior_epoch).contains(
            mismatch(
                "reward state epoch "@,
                state.reward.epoch as int,
                " does not match prior_epoch+1 "@,
                prior_epoch + 1,
            ),
        ),
{
    let head = power_violations(state.power);
    let all = violations(state, policy, circulating_supply, prior_epoch);
    let msg = mismatch(
        "reward state epoch "@,
        state.reward.epoch as int,
        " does not match prior_epoch+1 "@,
        prior_epoch + 1,
    );
    assert(all[head.len() as int] == msg);
}

/// Where the reward epoch is the only thing amiss, the report is exactly the
/// one message about it.
pub proof fn lemma_reward_epoch_mismatch_alone(
    state: StateTree,
    policy: Policy,
    circulating_supply: int,
    prior_epoch: int,
)
    requires
        state.reward.epoch != prior_epoch + 1,
        power_violations(state.power).len() == 0,
        market_violations(state.market).len() == 0,
        miners_violations(state.miners@, policy).len() == 0,
        balance_violations(state.balances@, circulating_supply).len() == 0,
    ensures
        violations(state, policy, circulating_supply, prior_epoch) == seq![
            mismatch(
                "reward state epoch "@,
                state.reward.epoch as int,
                " does not match prior_epoch+1 "@,
                prior_epoch + 1,
            ),
        ],
{
}

/// The reward actor is reported if and only if its epoch is not the one
/// after the prior epoch.
pub proof fn lemma_reward_report_is_empty_when_epoch_follows(
    reward: RewardState,
    prior_epoch: int,
)
    ensures
        reward_violations(reward, prior_epoch).len() == 0 <==> reward.epoch == prior_epoch + 1,
{
}

} // verus!
