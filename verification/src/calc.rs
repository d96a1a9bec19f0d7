//! The accrual engine: reward, penalty, cap, and deposit-split arithmetic.
//!
//! Reward accrues linearly with elapsed seconds against a daily rate; an
//! early claim (within five days of the previous one) is reduced by a
//! basis-point penalty; the result is clamped so a bond's lifetime payout
//! never exceeds the configured cap. All arithmetic is overflow-checked.
use vstd::prelude::*;

use crate::error::TestudoBondsError;
use crate::SECONDS_PER_DAY;
use crate::SHELLS_PER_TESTUDO;

verus! {

/// Seconds between the previous claim and now.
pub open spec fn elapsed_seconds(prev: i64, now: i64) -> int {
    now - prev
}

/// Accrued reward before penalty and cap: `floor(daily * elapsed / 86400)`.
pub open spec fn raw_reward(daily: u64, elapsed: int) -> int {
    (daily * elapsed) / (SECONDS_PER_DAY as int)
}

/// Length in seconds of the early-claim window: five days.
pub open spec fn penalty_window() -> int {
    5 * (SECONDS_PER_DAY as int)
}

/// The penalty applies to claims made within five days of the previous one.
pub open spec fn penalty_applies(elapsed: int) -> bool {
    elapsed < penalty_window()
}

/// Reward after the basis-point penalty:
/// `floor(raw * (10000 - penalty_bp) / 10000)`.
pub open spec fn penalized_reward(raw: int, penalty_bp: u16) -> int {
    raw * (10000 - penalty_bp) / 10000
}

/// What the penalty stage returns: the reward untouched outside the
/// early-claim window; inside it, the penalized reward, or the overflow
/// error when the basis-point subtraction or the multiplication does not
/// fit.
pub open spec fn penalty_outcome(prev: i64, now: i64, penalty_bp: u16, reward: u64) -> Result<
    u64,
    TestudoBondsError,
> {
    if !penalty_applies(elapsed_seconds(prev, now)) {
        Ok(reward)
    } else if penalty_bp > 10000 {
        Err(TestudoBondsError::NumericalOverflow)
    } else if reward * (10000 - penalty_bp) > u64::MAX {
        Err(TestudoBondsError::NumericalOverflow)
    } else {
        Ok(penalized_reward(reward as int, penalty_bp) as u64)
    }
}

/// Clamp a reward so the bond's lifetime payout cannot pass the cap: when
/// `claimed + reward` would exceed `cap`, exactly the remaining gap is paid.
pub open spec fn capped_reward(reward: int, cap: u64, claimed: u64) -> int {
    if claimed + reward > cap {
        cap - claimed
    } else {
        reward
    }
}

/// What a claim's reward computation returns for every allowed input:
/// the no-rewards error when the elapsed time yields a zero accrual (or
/// the accrual multiplication overflows), the penalty stage's error when
/// that stage fails, and otherwise the penalized accrual clamped to the
/// remaining cap.
pub open spec fn reward_outcome(
    prev: i64,
    now: i64,
    daily: u64,
    penalty_bp: u16,
    cap: u64,
    claimed: u64,
) -> Result<u64, TestudoBondsError>
    recommends
        prev <= now,
        claimed <= cap,
{
    let e = elapsed_seconds(prev, now);
    if daily * e > u64::MAX || raw_reward(daily, e) == 0 {
        Err(TestudoBondsError::NoRewardsToClaim)
    } else {
        match penalty_outcome(prev, now, penalty_bp, raw_reward(daily, e) as u64) {
            Err(err) => Err(err),
            Ok(pen) => Ok(capped_reward(pen as int, cap, claimed) as u64),
        }
    }
}

/// Share of `total` owed to one destination weighted by `bp` basis points:
/// `floor(total * bp / 10000)`.
pub open spec fn split_share(total: u64, bp: u16) -> int {
    (total * bp) / 10000
}

/// Elapsed seconds as an unsigned value; the caller guarantees the claim
/// times are ordered.
fn elapsed_seconds_exec(prev: i64, now: i64) -> (e: u64)
    requires
        prev <= now,
    ensures
        e == elapsed_seconds(prev, now),
{
    let d: i128 = now as i128 - prev as i128;
    d as u64
}

/// The penalty stage of a claim.
///
/// Within five days of the previous claim the reward is reduced to
/// `floor(reward * (10000 - claim_penalty) / 10000)`; outside the window it
/// passes through untouched. A penalty above ten thousand basis points, or
/// a product that does not fit, fails with the overflow error.
pub fn calculate_claim_penalty(
    previous_claim_timestamp: &i64,
    current_timestamp: &i64,
    claim_penalty: &u16,
    reward: &u64,
) -> (r: Result<u64, TestudoBondsError>)
    requires
        *previous_claim_timestamp <= *current_timestamp,
    ensures
        r == penalty_outcome(*previous_claim_timestamp, *current_timestamp, *claim_penalty, *reward),
{
    let seconds_elapsed = elapsed_seconds_exec(*previous_claim_timestamp, *current_timestamp);
    if seconds_elapsed < SECONDS_PER_DAY * 5 {
        let keep_bp: u64 = match 10000u64.checked_sub(*claim_penalty as u64) {
            Some(k) => k,
            None => {
                return Err(TestudoBondsError::NumericalOverflow);
            },
        };
        let product: u64 = match reward.checked_mul(keep_bp) {
            Some(p) => p,
            None => {
                return Err(TestudoBondsError::NumericalOverflow);
            },
        };
        Ok(product / 10000)
    } else {
        Ok(*reward)
    }
}

/// The reward owed by one claim.
///
/// Accrues `floor(daily_emission * elapsed / 86400)`, fails with the
/// no-rewards error when that is zero (or its multiplication overflows),
/// applies the early-claim penalty, and clamps the result so
/// `total_claimed` can never pass `max_emission_per_bond`. The claim times
/// must be ordered and the bond's lifetime total within the cap.
pub fn calculate_reward(
    previous_claim_timestamp: &i64,
    current_timestamp: &i64,
    daily_emission: u64,
    claim_penalty: u16,
    max_emission_per_bond: u64,
    total_claimed: u64,
) -> (r: Result<u64, TestudoBondsError>)
    requires
        *previous_claim_timestamp <= *current_timestamp,
        total_claimed <= max_emission_per_bond,
    ensures
        r == reward_outcome(
            *previous_claim_timestamp,
            *current_timestamp,
            daily_emission,
            claim_penalty,
            max_emission_per_bond,
            total_claimed,
        ),
{
    let seconds_elapsed = elapsed_seconds_exec(*previous_claim_timestamp, *current_timestamp);
    let reward: u64 = match daily_emission.checked_mul(seconds_elapsed) {
        Some(product) => product / SECONDS_PER_DAY,
        None => 0,
    };
    if reward == 0 {
        return Err(TestudoBondsError::NoRewardsToClaim);
    }
    let reward_with_penalty: u64 = match calculate_claim_penalty(
        previous_claim_timestamp,
        current_timestamp,
        &claim_penalty,
        &reward,
    ) {
        Ok(v) => v,
        Err(err) => {
            return Err(err);
        },
    };
    let remaining_cap: u64 = max_emission_per_bond - total_claimed;
    if reward_with_penalty > remaining_cap {
        Ok(remaining_cap)
    } else {
        Ok(reward_with_penalty)
    }
}

/// The three-way split of the fixed ten-token deposit, by the configured
/// basis-point weights: rewards pool, treasury, team. Each share is an
/// independent floor division; remainders are not reconciled.
pub fn calculate_token_deposit_split(token_deposit_split: [u16; 3]) -> (r: [u64; 3])
    ensures
        r@[0] == split_share(crate::BOND_DEPOSIT, token_deposit_split@[0]),
        r@[1] == split_share(crate::BOND_DEPOSIT, token_deposit_split@[1]),
        r@[2] == split_share(crate::BOND_DEPOSIT, token_deposit_split@[2]),
{
    let base_amount: u64 = 10 * SHELLS_PER_TESTUDO;
    [
        (base_amount * (token_deposit_split[0] as u64)) / 10_000,
        (base_amount * (token_deposit_split[1] as u64)) / 10_000,
        (base_amount * (token_deposit_split[2] as u64)) / 10_000,
    ]
}

/// A claim of zero elapsed time accrues nothing and fails with the
/// no-rewards error.
pub proof fn lemma_zero_elapsed_no_reward(
    t: i64,
    daily: u64,
    penalty_bp: u16,
    cap: u64,
    claimed: u64,
)
    ensures
        reward_outcome(t, t, daily, penalty_bp, cap, claimed) == Err::<u64, TestudoBondsError>(
            TestudoBondsError::NoRewardsToClaim,
        ),
{
}

/// The no-rewards error comes exactly when the accrual is zero or its
/// multiplication overflows; on every other input the computation goes on
/// to the penalty stage.
pub proof fn lemma_no_rewards_characterized(
    prev: i64,
    now: i64,
    daily: u64,
    penalty_bp: u16,
    cap: u64,
    claimed: u64,
)
    requires
        prev <= now,
    ensures
        (reward_outcome(prev, now, daily, penalty_bp, cap, claimed) == Err::<
            u64,
            TestudoBondsError,
        >(TestudoBondsError::NoRewardsToClaim)) <==> (daily * elapsed_seconds(prev, now) > u64::MAX
            || raw_reward(daily, elapsed_seconds(prev, now)) == 0),
{
    let e = elapsed_seconds(prev, now);
    if !(daily * e > u64::MAX || raw_reward(daily, e) == 0) {
        match penalty_outcome(prev, now, penalty_bp, raw_reward(daily, e) as u64) {
            Err(err) => {
                assert(err == TestudoBondsError::NumericalOverflow);
            },
            Ok(pen) => {},
        }
    }
}

/// Outside the early-claim window the accrual passes the penalty stage
/// untouched: when it also fits under the cap, the claim pays exactly
/// `floor(daily * elapsed / 86400)`.
pub proof fn lemma_linear_accrual(
    prev: i64,
    now: i64,
    daily: u64,
    penalty_bp: u16,
    cap: u64,
    claimed: u64,
)
    requires
        prev <= now,
        claimed <= cap,
        daily * elapsed_seconds(prev, now) <= u64::MAX,
        raw_reward(daily, elapsed_seconds(prev, now)) > 0,
        !penalty_applies(elapsed_seconds(prev, now)),
        claimed + raw_reward(daily, elapsed_seconds(prev, now)) <= cap,
    ensures
        reward_outcome(prev, now, daily, penalty_bp, cap, claimed) == Ok::<u64, TestudoBondsError>(
            raw_reward(daily, elapsed_seconds(prev, now)) as u64,
        ),
{
    let e = elapsed_seconds(prev, now);
    vstd::arithmetic::div_mod::lemma_div_is_ordered(daily * e, u64::MAX as int, 86400);
}

/// Inside the early-claim window the claim pays the penalized accrual
/// `floor(raw * (10000 - penalty_bp) / 10000)` whenever that fits under
/// the cap and its multiplication fits in the machine word.
pub proof fn lemma_penalty_applied(
    prev: i64,
    now: i64,
    daily: u64,
    penalty_bp: u16,
    cap: u64,
    claimed: u64,
)
    requires
        prev <= now,
        claimed <= cap,
        penalty_bp <= 10000,
        daily * elapsed_seconds(prev, now) <= u64::MAX,
        raw_reward(daily, elapsed_seconds(prev, now)) > 0,
        penalty_applies(elapsed_seconds(prev, now)),
        raw_reward(daily, elapsed_seconds(prev, now)) * (10000 - penalty_bp) <= u64::MAX,
        claimed + penalized_reward(raw_reward(daily, elapsed_seconds(prev, now)), penalty_bp)
            <= cap,
    ensures
        reward_outcome(prev, now, daily, penalty_bp, cap, claimed) == Ok::<u64, TestudoBondsError>(
            penalized_reward(raw_reward(daily, elapsed_seconds(prev, now)), penalty_bp) as u64,
        ),
{
    let e = elapsed_seconds(prev, now);
    let raw = raw_reward(daily, e);
    vstd::arithmetic::div_mod::lemma_div_is_ordered(daily * e, u64::MAX as int, 86400);
    assert(raw <= u64::MAX);
    vstd::arithmetic::mul::lemma_mul_nonnegative(raw, 10000 - penalty_bp);
    vstd::arithmetic::div_mod::lemma_div_pos_is_pos(raw * (10000 - penalty_bp), 10000);
}

/// Cap law: whenever the pre-cap reward would push the lifetime total past
/// the cap, the returned reward is exactly the remaining gap, and paying it
/// brings the total to the cap exactly.
pub proof fn lemma_cap_clamp(reward: int, cap: u64, claimed: u64)
    requires
        claimed <= cap,
        claimed + reward > cap,
    ensures
        capped_reward(reward, cap, claimed) == cap - claimed,
        claimed + capped_reward(reward, cap, claimed) == cap,
{
}

/// Every reward the engine returns fits under the cap: a successful claim
/// can never push a bond's lifetime total past `max_emission_per_bond`.
pub proof fn lemma_reward_within_cap(
    prev: i64,
    now: i64,
    daily: u64,
    penalty_bp: u16,
    cap: u64,
    claimed: u64,
)
    requires
        prev <= now,
        claimed <= cap,
    ensures
        reward_outcome(prev, now, daily, penalty_bp, cap, claimed) matches Ok(r) ==> claimed + r
            <= cap,
{
    let e = elapsed_seconds(prev, now);
    if !(daily * e > u64::MAX || raw_reward(daily, e) == 0) {
        let raw = raw_reward(daily, e);
        vstd::arithmetic::div_mod::lemma_div_is_ordered(daily * e, u64::MAX as int, 86400);
        match penalty_outcome(prev, now, penalty_bp, raw as u64) {
            Err(_) => {},
            Ok(pen) => {
                if penalty_applies(e) {
                    vstd::arithmetic::mul::lemma_mul_nonnegative(raw, 10000 - penalty_bp);
                    vstd::arithmetic::div_mod::lemma_div_pos_is_pos(
                        raw * (10000 - penalty_bp),
                        10000,
                    );
                }
            },
        }
    }
}

/// Splitting a total three ways by basis-point weights that sum to ten
/// thousand never pays out more than the total: each share is the floor of
/// its exact fraction, and the three floors together are at most the total.
pub proof fn lemma_split_within_total(total: u64, split: [u16; 3])
    requires
        split@[0] + split@[1] + split@[2] == 10000,
    ensures
        split_share(total, split@[0]) + split_share(total, split@[1]) + split_share(
            total,
            split@[2],
        ) <= total,
        forall|i: int|
            0 <= i < 3 ==> #[trigger] split_share(total, split@[i]) == (total * split@[i]) / 10000,
{
    let x0 = total * split@[0];
    let x1 = total * split@[1];
    let x2 = total * split@[2];
    vstd::arithmetic::mul::lemma_mul_nonnegative(total as int, split@[0] as int);
    vstd::arithmetic::mul::lemma_mul_nonnegative(total as int, split@[1] as int);
    vstd::arithmetic::mul::lemma_mul_nonnegative(total as int, split@[2] as int);
    vstd::arithmetic::div_mod::lemma_fundamental_div_mod(x0, 10000);
    vstd::arithmetic::div_mod::lemma_fundamental_div_mod(x1, 10000);
    vstd::arithmetic::div_mod::lemma_fundamental_div_mod(x2, 10000);
    vstd::arithmetic::div_mod::lemma_mod_bound(x0, 10000);
    vstd::arithmetic::div_mod::lemma_mod_bound(x1, 10000);
    vstd::arithmetic::div_mod::lemma_mod_bound(x2, 10000);
    assert(x0 + x1 + x2 == total * 10000) by (nonlinear_arith)
        requires
            x0 == total * split@[0],
            x1 == total * split@[1],
            x2 == total * split@[2],
            split@[0] + split@[1] + split@[2] == 10000,
    ;
    let f0 = x0 / 10000;
    let f1 = x1 / 10000;
    let f2 = x2 / 10000;
    assert(10000 * (f0 + f1 + f2) <= total * 10000);
    assert(f0 + f1 + f2 <= total) by (nonlinear_arith)
        requires
            10000 * (f0 + f1 + f2) <= total * 10000,
    ;
}

} // verus!
