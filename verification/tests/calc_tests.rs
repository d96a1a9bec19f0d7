use testudo_bonds::calc::calculate_claim_penalty;
use testudo_bonds::calc::calculate_reward;
use testudo_bonds::calc::calculate_token_deposit_split;
use testudo_bonds::error::TestudoBondsError;

#[test]
fn half_day_accrual_with_penalty() {
    // One whole token per day, claimed after half a day, 5% penalty:
    // raw = 500_000_000, penalized = 500_000_000 * 9500 / 10000.
    let r = calculate_reward(&0, &43_200, 1_000_000_000, 500, u64::MAX, 0);
    assert_eq!(r, Ok(475_000_000));
}

#[test]
fn half_day_penalty_stage_alone() {
    let r = calculate_claim_penalty(&0, &43_200, &500, &500_000_000);
    assert_eq!(r, Ok(475_000_000));
}

#[test]
fn cap_clamps_to_remaining_gap() {
    // Five full days at 60_000_000 per day accrue 300_000_000 with no
    // penalty; only 200_000_000 remain under the cap.
    let r = calculate_reward(&0, &432_000, 60_000_000, 500, 2_000_000_000, 1_800_000_000);
    assert_eq!(r, Ok(200_000_000));
}

#[test]
fn zero_elapsed_yields_no_rewards() {
    let r = calculate_reward(&1_000, &1_000, 1_000_000_000, 500, u64::MAX, 0);
    assert_eq!(r, Err(TestudoBondsError::NoRewardsToClaim));
}

#[test]
fn sub_second_rate_rounds_to_zero() {
    // 86399 units per day over one second accrue less than one unit.
    let r = calculate_reward(&0, &1, 86_399, 500, u64::MAX, 0);
    assert_eq!(r, Err(TestudoBondsError::NoRewardsToClaim));
}

#[test]
fn accrual_overflow_yields_no_rewards() {
    let r = calculate_reward(&0, &1_000_000, u64::MAX, 500, u64::MAX, 0);
    assert_eq!(r, Err(TestudoBondsError::NoRewardsToClaim));
}

#[test]
fn penalty_above_ten_thousand_overflows() {
    let r = calculate_reward(&0, &43_200, 1_000_000_000, 10_001, u64::MAX, 0);
    assert_eq!(r, Err(TestudoBondsError::NumericalOverflow));
}

#[test]
fn penalty_product_overflow_surfaces() {
    // A raw reward near the machine bound cannot be multiplied by the
    // keep-side basis points.
    let r = calculate_claim_penalty(&0, &43_200, &500, &u64::MAX);
    assert_eq!(r, Err(TestudoBondsError::NumericalOverflow));
}

#[test]
fn no_penalty_at_five_days() {
    // Exactly five days: the window is strict, so no penalty applies.
    let r = calculate_claim_penalty(&0, &432_000, &500, &500_000_000);
    assert_eq!(r, Ok(500_000_000));
}

#[test]
fn penalty_just_inside_window() {
    let r = calculate_claim_penalty(&0, &431_999, &500, &10_000);
    assert_eq!(r, Ok(9_500));
}

#[test]
fn full_penalty_takes_everything() {
    let r = calculate_claim_penalty(&0, &100_000, &10_000, &500_000_000);
    assert_eq!(r, Ok(0));
}

#[test]
fn deposit_split_forty_forty_twenty() {
    // The fixed ten-token deposit split 40/40/20 transfers 4, 4, and 2
    // whole tokens, summing to the deposit exactly.
    let shares = calculate_token_deposit_split([4_000, 4_000, 2_000]);
    assert_eq!(shares, [4_000_000_000, 4_000_000_000, 2_000_000_000]);
    assert_eq!(shares[0] + shares[1] + shares[2], 10_000_000_000);
}

#[test]
fn deposit_split_uneven_weights() {
    let shares = calculate_token_deposit_split([3_333, 3_333, 3_334]);
    assert_eq!(shares, [3_333_000_000, 3_333_000_000, 3_334_000_000]);
    assert!(shares[0] + shares[1] + shares[2] <= 10_000_000_000);
}
