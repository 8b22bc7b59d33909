use kale_lend::accrual::{
    compute_adjusted_stake, compute_collateral_ratio, compute_interest_owed,
    compute_price_change_bps, compute_staking_reward, compute_usd_value,
};

#[test]
fn test_interest_owed_one_year() {
    // 100000 at 8% over a full year: 100000 * 800 / 10000 = 8000.
    assert_eq!(compute_interest_owed(100000, 800, 31_536_000), 8000);
}

#[test]
fn test_interest_owed_zero_elapsed() {
    assert_eq!(compute_interest_owed(100000, 800, 0), 0);
}

#[test]
fn test_interest_owed_truncates() {
    // Half a year at 8% on 1111: 1111 * 800 * 15768000 / 315360000000
    // = 44.44, truncated to 44.
    assert_eq!(compute_interest_owed(1111, 800, 15_768_000), 44);
}

#[test]
fn test_staking_reward_one_year() {
    // 1000000 at 5% over a full year: 1000000 * 500 / 10000 = 50000.
    assert_eq!(compute_staking_reward(1000000, 500, 31_536_000), 50000);
}

#[test]
fn test_usd_value_at_six_decimals() {
    // 1500000 XLM-units at $0.10: $150 at six decimals is 150000.
    assert_eq!(compute_usd_value(1500000, 100_000), 150000);
    // 100000 KALE-units at $1.00.
    assert_eq!(compute_usd_value(100000, 1_000_000), 100000);
}

#[test]
fn test_collateral_ratio_example() {
    // $150 of collateral against $100 borrowed: 150% = 15000 bps.
    assert_eq!(compute_collateral_ratio(150000, 100000), 15000);
}

#[test]
fn test_price_change_carries_the_sign() {
    assert_eq!(compute_price_change_bps(1_200_000, 1_000_000), 2000);
    assert_eq!(compute_price_change_bps(800_000, 1_000_000), -2000);
    assert_eq!(compute_price_change_bps(1_000_000, 1_000_000), 0);
}

#[test]
fn test_price_change_truncates_toward_zero() {
    // +1/3: 3333.33 bps truncates to 3333; -1/3 truncates to -3333,
    // not to -3334 as flooring would give.
    assert_eq!(compute_price_change_bps(4, 3), 3333);
    assert_eq!(compute_price_change_bps(2, 3), -3333);
}

#[test]
fn test_price_change_without_reference_price_is_zero() {
    assert_eq!(compute_price_change_bps(1_000_000, 0), 0);
}

#[test]
fn test_adjusted_stake_scales_both_ways() {
    // +2000 bps: factor 10200.
    assert_eq!(compute_adjusted_stake(1000000, 2000), 1020000);
    // -2000 bps: factor 9800.
    assert_eq!(compute_adjusted_stake(1000000, -2000), 980000);
    // No movement: unchanged.
    assert_eq!(compute_adjusted_stake(1000000, 0), 1000000);
}
