use kale_lend::error::Error;
use kale_lend::platform::KaleLendingPlatform;
use kale_lend::records::StorageKey;

const ADMIN: u64 = 1;
const USER: u64 = 5;
const OTHER_USER: u64 = 6;

const KALE_PRICE: i128 = 1_000_000;
const XLM_PRICE: i128 = 100_000;

const YEAR: u64 = 31_536_000; // 365 * 24 * 60 * 60 seconds

fn initialized() -> KaleLendingPlatform {
    let mut platform = KaleLendingPlatform::new();
    platform
        .initialize(ADMIN, 2, 3, 4, 500, 800, 100, 15000, 0)
        .unwrap();
    platform
}

#[test]
fn test_initialize_twice_fails_and_mutates_nothing() {
    let mut platform = initialized();
    let before = platform.get_platform_state().unwrap();

    let second = platform.initialize(9, 8, 7, 6, 1, 2, 3, 4, 99);
    assert_eq!(second, Err(Error::AlreadyInitialized));

    let after = platform.get_platform_state().unwrap();
    assert_eq!(after, before);
}

#[test]
fn test_record_existence_follows_initialization() {
    let platform = KaleLendingPlatform::new();
    assert!(!platform.has(&StorageKey::PlatformState));
    assert!(!platform.has(&StorageKey::StakingPositions));
    assert!(!platform.has(&StorageKey::BorrowingPositions));
    assert!(!platform.has(&StorageKey::YieldPool));

    let platform = initialized();
    assert!(platform.has(&StorageKey::PlatformState));
    assert!(platform.has(&StorageKey::StakingPositions));
    assert!(platform.has(&StorageKey::BorrowingPositions));
    assert!(platform.has(&StorageKey::YieldPool));
}

#[test]
fn test_stake_grows_total_staked_by_exactly_the_amount() {
    let mut platform = initialized();

    platform
        .stake_kale(USER, 250000, false, 5, Some(KALE_PRICE), 10)
        .unwrap();
    assert_eq!(platform.get_platform_state().unwrap().total_staked, 250000);
    assert_eq!(
        platform.get_staking_position(USER).unwrap().kale_amount,
        250000
    );

    platform
        .stake_kale(OTHER_USER, 750000, false, 5, Some(KALE_PRICE), 20)
        .unwrap();
    assert_eq!(platform.get_platform_state().unwrap().total_staked, 1000000);
    assert_eq!(
        platform.get_staking_position(OTHER_USER).unwrap().kale_amount,
        750000
    );
}

#[test]
fn test_restake_replaces_the_position_wholesale() {
    let mut platform = initialized();

    platform
        .stake_kale(USER, 1000000, true, 10, Some(KALE_PRICE), 0)
        .unwrap();
    platform.claim_staking_rewards(USER, YEAR).unwrap();
    assert_eq!(
        platform.get_staking_position(USER).unwrap().total_earned,
        50000
    );

    // A second stake by the same user replaces the record and drops the
    // accumulated earnings; the aggregate still grows by the new amount.
    platform
        .stake_kale(USER, 400000, false, 20, Some(KALE_PRICE), YEAR)
        .unwrap();
    let position = platform.get_staking_position(USER).unwrap();
    assert_eq!(position.kale_amount, 400000);
    assert_eq!(position.total_earned, 0);
    assert_eq!(position.auto_adjust_enabled, false);
    assert_eq!(position.price_threshold, 2000);
    assert_eq!(platform.get_platform_state().unwrap().total_staked, 1400000);
}

#[test]
fn test_stake_refused_when_platform_inactive() {
    let mut platform = initialized();
    platform
        .update_platform_config(ADMIN, None, None, None, None, Some(false))
        .unwrap();
    assert_eq!(
        platform.stake_kale(USER, 1000000, true, 10, Some(KALE_PRICE), 0),
        Err(Error::PlatformInactive)
    );
    assert_eq!(
        platform.borrow_kale_with_xlm(USER, 1500000, 100000, Some(KALE_PRICE), Some(XLM_PRICE), 0),
        Err(Error::PlatformInactive)
    );
}

#[test]
fn test_borrow_rejected_below_threshold() {
    let mut platform = initialized();
    // Raise the liquidation threshold to 160%: a 150% collateral ratio is
    // now insufficient.
    platform
        .update_platform_config(ADMIN, None, None, None, Some(16000), None)
        .unwrap();

    let result =
        platform.borrow_kale_with_xlm(USER, 1500000, 100000, Some(KALE_PRICE), Some(XLM_PRICE), 0);
    assert_eq!(result, Err(Error::InsufficientCollateral));
    assert_eq!(
        platform.get_borrowing_position(USER),
        Err(Error::PositionNotFound)
    );
    assert_eq!(platform.get_platform_state().unwrap().total_borrowed, 0);
    assert_eq!(platform.get_platform_state().unwrap().total_collateral, 0);
}

#[test]
fn test_borrow_accepted_at_threshold_and_recorded() {
    let mut platform = initialized();

    // Exactly at the 150% threshold: collateral worth $150, borrow worth $100.
    platform
        .borrow_kale_with_xlm(USER, 1500000, 100000, Some(KALE_PRICE), Some(XLM_PRICE), 7)
        .unwrap();

    let position = platform.get_borrowing_position(USER).unwrap();
    assert_eq!(position.borrowed_amount, 100000);
    assert_eq!(position.collateral_amount, 1500000);
    assert_eq!(position.interest_rate, 800);
    assert_eq!(position.borrow_time, 7);
    assert_eq!(position.last_payment_time, 7);
    assert_eq!(position.total_interest_paid, 0);
    assert!(position.is_active);

    let state = platform.get_platform_state().unwrap();
    assert_eq!(state.total_borrowed, 100000);
    assert_eq!(state.total_collateral, 1500000);
    assert_eq!(state.current_kale_price, KALE_PRICE);
    assert_eq!(state.current_xlm_price, XLM_PRICE);
    assert_eq!(state.last_price_update, 7);
}

#[test]
fn test_borrow_with_zero_borrow_value_is_invalid() {
    let mut platform = initialized();
    // A KALE price of zero values the request at zero USD; the ratio is
    // undefined and the borrow is malformed.
    let result =
        platform.borrow_kale_with_xlm(USER, 1500000, 100000, Some(0), Some(XLM_PRICE), 0);
    assert_eq!(result, Err(Error::InvalidAmount));
}

#[test]
fn test_repay_full_with_interest_closes_position() {
    let mut platform = initialized();
    platform
        .borrow_kale_with_xlm(USER, 1500000, 100000, Some(KALE_PRICE), Some(XLM_PRICE), 0)
        .unwrap();

    // One year at 8%: interest owed is 100000 * 800 / 10000 = 8000. The
    // amount applied is the full debt of 108000, not the requested 200000.
    let applied = platform.repay_borrowed_kale(USER, 200000, YEAR).unwrap();
    assert_eq!(applied, 108000);

    let position = platform.get_borrowing_position(USER).unwrap();
    assert!(!position.is_active);
    assert_eq!(position.borrowed_amount, 0);
    assert_eq!(position.total_interest_paid, 8000);
    assert_eq!(position.last_payment_time, YEAR);

    let state = platform.get_platform_state().unwrap();
    assert_eq!(state.total_borrowed, -8000);
    // The collateral of the closed position leaves the aggregate in full.
    assert_eq!(state.total_collateral, 0);
}

#[test]
fn test_repay_partial_keeps_position_active() {
    let mut platform = initialized();
    platform
        .borrow_kale_with_xlm(USER, 1500000, 100000, Some(KALE_PRICE), Some(XLM_PRICE), 0)
        .unwrap();

    let applied = platform.repay_borrowed_kale(USER, 40000, 0).unwrap();
    assert_eq!(applied, 40000);

    let position = platform.get_borrowing_position(USER).unwrap();
    assert!(position.is_active);
    assert_eq!(position.borrowed_amount, 60000);
    assert_eq!(position.total_interest_paid, 0);

    let state = platform.get_platform_state().unwrap();
    assert_eq!(state.total_borrowed, 60000);
    assert_eq!(state.total_collateral, 1500000);
}

#[test]
fn test_repay_closed_position_is_inactive() {
    let mut platform = initialized();
    platform
        .borrow_kale_with_xlm(USER, 1500000, 100000, Some(KALE_PRICE), Some(XLM_PRICE), 0)
        .unwrap();
    platform.repay_borrowed_kale(USER, 100000, 0).unwrap();

    assert_eq!(
        platform.repay_borrowed_kale(USER, 1, 0),
        Err(Error::PositionInactive)
    );
}

#[test]
fn test_claim_zero_elapsed_yields_zero() {
    let mut platform = initialized();
    platform
        .stake_kale(USER, 1000000, true, 10, Some(KALE_PRICE), 400)
        .unwrap();

    let rewards = platform.claim_staking_rewards(USER, 400).unwrap();
    assert_eq!(rewards, 0);
    let position = platform.get_staking_position(USER).unwrap();
    assert_eq!(position.total_earned, 0);
    assert_eq!(position.last_claim_time, 400);
}

#[test]
fn test_claim_after_a_year_credits_position_and_pool() {
    let mut platform = initialized();
    platform
        .stake_kale(USER, 1000000, true, 10, Some(KALE_PRICE), 0)
        .unwrap();

    // One year at 5%: 1000000 * 500 / 10000 = 50000.
    let rewards = platform.claim_staking_rewards(USER, YEAR).unwrap();
    assert_eq!(rewards, 50000);

    let position = platform.get_staking_position(USER).unwrap();
    assert_eq!(position.total_earned, 50000);
    assert_eq!(position.last_claim_time, YEAR);

    let pool = platform.get_yield_pool().unwrap();
    assert_eq!(pool.staking_rewards, 50000);
    assert_eq!(pool.total_rewards_distributed, 50000);
    assert_eq!(pool.last_distribution_time, YEAR);
    assert_eq!(pool.borrowing_fees, 0);
    assert_eq!(pool.platform_fees, 0);
}

#[test]
fn test_adjustment_triggers_on_price_rise() {
    let mut platform = initialized();
    platform
        .stake_kale(USER, 1000000, true, 10, Some(KALE_PRICE), 0)
        .unwrap();

    // +20% movement (2000 bps) against a 10% threshold: the stake is scaled
    // by 10000 + 2000/10 = 10200.
    let adjusted = platform
        .check_price_adjustments(USER, Some(1_200_000))
        .unwrap();
    assert!(adjusted);

    let position = platform.get_staking_position(USER).unwrap();
    assert_eq!(position.kale_amount, 1020000);
    assert_eq!(position.last_adjustment_price, 1_200_000);
}

#[test]
fn test_adjustment_triggers_on_price_fall() {
    let mut platform = initialized();
    platform
        .stake_kale(USER, 1000000, true, 10, Some(KALE_PRICE), 0)
        .unwrap();

    // -20% movement (-2000 bps): the stake is scaled by 10000 - 200 = 9800.
    let adjusted = platform
        .check_price_adjustments(USER, Some(800_000))
        .unwrap();
    assert!(adjusted);

    let position = platform.get_staking_position(USER).unwrap();
    assert_eq!(position.kale_amount, 980000);
    assert_eq!(position.last_adjustment_price, 800_000);
}

#[test]
fn test_adjustment_below_threshold_changes_nothing() {
    let mut platform = initialized();
    platform
        .stake_kale(USER, 1000000, true, 10, Some(KALE_PRICE), 0)
        .unwrap();

    // +5% movement (500 bps) against a 10% threshold.
    let adjusted = platform
        .check_price_adjustments(USER, Some(1_050_000))
        .unwrap();
    assert!(!adjusted);

    let position = platform.get_staking_position(USER).unwrap();
    assert_eq!(position.kale_amount, 1000000);
    assert_eq!(position.last_adjustment_price, KALE_PRICE);
}

#[test]
fn test_disabled_position_never_adjusts() {
    let mut platform = initialized();
    platform
        .stake_kale(USER, 1000000, false, 10, Some(KALE_PRICE), 0)
        .unwrap();

    // A tenfold price movement adjusts nothing on a disabled position, and
    // no reading is even needed.
    let adjusted = platform
        .check_price_adjustments(USER, Some(10_000_000))
        .unwrap();
    assert!(!adjusted);
    let adjusted = platform.check_price_adjustments(USER, None).unwrap();
    assert!(!adjusted);

    let position = platform.get_staking_position(USER).unwrap();
    assert_eq!(position.kale_amount, 1000000);
    assert_eq!(position.last_adjustment_price, KALE_PRICE);
}

#[test]
fn test_zero_reference_price_reads_as_no_movement() {
    let mut platform = initialized();
    // Staked while the oracle reported a zero price: there is no positive
    // reference price, so the movement reads as zero, and only a zero
    // threshold triggers an adjustment — which leaves the amount unscaled
    // and records the new reference price.
    platform.stake_kale(USER, 1000000, true, 0, Some(0), 0).unwrap();

    let adjusted = platform
        .check_price_adjustments(USER, Some(KALE_PRICE))
        .unwrap();
    assert!(adjusted);

    let position = platform.get_staking_position(USER).unwrap();
    assert_eq!(position.kale_amount, 1000000);
    assert_eq!(position.last_adjustment_price, KALE_PRICE);
}

#[test]
fn test_largest_single_stake() {
    let mut platform = initialized();
    platform
        .stake_kale(USER, i128::MAX, false, 10, Some(KALE_PRICE), 0)
        .unwrap();
    assert_eq!(
        platform.get_staking_position(USER).unwrap().kale_amount,
        i128::MAX
    );
    assert_eq!(platform.get_platform_state().unwrap().total_staked, i128::MAX);
}

#[test]
fn test_update_config_applies_only_provided_fields() {
    let mut platform = initialized();
    platform
        .update_platform_config(ADMIN, Some(600), None, None, None, None)
        .unwrap();

    let state = platform.get_platform_state().unwrap();
    assert_eq!(state.staking_apy, 600);
    assert_eq!(state.borrowing_apy, 800);
    assert_eq!(state.platform_fee_rate, 100);
    assert_eq!(state.liquidation_threshold, 15000);
    assert_eq!(state.is_active, true);
}

#[test]
fn test_update_config_requires_the_admin() {
    let mut platform = initialized();
    let before = platform.get_platform_state().unwrap();

    let result = platform.update_platform_config(USER, Some(1), Some(1), Some(1), Some(1), Some(false));
    assert_eq!(result, Err(Error::Unauthorized));
    assert_eq!(platform.get_platform_state().unwrap(), before);
}

#[test]
fn test_get_current_kale_price_returns_the_reading() {
    let platform = initialized();
    assert_eq!(platform.get_current_kale_price(Some(KALE_PRICE)), Ok(KALE_PRICE));

    let uninitialized = KaleLendingPlatform::new();
    assert_eq!(
        uninitialized.get_current_kale_price(Some(KALE_PRICE)),
        Err(Error::NotInitialized)
    );
}
