use vstd::prelude::*;

verus! {

/// A staking position, at most one live record per user. It is replaced
/// wholesale by every later stake of the same user, mutated by claiming
/// (which resets `last_claim_time` and grows `total_earned`) and by the
/// price-driven auto-adjustment (which rescales `kale_amount`).
#[derive(Clone, Copy, Debug, PartialEq, Eq, Structural)]
pub struct StakingPosition {
    /// Account identifier of the staker.
    pub user: u64,
    /// Amount of KALE staked, in the smallest asset unit.
    pub kale_amount: i128,
    /// Host time at which the position was opened.
    pub start_time: u64,
    /// Host time of the last reward claim.
    pub last_claim_time: u64,
    /// Whether price movements may rescale this position.
    pub auto_adjust_enabled: bool,
    /// Price-movement trigger for rebalancing, in basis points.
    pub price_threshold: i128,
    /// KALE price recorded at the last adjustment (or at opening).
    pub last_adjustment_price: i128,
    /// Cumulative rewards ever credited to this position.
    pub total_earned: i128,
}

/// A borrowing position, at most one live record per user. Created by a
/// borrow, mutated by repayments, and marked inactive once the balance is
/// driven to zero or below; the record itself is never deleted.
#[derive(Clone, Copy, Debug, PartialEq, Eq, Structural)]
pub struct BorrowingPosition {
    /// Account identifier of the borrower.
    pub user: u64,
    /// Outstanding borrowed KALE, in the smallest asset unit.
    pub borrowed_amount: i128,
    /// XLM pledged as collateral, in the smallest asset unit.
    pub collateral_amount: i128,
    /// Host time at which the borrow was opened.
    pub borrow_time: u64,
    /// Interest rate in basis points, a snapshot of the platform rate at borrow time.
    pub interest_rate: i128,
    /// Host time of the last repayment (or of the borrow itself).
    pub last_payment_time: u64,
    /// Cumulative interest ever accrued to this position by repayments.
    pub total_interest_paid: i128,
    /// False once the balance has been driven to zero or below.
    pub is_active: bool,
}

/// The single global platform record: configuration, cached prices and
/// running aggregates. Created once by initialization, mutated by every
/// staking or borrowing operation and by admin configuration updates.
#[derive(Clone, Copy, Debug, PartialEq, Eq, Structural)]
pub struct PlatformState {
    /// Account identifier of the platform admin.
    pub admin: u64,
    /// Identifier of the KALE token contract.
    pub kale_token: u64,
    /// Identifier of the XLM token contract used for collateral.
    pub xlm_token: u64,
    /// Identifier of the price oracle contract.
    pub reflector_oracle: u64,
    /// Running aggregate of all amounts ever staked.
    pub total_staked: i128,
    /// Running aggregate of outstanding borrows.
    pub total_borrowed: i128,
    /// Running aggregate of collateral held for open borrows.
    pub total_collateral: i128,
    /// Annual staking yield in basis points.
    pub staking_apy: i128,
    /// Annual borrowing interest rate in basis points.
    pub borrowing_apy: i128,
    /// Last KALE price cached from the oracle.
    pub current_kale_price: i128,
    /// Last XLM price cached from the oracle.
    pub current_xlm_price: i128,
    /// Host time of the last cached price refresh.
    pub last_price_update: u64,
    /// Platform fee in basis points.
    pub platform_fee_rate: i128,
    /// Minimum collateral ratio, in basis points, for opening a borrow.
    pub liquidation_threshold: i128,
    /// Global kill switch; when false, staking and borrowing are refused.
    pub is_active: bool,
}

/// The single yield-accounting record.
#[derive(Clone, Copy, Debug, PartialEq, Eq, Structural)]
pub struct YieldPool {
    /// Cumulative rewards ever distributed.
    pub total_rewards_distributed: i128,
    /// Cumulative staking rewards credited.
    pub staking_rewards: i128,
    /// Cumulative borrowing fees collected. Never written by the current operations.
    pub borrowing_fees: i128,
    /// Cumulative platform fees collected. Never written by the current operations.
    pub platform_fees: i128,
    /// Host time of the last reward distribution.
    pub last_distribution_time: u64,
}

/// Names of the four persisted records.
#[derive(Clone, Copy, Debug, PartialEq, Eq, Structural)]
pub enum StorageKey {
    /// The global platform record.
    PlatformState,
    /// The staking-position collection.
    StakingPositions,
    /// The borrowing-position collection.
    BorrowingPositions,
    /// The yield-accounting record.
    YieldPool,
}

} // verus!
