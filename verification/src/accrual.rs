use vstd::prelude::*;

verus! {

/// Fixed-point scale of USD-denominated asset amounts: both assets carry six
/// fractional digits.
pub const USD_SCALE: i128 = 1_000_000;

/// Basis-point scale: 10000 basis points = 100%.
pub const BPS_SCALE: i128 = 10_000;

/// Denominator of the time-proportional accrual formulas: seconds per year
/// times the basis-point scale.
pub const ACCRUAL_DENOM: i128 = 365 * 24 * 60 * 60 * 10_000;

/// Division that truncates toward zero, as the `/` of the executable code
/// does, for a positive divisor.
pub open spec fn div_trunc(a: int, b: int) -> int
    recommends
        b > 0,
{
    if a >= 0 {
        a / b
    } else {
        -((-a) / b)
    }
}

/// Interest owed on a borrowing position: principal times the rate, prorated
/// over the elapsed seconds of a year, truncating.
pub open spec fn interest_owed(borrowed: int, rate_bps: int, elapsed: int) -> int {
    (borrowed * rate_bps * elapsed) / (ACCRUAL_DENOM as int)
}

/// Reward owed on a staking position: the staked amount times the yield rate,
/// prorated over the elapsed seconds of a year, truncating.
pub open spec fn staking_reward(kale_amount: int, apy_bps: int, elapsed: int) -> int {
    (kale_amount * apy_bps * elapsed) / (ACCRUAL_DENOM as int)
}

/// USD value of an asset amount at the given price, at six fractional digits.
pub open spec fn usd_value(amount: int, price: int) -> int {
    (amount * price) / (USD_SCALE as int)
}

/// Collateral ratio in basis points: collateral value over borrow value.
pub open spec fn collateral_ratio_bps(collateral_value: int, borrow_value: int) -> int
    recommends
        borrow_value > 0,
{
    (collateral_value * (BPS_SCALE as int)) / borrow_value
}

/// Relative price movement since the last adjustment, in basis points, with
/// the sign of the movement; zero when no positive reference price exists.
pub open spec fn price_change_bps(current: int, last: int) -> int {
    if last > 0 {
        div_trunc((current - last) * (BPS_SCALE as int), last)
    } else {
        0
    }
}

/// Rescaling factor applied to a stake on an adjustment: one plus a tenth of
/// the price movement, carrying the movement's sign.
pub open spec fn adjustment_factor(change_bps: int) -> int {
    (BPS_SCALE as int) + div_trunc(change_bps, 10)
}

/// The staked amount after an adjustment for the given price movement.
pub open spec fn adjusted_stake(kale_amount: int, change_bps: int) -> int {
    (kale_amount * adjustment_factor(change_bps)) / (BPS_SCALE as int)
}

/// Computes the interest owed on a principal at a basis-point annual rate
/// over `elapsed` seconds.
pub fn compute_interest_owed(borrowed: i128, rate_bps: i128, elapsed: i128) -> (r: i128)
    requires
        0 <= borrowed,
        0 <= rate_bps,
        0 <= elapsed,
        borrowed * rate_bps <= i128::MAX,
        borrowed * rate_bps * elapsed <= i128::MAX,
    ensures
        r == interest_owed(borrowed as int, rate_bps as int, elapsed as int),
        0 <= r,
        r <= borrowed * rate_bps * elapsed / (ACCRUAL_DENOM as int),
{
    proof {
        assert(0 <= borrowed * rate_bps) by (nonlinear_arith)
            requires
                0 <= borrowed,
                0 <= rate_bps,
        ;
        assert(0 <= borrowed * rate_bps * elapsed) by (nonlinear_arith)
            requires
                0 <= borrowed * rate_bps,
                0 <= elapsed,
        ;
    }
    (borrowed * rate_bps * elapsed) / ACCRUAL_DENOM
}

/// Computes the staking reward on a staked amount at a basis-point annual
/// yield over `elapsed` seconds.
pub fn compute_staking_reward(kale_amount: i128, apy_bps: i128, elapsed: i128) -> (r: i128)
    requires
        0 <= kale_amount,
        0 <= apy_bps,
        0 <= elapsed,
        kale_amount * apy_bps <= i128::MAX,
        kale_amount * apy_bps * elapsed <= i128::MAX,
    ensures
        r == staking_reward(kale_amount as int, apy_bps as int, elapsed as int),
        0 <= r,
{
    proof {
        assert(0 <= kale_amount * apy_bps) by (nonlinear_arith)
            requires
                0 <= kale_amount,
                0 <= apy_bps,
        ;
        assert(0 <= kale_amount * apy_bps * elapsed) by (nonlinear_arith)
            requires
                0 <= kale_amount * apy_bps,
                0 <= elapsed,
        ;
    }
    (kale_amount * apy_bps * elapsed) / ACCRUAL_DENOM
}

/// Computes the USD value of an asset amount at the given six-digit
/// fixed-point price.
pub fn compute_usd_value(amount: i128, price: i128) -> (r: i128)
    requires
        0 <= amount,
        0 <= price,
        amount * price <= i128::MAX,
    ensures
        r == usd_value(amount as int, price as int),
        0 <= r,
{
    proof {
        assert(0 <= amount * price) by (nonlinear_arith)
            requires
                0 <= amount,
                0 <= price,
        ;
    }
    (amount * price) / USD_SCALE
}

/// Computes the collateral ratio in basis points of a collateral value
/// against a positive borrow value.
pub fn compute_collateral_ratio(collateral_value: i128, borrow_value: i128) -> (r: i128)
    requires
        0 <= collateral_value,
        0 < borrow_value,
        collateral_value * BPS_SCALE <= i128::MAX,
    ensures
        r == collateral_ratio_bps(collateral_value as int, borrow_value as int),
        0 <= r,
{
    proof {
        assert(0 <= collateral_value * BPS_SCALE) by (nonlinear_arith)
            requires
                0 <= collateral_value,
        ;
        assert(0 <= (collateral_value * BPS_SCALE) as int / borrow_value as int)
            by (nonlinear_arith)
            requires
                0 <= collateral_value * BPS_SCALE,
                0 < borrow_value,
        ;
    }
    (collateral_value * BPS_SCALE) / borrow_value
}

/// Computes the signed basis-point price movement of `current` against the
/// reference price `last`; zero when `last` is not positive.
pub fn compute_price_change_bps(current: i128, last: i128) -> (r: i128)
    requires
        0 <= current,
        0 <= last,
        (current - last) * BPS_SCALE <= i128::MAX,
        i128::MIN <= (current - last) * BPS_SCALE,
    ensures
        r == price_change_bps(current as int, last as int),
        -BPS_SCALE <= r,
{
    if last <= 0 {
        return 0;
    }
    let scaled: i128 = (current - last) * BPS_SCALE;
    proof {
        assert(-(last as int) * (BPS_SCALE as int) <= (current - last) * (BPS_SCALE as int))
            by (nonlinear_arith)
            requires
                0 <= current,
                0 < BPS_SCALE,
        ;
        assert(div_trunc((current - last) * (BPS_SCALE as int), last as int) >= -(BPS_SCALE as int))
            by (nonlinear_arith)
            requires
                0 < last,
                -(last as int) * (BPS_SCALE as int) <= (current - last) * (BPS_SCALE as int),
                0 < BPS_SCALE,
        ;
    }
    scaled / last
}

/// Computes the staked amount after an adjustment for the given basis-point
/// price movement.
pub fn compute_adjusted_stake(kale_amount: i128, change_bps: i128) -> (r: i128)
    requires
        0 <= kale_amount,
        -BPS_SCALE <= change_bps,
        adjustment_factor(change_bps as int) <= i128::MAX,
        kale_amount * adjustment_factor(change_bps as int) <= i128::MAX,
    ensures
        r == adjusted_stake(kale_amount as int, change_bps as int),
        0 <= r,
{
    let tenth: i128 = change_bps / 10;
    let factor: i128 = BPS_SCALE + tenth;
    proof {
        assert(0 <= kale_amount * factor) by (nonlinear_arith)
            requires
                0 <= kale_amount,
                0 <= factor,
        ;
    }
    (kale_amount * factor) / BPS_SCALE
}

} // verus!
