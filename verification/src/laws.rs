use vstd::prelude::*;

use crate::accrual::{
    adjusted_stake, collateral_ratio_bps, interest_owed, price_change_bps, staking_reward,
    usd_value,
};
use crate::error::Error;
use crate::model::{
    adjust_model, borrow_fits, borrow_model, claim_fits, claim_model, config_model,
    get_borrowing_model, get_pool_model, get_staking_model, get_state_model, init_model,
    repay_fits, repay_model, stake_fits, stake_model, wf, PlatformModel,
};
use crate::records::{BorrowingPosition, PlatformState, StakingPosition, YieldPool};

verus! {

/// Initializing twice fails: once a first initialization has succeeded, a
/// second one, with any arguments, returns `AlreadyInitialized` and mutates
/// nothing.
pub proof fn lemma_initialize_twice(
    m: PlatformModel,
    admin1: u64,
    kale_token1: u64,
    xlm_token1: u64,
    reflector_oracle1: u64,
    staking_apy1: i128,
    borrowing_apy1: i128,
    platform_fee_rate1: i128,
    liquidation_threshold1: i128,
    now1: u64,
    admin2: u64,
    kale_token2: u64,
    xlm_token2: u64,
    reflector_oracle2: u64,
    staking_apy2: i128,
    borrowing_apy2: i128,
    platform_fee_rate2: i128,
    liquidation_threshold2: i128,
    now2: u64,
)
    requires
        init_model(
            m,
            admin1,
            kale_token1,
            xlm_token1,
            reflector_oracle1,
            staking_apy1,
            borrowing_apy1,
            platform_fee_rate1,
            liquidation_threshold1,
            now1,
        ).1 is Ok,
    ensures
        ({
            let m1 = init_model(
                m,
                admin1,
                kale_token1,
                xlm_token1,
                reflector_oracle1,
                staking_apy1,
                borrowing_apy1,
                platform_fee_rate1,
                liquidation_threshold1,
                now1,
            ).0;
            let second = init_model(
                m1,
                admin2,
                kale_token2,
                xlm_token2,
                reflector_oracle2,
                staking_apy2,
                borrowing_apy2,
                platform_fee_rate2,
                liquidation_threshold2,
                now2,
            );
            &&& second.1 == Err::<(), Error>(Error::AlreadyInitialized)
            &&& second.0 == m1
        }),
{
}

/// A successful initialization is fully observable: the getters then return
/// the fresh platform record with all aggregates and cached prices zeroed
/// and the kill switch on, and the fresh, zeroed yield pool.
pub proof fn lemma_initialize_roundtrip(
    m: PlatformModel,
    admin: u64,
    kale_token: u64,
    xlm_token: u64,
    reflector_oracle: u64,
    staking_apy: i128,
    borrowing_apy: i128,
    platform_fee_rate: i128,
    liquidation_threshold: i128,
    now: u64,
)
    requires
        m.state is None,
    ensures
        ({
            let m1 = init_model(
                m,
                admin,
                kale_token,
                xlm_token,
                reflector_oracle,
                staking_apy,
                borrowing_apy,
                platform_fee_rate,
                liquidation_threshold,
                now,
            ).0;
            &&& get_state_model(m1) == Ok::<PlatformState, Error>(
                (PlatformState {
                    admin,
                    kale_token,
                    xlm_token,
                    reflector_oracle,
                    total_staked: 0,
                    total_borrowed: 0,
                    total_collateral: 0,
                    staking_apy,
                    borrowing_apy,
                    current_kale_price: 0,
                    current_xlm_price: 0,
                    last_price_update: now,
                    platform_fee_rate,
                    liquidation_threshold,
                    is_active: true,
                }),
            )
            &&& get_pool_model(m1) == Ok::<YieldPool, Error>(
                (YieldPool {
                    total_rewards_distributed: 0,
                    staking_rewards: 0,
                    borrowing_fees: 0,
                    platform_fees: 0,
                    last_distribution_time: now,
                }),
            )
        }),
{
}

/// A successful stake is fully observable: the staking-position getter then
/// returns exactly the fresh record of the staked amount, and `total_staked`
/// has grown by exactly that amount.
pub proof fn lemma_stake_roundtrip(
    m: PlatformModel,
    user: u64,
    amount: i128,
    auto_adjust_enabled: bool,
    price_threshold_percent: u32,
    price: i128,
    now: u64,
)
    requires
        stake_fits(m, amount, Some(price)),
        stake_model(m, user, amount, auto_adjust_enabled, price_threshold_percent, Some(price), now).1
            is Ok,
    ensures
        ({
            let m1 = stake_model(
                m,
                user,
                amount,
                auto_adjust_enabled,
                price_threshold_percent,
                Some(price),
                now,
            ).0;
            &&& get_staking_model(m1, user) == Ok::<StakingPosition, Error>(
                (StakingPosition {
                    user,
                    kale_amount: amount,
                    start_time: now,
                    last_claim_time: now,
                    auto_adjust_enabled,
                    price_threshold: (price_threshold_percent * 100) as i128,
                    last_adjustment_price: price,
                    total_earned: 0,
                }),
            )
            &&& m1.state->Some_0.total_staked == m.state->Some_0.total_staked + amount
        }),
{
}

/// The collateral gate: with positive amounts, an initialized and active
/// platform, both readings available and a nonzero borrow value, the borrow
/// is accepted exactly when the collateral ratio reaches the liquidation
/// threshold; a rejected borrow mutates nothing.
pub proof fn lemma_borrow_collateral_gate(
    m: PlatformModel,
    user: u64,
    xlm_collateral_amount: i128,
    kale_borrow_amount: i128,
    kale_price: i128,
    xlm_price: i128,
    now: u64,
)
    requires
        xlm_collateral_amount > 0,
        kale_borrow_amount > 0,
        m.state is Some,
        m.state->Some_0.is_active,
        usd_value(kale_borrow_amount as int, kale_price as int) != 0,
    ensures
        ({
            let outcome = borrow_model(
                m,
                user,
                xlm_collateral_amount,
                kale_borrow_amount,
                Some(kale_price),
                Some(xlm_price),
                now,
            );
            let ratio = collateral_ratio_bps(
                usd_value(xlm_collateral_amount as int, xlm_price as int),
                usd_value(kale_borrow_amount as int, kale_price as int),
            );
            &&& (outcome.1 is Ok <==> ratio >= m.state->Some_0.liquidation_threshold)
            &&& (ratio < m.state->Some_0.liquidation_threshold ==> outcome.1 == Err::<(), Error>(
                Error::InsufficientCollateral,
            ) && outcome.0 == m)
            &&& (outcome.1 is Ok ==> outcome.0.borrows.contains_key(user)
                && outcome.0.borrows[user].borrowed_amount == kale_borrow_amount
                && outcome.0.borrows[user].collateral_amount == xlm_collateral_amount
                && outcome.0.borrows[user].is_active)
        }),
{
}

/// A successful borrow is fully observable: the borrowing-position getter
/// then returns exactly the fresh record, and the borrow and collateral
/// aggregates have grown by exactly the two amounts.
pub proof fn lemma_borrow_roundtrip(
    m: PlatformModel,
    user: u64,
    xlm_collateral_amount: i128,
    kale_borrow_amount: i128,
    kale_price: i128,
    xlm_price: i128,
    now: u64,
)
    requires
        borrow_fits(m, xlm_collateral_amount, kale_borrow_amount, Some(kale_price), Some(xlm_price)),
        borrow_model(
            m,
            user,
            xlm_collateral_amount,
            kale_borrow_amount,
            Some(kale_price),
            Some(xlm_price),
            now,
        ).1 is Ok,
    ensures
        ({
            let m1 = borrow_model(
                m,
                user,
                xlm_collateral_amount,
                kale_borrow_amount,
                Some(kale_price),
                Some(xlm_price),
                now,
            ).0;
            &&& get_borrowing_model(m1, user) == Ok::<BorrowingPosition, Error>(
                (BorrowingPosition {
                    user,
                    borrowed_amount: kale_borrow_amount,
                    collateral_amount: xlm_collateral_amount,
                    borrow_time: now,
                    interest_rate: m.state->Some_0.borrowing_apy,
                    last_payment_time: now,
                    total_interest_paid: 0,
                    is_active: true,
                }),
            )
            &&& m1.state->Some_0.total_borrowed == m.state->Some_0.total_borrowed
                + kale_borrow_amount
            &&& m1.state->Some_0.total_collateral == m.state->Some_0.total_collateral
                + xlm_collateral_amount
        }),
{
}

/// Full repayment closes the position: when the requested amount covers the
/// outstanding balance plus the interest owed at the time of the call, the
/// amount actually applied is exactly that debt — not the requested amount —
/// the position becomes inactive, its balance is driven to exactly zero, and
/// `total_collateral` shrinks by exactly the position's collateral.
pub proof fn lemma_full_repayment_closes(
    m: PlatformModel,
    user: u64,
    repay_amount: i128,
    now: u64,
)
    requires
        wf(m),
        repay_fits(m, user, repay_amount, now),
        repay_amount > 0,
        m.state is Some,
        m.borrows.contains_key(user),
        m.borrows[user].is_active,
        repay_amount >= m.borrows[user].borrowed_amount + interest_owed(
            m.borrows[user].borrowed_amount as int,
            m.borrows[user].interest_rate as int,
            now - m.borrows[user].last_payment_time,
        ),
    ensures
        ({
            let outcome = repay_model(m, user, repay_amount, now);
            let pos = m.borrows[user];
            let interest = interest_owed(
                pos.borrowed_amount as int,
                pos.interest_rate as int,
                now - pos.last_payment_time,
            );
            &&& outcome.1 == Ok::<i128, Error>(((pos.borrowed_amount + interest) as i128))
            &&& outcome.0.borrows[user].borrowed_amount == 0
            &&& !outcome.0.borrows[user].is_active
            &&& outcome.0.state->Some_0.total_collateral == m.state->Some_0.total_collateral
                - pos.collateral_amount
        }),
{
    let pos = m.borrows[user];
    let elapsed = now - pos.last_payment_time;
    assert(0 <= pos.borrowed_amount * pos.interest_rate * elapsed) by (nonlinear_arith)
        requires
            0 < pos.borrowed_amount,
            0 <= pos.interest_rate,
            0 <= elapsed,
    ;
}

/// A repayment's effect is fully observable: on success the
/// borrowing-position getter returns the updated record — balance reduced by
/// the amount applied, or exactly zero when the debt is covered, interest
/// accrued to `total_interest_paid`, the payment time restamped — and
/// `total_borrowed` shrinks by exactly the amount applied.
pub proof fn lemma_repay_roundtrip(m: PlatformModel, user: u64, repay_amount: i128, now: u64)
    requires
        wf(m),
        repay_fits(m, user, repay_amount, now),
        repay_model(m, user, repay_amount, now).1 is Ok,
    ensures
        ({
            let outcome = repay_model(m, user, repay_amount, now);
            let pos = m.borrows[user];
            let interest = interest_owed(
                pos.borrowed_amount as int,
                pos.interest_rate as int,
                now - pos.last_payment_time,
            );
            let actual = outcome.1->Ok_0;
            &&& get_borrowing_model(outcome.0, user) == Ok::<BorrowingPosition, Error>(
                (BorrowingPosition {
                    user,
                    borrowed_amount: if pos.borrowed_amount - actual > 0 {
                        (pos.borrowed_amount - actual) as i128
                    } else {
                        0
                    },
                    collateral_amount: pos.collateral_amount,
                    borrow_time: pos.borrow_time,
                    interest_rate: pos.interest_rate,
                    last_payment_time: now,
                    total_interest_paid: (pos.total_interest_paid + interest) as i128,
                    is_active: pos.borrowed_amount - actual > 0,
                }),
            )
            &&& outcome.0.state->Some_0.total_borrowed == m.state->Some_0.total_borrowed - actual
        }),
{
    let pos = m.borrows[user];
    let elapsed = now - pos.last_payment_time;
    assert(0 <= pos.borrowed_amount * pos.interest_rate * elapsed) by (nonlinear_arith)
        requires
            0 < pos.borrowed_amount,
            0 <= pos.interest_rate,
            0 <= elapsed,
    ;
}

/// Claiming with zero elapsed time — the host time equal to the position's
/// last claim time — yields a reward of exactly zero and leaves the
/// position's cumulative earnings and the pool's cumulative totals
/// unchanged.
pub proof fn lemma_claim_zero_elapsed(m: PlatformModel, user: u64)
    requires
        wf(m),
        m.state is Some,
        m.stakes.contains_key(user),
    ensures
        ({
            let now = m.stakes[user].last_claim_time;
            let outcome = claim_model(m, user, now);
            &&& outcome.1 == Ok::<i128, Error>(0)
            &&& outcome.0.stakes[user].total_earned == m.stakes[user].total_earned
            &&& outcome.0.pool->Some_0.total_rewards_distributed
                == m.pool->Some_0.total_rewards_distributed
            &&& outcome.0.pool->Some_0.staking_rewards == m.pool->Some_0.staking_rewards
        }),
{
    let pos = m.stakes[user];
    let s = m.state->Some_0;
    assert(pos.kale_amount * s.staking_apy * 0 == 0) by (nonlinear_arith);
}

/// A claim's effect is fully observable: on success the staking-position
/// getter returns the record with the reward added to `total_earned` and the
/// claim time restamped, and the yield-pool getter returns both cumulative
/// totals grown by exactly the reward.
pub proof fn lemma_claim_roundtrip(m: PlatformModel, user: u64, now: u64)
    requires
        wf(m),
        claim_fits(m, user, now),
        claim_model(m, user, now).1 is Ok,
    ensures
        ({
            let outcome = claim_model(m, user, now);
            let pos = m.stakes[user];
            let pool = m.pool->Some_0;
            let rewards = staking_reward(
                pos.kale_amount as int,
                m.state->Some_0.staking_apy as int,
                now - pos.last_claim_time,
            );
            &&& outcome.1 == Ok::<i128, Error>((rewards as i128))
            &&& get_staking_model(outcome.0, user) == Ok::<StakingPosition, Error>(
                (StakingPosition {
                    last_claim_time: now,
                    total_earned: (pos.total_earned + rewards) as i128,
                    ..pos
                }),
            )
            &&& get_pool_model(outcome.0) == Ok::<YieldPool, Error>(
                (YieldPool {
                    total_rewards_distributed: (pool.total_rewards_distributed + rewards) as i128,
                    staking_rewards: (pool.staking_rewards + rewards) as i128,
                    last_distribution_time: now,
                    ..pool
                }),
            )
        }),
{
}

/// The auto-adjustment trigger: an enabled position adjusts exactly when the
/// absolute basis-point price movement since the last adjustment reaches the
/// position's threshold, rescaling the stake and recording the new reference
/// price; a disabled position is never adjusted, whatever the reading — even
/// an absent one — and the store is then unchanged.
pub proof fn lemma_adjustment_threshold(m: PlatformModel, user: u64, reading: Option<i128>)
    requires
        wf(m),
        m.state is Some,
        m.stakes.contains_key(user),
    ensures
        ({
            let pos = m.stakes[user];
            let outcome = adjust_model(m, user, reading);
            &&& (!pos.auto_adjust_enabled ==> outcome.0 == m && outcome.1 == Ok::<bool, Error>(
                false,
            ))
            &&& ((pos.auto_adjust_enabled && reading is Some) ==> {
                let change = price_change_bps(
                    reading->Some_0 as int,
                    pos.last_adjustment_price as int,
                );
                &&& outcome.1 == Ok::<bool, Error>(
                    vstd::math::abs(change) >= pos.price_threshold,
                )
                &&& (vstd::math::abs(change) >= pos.price_threshold ==> {
                    &&& outcome.0.stakes[user].kale_amount == adjusted_stake(
                        pos.kale_amount as int,
                        change,
                    ) as i128
                    &&& outcome.0.stakes[user].last_adjustment_price == reading->Some_0
                })
                &&& (vstd::math::abs(change) < pos.price_threshold ==> outcome.0 == m)
            })
        }),
{
}

/// A configuration update's effect is fully observable: on success the
/// platform-state getter returns the record with exactly the provided fields
/// applied and every other field unchanged.
pub proof fn lemma_config_roundtrip(
    m: PlatformModel,
    caller: u64,
    staking_apy: Option<i128>,
    borrowing_apy: Option<i128>,
    platform_fee_rate: Option<i128>,
    liquidation_threshold: Option<i128>,
    is_active: Option<bool>,
)
    requires
        m.state is Some,
        caller == m.state->Some_0.admin,
    ensures
        ({
            let outcome = config_model(
                m,
                caller,
                staking_apy,
                borrowing_apy,
                platform_fee_rate,
                liquidation_threshold,
                is_active,
            );
            let s = m.state->Some_0;
            &&& outcome.1 == Ok::<(), Error>(())
            &&& get_state_model(outcome.0) == Ok::<PlatformState, Error>(
                (PlatformState {
                    staking_apy: if staking_apy is Some {
                        staking_apy->Some_0
                    } else {
                        s.staking_apy
                    },
                    borrowing_apy: if borrowing_apy is Some {
                        borrowing_apy->Some_0
                    } else {
                        s.borrowing_apy
                    },
                    platform_fee_rate: if platform_fee_rate is Some {
                        platform_fee_rate->Some_0
                    } else {
                        s.platform_fee_rate
                    },
                    liquidation_threshold: if liquidation_threshold is Some {
                        liquidation_threshold->Some_0
                    } else {
                        s.liquidation_threshold
                    },
                    is_active: if is_active is Some {
                        is_active->Some_0
                    } else {
                        s.is_active
                    },
                    ..s
                }),
            )
        }),
{
}

} // verus!
