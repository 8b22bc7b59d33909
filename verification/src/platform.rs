use vstd::prelude::*;

use std::collections::HashMap;

use crate::accrual::{
    compute_adjusted_stake, compute_collateral_ratio, compute_interest_owed,
    compute_price_change_bps, compute_staking_reward, compute_usd_value,
};
use crate::error::Error;
use crate::model::{
    adjust_fits, adjust_model, borrow_fits, borrow_model, claim_fits, claim_model, config_model,
    get_borrowing_model, get_pool_model, get_staking_model, get_state_model, has_model, init_model,
    price_model, price_ok, rate_ok, repay_fits, repay_model, stake_fits, stake_model,
    PlatformModel,
};
use crate::records::{BorrowingPosition, PlatformState, StakingPosition, StorageKey, YieldPool};

verus! {

broadcast use vstd::std_specs::hash::group_hash_axioms;

/// The store of the platform: the single platform record, the two keyed
/// position collections, and the yield pool. The host ledger owns the
/// persistence and the transactional commit; an operation on this store is
/// the in-memory read-modify-write that the host commits atomically, and it
/// writes nothing on any error path.
pub struct KaleLendingPlatform {
    /// The global platform record; absent until initialization.
    pub state: Option<PlatformState>,
    /// The staking positions, one per user.
    pub staking_positions: HashMap<u64, StakingPosition>,
    /// The borrowing positions, one per user.
    pub borrowing_positions: HashMap<u64, BorrowingPosition>,
    /// The yield-accounting record; absent until initialization.
    pub yield_pool: Option<YieldPool>,
}

impl View for KaleLendingPlatform {
    type V = PlatformModel;

    open spec fn view(&self) -> PlatformModel {
        PlatformModel {
            state: self.state,
            stakes: self.staking_positions@,
            borrows: self.borrowing_positions@,
            pool: self.yield_pool,
        }
    }
}

impl KaleLendingPlatform {
    /// Well-formedness of the store's contents; see [`crate::model::wf`].
    pub open spec fn wf(&self) -> bool {
        crate::model::wf(self@)
    }

    /// A store on which nothing has been persisted yet.
    pub fn new() -> (r: KaleLendingPlatform)
        ensures
            r@ =~= PlatformModel::empty(),
            r.wf(),
    {
        KaleLendingPlatform {
            state: None,
            staking_positions: HashMap::new(),
            borrowing_positions: HashMap::new(),
            yield_pool: None,
        }
    }

    /// Whether the named record exists.
    pub fn has(&self, key: &StorageKey) -> (r: bool)
        ensures
            r == has_model(self@, *key),
    {
        match key {
            StorageKey::PlatformState => self.state.is_some(),
            StorageKey::StakingPositions => self.state.is_some(),
            StorageKey::BorrowingPositions => self.state.is_some(),
            StorageKey::YieldPool => self.yield_pool.is_some(),
        }
    }

    /// Creates the platform record and the yield pool, with all aggregates
    /// and cached prices zeroed, the kill switch on, and both records
    /// stamped with the host time; fails with `AlreadyInitialized`, mutating
    /// nothing, when a platform record already exists.
    pub fn initialize(
        &mut self,
        admin: u64,
        kale_token: u64,
        xlm_token: u64,
        reflector_oracle: u64,
        staking_apy: i128,
        borrowing_apy: i128,
        platform_fee_rate: i128,
        liquidation_threshold: i128,
        now: u64,
    ) -> (r: Result<(), Error>)
        requires
            old(self).wf(),
            0 <= staking_apy,
            0 <= borrowing_apy,
            0 <= platform_fee_rate,
            0 <= liquidation_threshold,
        ensures
            final(self).wf(),
            final(self)@ =~= init_model(
                old(self)@,
                admin,
                kale_token,
                xlm_token,
                reflector_oracle,
                staking_apy,
                borrowing_apy,
                platform_fee_rate,
                liquidation_threshold,
                now,
            ).0,
            r == init_model(
                old(self)@,
                admin,
                kale_token,
                xlm_token,
                reflector_oracle,
                staking_apy,
                borrowing_apy,
                platform_fee_rate,
                liquidation_threshold,
                now,
            ).1,
            r is Ok <==> old(self)@.state is None,
            r is Err ==> final(self)@ == old(self)@,
    {
        if self.has(&StorageKey::PlatformState) {
            return Err(Error::AlreadyInitialized);
        }
        let state = PlatformState {
            admin,
            kale_token,
            xlm_token,
            reflector_oracle,
            total_staked: 0,
            total_borrowed: 0,
            total_collateral: 0,
            staking_apy,
            borrowing_apy,
            current_kale_price: 0,
            current_xlm_price: 0,
            last_price_update: now,
            platform_fee_rate,
            liquidation_threshold,
            is_active: true,
        };
        let yield_pool = YieldPool {
            total_rewards_distributed: 0,
            staking_rewards: 0,
            borrowing_fees: 0,
            platform_fees: 0,
            last_distribution_time: now,
        };
        self.state = Some(state);
        self.yield_pool = Some(yield_pool);
        self.staking_positions = HashMap::new();
        self.borrowing_positions = HashMap::new();
        Ok(())
    }

    /// Replaces the user's staking position wholesale with a fresh record of
    /// the given amount, refreshes the cached KALE price from the reading,
    /// and grows `total_staked` by the amount. The percent threshold is
    /// recorded in basis points.
    pub fn stake_kale(
        &mut self,
        user: u64,
        amount: i128,
        auto_adjust_enabled: bool,
        price_threshold_percent: u32,
        kale_price: Option<i128>,
        now: u64,
    ) -> (r: Result<(), Error>)
        requires
            old(self).wf(),
            price_ok(kale_price),
            stake_fits(old(self)@, amount, kale_price),
        ensures
            final(self).wf(),
            final(self)@ =~= stake_model(
                old(self)@,
                user,
                amount,
                auto_adjust_enabled,
                price_threshold_percent,
                kale_price,
                now,
            ).0,
            r == stake_model(
                old(self)@,
                user,
                amount,
                auto_adjust_enabled,
                price_threshold_percent,
                kale_price,
                now,
            ).1,
            r is Ok <==> (amount > 0 && old(self)@.state is Some
                && old(self)@.state->Some_0.is_active && kale_price is Some),
            r is Err ==> final(self)@ == old(self)@,
    {
        if amount <= 0 {
            return Err(Error::InvalidAmount);
        }
        let state = match self.state {
            Some(s) => s,
            None => return Err(Error::NotInitialized),
        };
        if !state.is_active {
            return Err(Error::PlatformInactive);
        }
        let current_price = match kale_price {
            Some(p) => p,
            None => return Err(Error::PriceUnavailable),
        };
        let position = StakingPosition {
            user,
            kale_amount: amount,
            start_time: now,
            last_claim_time: now,
            auto_adjust_enabled,
            price_threshold: (price_threshold_percent as i128) * 100,
            last_adjustment_price: current_price,
            total_earned: 0,
        };
        let new_state = PlatformState {
            total_staked: state.total_staked + amount,
            current_kale_price: current_price,
            last_price_update: now,
            ..state
        };
        self.staking_positions.insert(user, position);
        self.state = Some(new_state);
        Ok(())
    }

    /// Opens (or replaces) a borrowing position: values the collateral and
    /// the request in USD at the given readings, refuses the borrow when the
    /// collateral ratio is below the liquidation threshold, and otherwise
    /// records the position, grows the borrow and collateral aggregates, and
    /// refreshes both cached prices.
    pub fn borrow_kale_with_xlm(
        &mut self,
        user: u64,
        xlm_collateral_amount: i128,
        kale_borrow_amount: i128,
        kale_price: Option<i128>,
        xlm_price: Option<i128>,
        now: u64,
    ) -> (r: Result<(), Error>)
        requires
            old(self).wf(),
            price_ok(kale_price),
            price_ok(xlm_price),
            borrow_fits(old(self)@, xlm_collateral_amount, kale_borrow_amount, kale_price, xlm_price),
        ensures
            final(self).wf(),
            final(self)@ =~= borrow_model(
                old(self)@,
                user,
                xlm_collateral_amount,
                kale_borrow_amount,
                kale_price,
                xlm_price,
                now,
            ).0,
            r == borrow_model(
                old(self)@,
                user,
                xlm_collateral_amount,
                kale_borrow_amount,
                kale_price,
                xlm_price,
                now,
            ).1,
            r is Ok <==> (xlm_collateral_amount > 0 && kale_borrow_amount > 0
                && old(self)@.state is Some && old(self)@.state->Some_0.is_active
                && kale_price is Some && xlm_price is Some
                && crate::accrual::usd_value(
                kale_borrow_amount as int,
                kale_price->Some_0 as int,
            ) != 0
                && crate::accrual::collateral_ratio_bps(
                crate::accrual::usd_value(xlm_collateral_amount as int, xlm_price->Some_0 as int),
                crate::accrual::usd_value(kale_borrow_amount as int, kale_price->Some_0 as int),
            ) >= old(self)@.state->Some_0.liquidation_threshold),
            r is Err ==> final(self)@ == old(self)@,
    {
        if xlm_collateral_amount <= 0 || kale_borrow_amount <= 0 {
            return Err(Error::InvalidAmount);
        }
        let state = match self.state {
            Some(s) => s,
            None => return Err(Error::NotInitialized),
        };
        if !state.is_active {
            return Err(Error::PlatformInactive);
        }
        let kale_price_usd = match kale_price {
            Some(p) => p,
            None => return Err(Error::PriceUnavailable),
        };
        let xlm_price_usd = match xlm_price {
            Some(p) => p,
            None => return Err(Error::PriceUnavailable),
        };
        let collateral_value = compute_usd_value(xlm_collateral_amount, xlm_price_usd);
        let borrow_value = compute_usd_value(kale_borrow_amount, kale_price_usd);
        if borrow_value == 0 {
            return Err(Error::InvalidAmount);
        }
        let collateral_ratio = compute_collateral_ratio(collateral_value, borrow_value);
        if collateral_ratio < state.liquidation_threshold {
            return Err(Error::InsufficientCollateral);
        }
        let position = BorrowingPosition {
            user,
            borrowed_amount: kale_borrow_amount,
            collateral_amount: xlm_collateral_amount,
            borrow_time: now,
            interest_rate: state.borrowing_apy,
            last_payment_time: now,
            total_interest_paid: 0,
            is_active: true,
        };
        let new_state = PlatformState {
            total_borrowed: state.total_borrowed + kale_borrow_amount,
            total_collateral: state.total_collateral + xlm_collateral_amount,
            current_kale_price: kale_price_usd,
            current_xlm_price: xlm_price_usd,
            last_price_update: now,
            ..state
        };
        self.borrowing_positions.insert(user, position);
        self.state = Some(new_state);
        Ok(())
    }

    /// Repays borrowed KALE: accrues the interest owed since the last
    /// payment, applies the smaller of the requested amount and the full
    /// debt, and returns the amount actually applied. Covering the full debt
    /// closes the position — its stored balance is then exactly zero — and
    /// releases its collateral from the aggregate.
    pub fn repay_borrowed_kale(&mut self, user: u64, repay_amount: i128, now: u64) -> (r: Result<
        i128,
        Error,
    >)
        requires
            old(self).wf(),
            repay_fits(old(self)@, user, repay_amount, now),
        ensures
            final(self).wf(),
            final(self)@ =~= repay_model(old(self)@, user, repay_amount, now).0,
            r == repay_model(old(self)@, user, repay_amount, now).1,
            r is Ok <==> (repay_amount > 0 && old(self)@.state is Some
                && old(self)@.borrows.contains_key(user) && old(self)@.borrows[user].is_active),
            r is Err ==> final(self)@ == old(self)@,
    {
        if repay_amount <= 0 {
            return Err(Error::InvalidAmount);
        }
        let state = match self.state {
            Some(s) => s,
            None => return Err(Error::NotInitialized),
        };
        let position = match self.borrowing_positions.get(&user) {
            Some(p) => *p,
            None => return Err(Error::PositionNotFound),
        };
        if !position.is_active {
            return Err(Error::PositionInactive);
        }
        let time_elapsed: i128 = (now - position.last_payment_time) as i128;
        let interest_owed = compute_interest_owed(
            position.borrowed_amount,
            position.interest_rate,
            time_elapsed,
        );
        let total_repay_needed = position.borrowed_amount + interest_owed;
        let actual_repay = if repay_amount >= total_repay_needed {
            total_repay_needed
        } else {
            repay_amount
        };
        let remaining = position.borrowed_amount - actual_repay;
        let closes = remaining <= 0;
        let new_position = BorrowingPosition {
            borrowed_amount: if closes {
                0
            } else {
                remaining
            },
            total_interest_paid: position.total_interest_paid + interest_owed,
            last_payment_time: now,
            is_active: !closes,
            ..position
        };
        let new_state = PlatformState {
            total_borrowed: state.total_borrowed - actual_repay,
            total_collateral: if closes {
                state.total_collateral - position.collateral_amount
            } else {
                state.total_collateral
            },
            ..state
        };
        self.borrowing_positions.insert(user, new_position);
        self.state = Some(new_state);
        Ok(actual_repay)
    }

    /// Credits the reward accrued since the last claim to the user's
    /// position and to the yield pool, stamps both with the host time, and
    /// returns the reward.
    pub fn claim_staking_rewards(&mut self, user: u64, now: u64) -> (r: Result<i128, Error>)
        requires
            old(self).wf(),
            claim_fits(old(self)@, user, now),
        ensures
            final(self).wf(),
            final(self)@ =~= claim_model(old(self)@, user, now).0,
            r == claim_model(old(self)@, user, now).1,
            r is Ok <==> (old(self)@.state is Some && old(self)@.stakes.contains_key(user)
                && old(self)@.pool is Some),
            r is Err ==> final(self)@ == old(self)@,
    {
        let state = match self.state {
            Some(s) => s,
            None => return Err(Error::NotInitialized),
        };
        let position = match self.staking_positions.get(&user) {
            Some(p) => *p,
            None => return Err(Error::PositionNotFound),
        };
        let time_staked: i128 = (now - position.last_claim_time) as i128;
        let rewards = compute_staking_reward(position.kale_amount, state.staking_apy, time_staked);
        let pool = match self.yield_pool {
            Some(p) => p,
            None => return Err(Error::NotInitialized),
        };
        let new_position = StakingPosition {
            last_claim_time: now,
            total_earned: position.total_earned + rewards,
            ..position
        };
        let new_pool = YieldPool {
            total_rewards_distributed: pool.total_rewards_distributed + rewards,
            staking_rewards: pool.staking_rewards + rewards,
            last_distribution_time: now,
            ..pool
        };
        self.staking_positions.insert(user, new_position);
        self.yield_pool = Some(new_pool);
        Ok(rewards)
    }

    /// Rescales the user's staking position when the absolute basis-point
    /// price movement since the last adjustment reaches the position's
    /// threshold, and reports whether it did; a position with
    /// auto-adjustment disabled is never touched.
    pub fn check_price_adjustments(&mut self, user: u64, kale_price: Option<i128>) -> (r: Result<
        bool,
        Error,
    >)
        requires
            old(self).wf(),
            price_ok(kale_price),
            adjust_fits(old(self)@, user, kale_price),
        ensures
            final(self).wf(),
            final(self)@ =~= adjust_model(old(self)@, user, kale_price).0,
            r == adjust_model(old(self)@, user, kale_price).1,
            r is Err ==> final(self)@ == old(self)@,
            (old(self)@.stakes.contains_key(user)
                && !old(self)@.stakes[user].auto_adjust_enabled) ==> (final(self)@ == old(self)@
                && r == Ok::<bool, Error>(false)),
    {
        let state = match self.state {
            Some(s) => s,
            None => return Err(Error::NotInitialized),
        };
        let position = match self.staking_positions.get(&user) {
            Some(p) => *p,
            None => return Err(Error::PositionNotFound),
        };
        if !position.auto_adjust_enabled {
            return Ok(false);
        }
        let current_price = match kale_price {
            Some(p) => p,
            None => return Err(Error::PriceUnavailable),
        };
        let price_change = compute_price_change_bps(current_price, position.last_adjustment_price);
        let abs_change = if price_change >= 0 {
            price_change
        } else {
            -price_change
        };
        if abs_change >= position.price_threshold {
            let new_amount = compute_adjusted_stake(position.kale_amount, price_change);
            let new_position = StakingPosition {
                kale_amount: new_amount,
                last_adjustment_price: current_price,
                ..position
            };
            self.staking_positions.insert(user, new_position);
            return Ok(true);
        }
        Ok(false)
    }

    /// Hands back the given oracle reading once the platform exists;
    /// `PriceUnavailable` when the oracle had none.
    pub fn get_current_kale_price(&self, kale_price: Option<i128>) -> (r: Result<i128, Error>)
        ensures
            r == price_model(self@, kale_price),
    {
        match self.state {
            Some(_) => match kale_price {
                Some(p) => Ok(p),
                None => Err(Error::PriceUnavailable),
            },
            None => Err(Error::NotInitialized),
        }
    }

    /// The user's staking position, or `PositionNotFound`.
    pub fn get_staking_position(&self, user: u64) -> (r: Result<StakingPosition, Error>)
        ensures
            r == get_staking_model(self@, user),
    {
        match self.staking_positions.get(&user) {
            Some(p) => Ok(*p),
            None => Err(Error::PositionNotFound),
        }
    }

    /// The user's borrowing position, or `PositionNotFound`.
    pub fn get_borrowing_position(&self, user: u64) -> (r: Result<BorrowingPosition, Error>)
        ensures
            r == get_borrowing_model(self@, user),
    {
        match self.borrowing_positions.get(&user) {
            Some(p) => Ok(*p),
            None => Err(Error::PositionNotFound),
        }
    }

    /// The platform record, or `NotInitialized`.
    pub fn get_platform_state(&self) -> (r: Result<PlatformState, Error>)
        ensures
            r == get_state_model(self@),
    {
        match self.state {
            Some(s) => Ok(s),
            None => Err(Error::NotInitialized),
        }
    }

    /// The yield pool, or `NotInitialized`.
    pub fn get_yield_pool(&self) -> (r: Result<YieldPool, Error>)
        ensures
            r == get_pool_model(self@),
    {
        match self.yield_pool {
            Some(p) => Ok(p),
            None => Err(Error::NotInitialized),
        }
    }

    /// Applies the provided optional configuration fields and leaves every
    /// other field unchanged. Only the admin may call this.
    pub fn update_platform_config(
        &mut self,
        caller: u64,
        staking_apy: Option<i128>,
        borrowing_apy: Option<i128>,
        platform_fee_rate: Option<i128>,
        liquidation_threshold: Option<i128>,
        is_active: Option<bool>,
    ) -> (r: Result<(), Error>)
        requires
            old(self).wf(),
            rate_ok(staking_apy),
            rate_ok(borrowing_apy),
            rate_ok(platform_fee_rate),
            rate_ok(liquidation_threshold),
        ensures
            final(self).wf(),
            final(self)@ =~= config_model(
                old(self)@,
                caller,
                staking_apy,
                borrowing_apy,
                platform_fee_rate,
                liquidation_threshold,
                is_active,
            ).0,
            r == config_model(
                old(self)@,
                caller,
                staking_apy,
                borrowing_apy,
                platform_fee_rate,
                liquidation_threshold,
                is_active,
            ).1,
            r is Ok <==> (old(self)@.state is Some && caller == old(self)@.state->Some_0.admin),
            r is Err ==> final(self)@ == old(self)@,
    {
        let state = match self.state {
            Some(s) => s,
            None => return Err(Error::NotInitialized),
        };
        if caller != state.admin {
            return Err(Error::Unauthorized);
        }
        let new_state = PlatformState {
            staking_apy: match staking_apy {
                Some(v) => v,
                None => state.staking_apy,
            },
            borrowing_apy: match borrowing_apy {
                Some(v) => v,
                None => state.borrowing_apy,
            },
            platform_fee_rate: match platform_fee_rate {
                Some(v) => v,
                None => state.platform_fee_rate,
            },
            liquidation_threshold: match liquidation_threshold {
                Some(v) => v,
                None => state.liquidation_threshold,
            },
            is_active: match is_active {
                Some(v) => v,
                None => state.is_active,
            },
            ..state
        };
        self.state = Some(new_state);
        Ok(())
    }
}

} // verus!
