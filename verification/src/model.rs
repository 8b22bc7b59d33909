use vstd::prelude::*;

use crate::accrual::{
    adjusted_stake, adjustment_factor, collateral_ratio_bps, interest_owed, price_change_bps,
    staking_reward, usd_value, BPS_SCALE,
};
use crate::error::Error;
use crate::records::{BorrowingPosition, PlatformState, StakingPosition, StorageKey, YieldPool};

verus! {

/// Mathematical model of the four persisted records: the platform record,
/// the two position collections, and the yield pool. Every operation of the
/// store is specified as a transition on this model.
#[verifier::ext_equal]
pub struct PlatformModel {
    pub state: Option<PlatformState>,
    pub stakes: Map<u64, StakingPosition>,
    pub borrows: Map<u64, BorrowingPosition>,
    pub pool: Option<YieldPool>,
}

impl PlatformModel {
    /// The model of a store on which nothing has ever been persisted.
    pub open spec fn empty() -> PlatformModel {
        PlatformModel {
            state: None,
            stakes: Map::empty(),
            borrows: Map::empty(),
            pool: None,
        }
    }
}

/// A price reading is well formed when any value it carries is nonnegative:
/// oracle prices are nonnegative fixed-point USD values.
pub open spec fn price_ok(reading: Option<i128>) -> bool {
    match reading {
        Some(p) => 0 <= p,
        None => true,
    }
}

/// An optional configuration rate is well formed when any value it carries
/// is nonnegative: all rates and thresholds are basis-point quantities.
pub open spec fn rate_ok(rate: Option<i128>) -> bool {
    match rate {
        Some(r) => 0 <= r,
        None => true,
    }
}

/// Well-formedness of the model. Initialization establishes it and every
/// operation preserves it: rates, thresholds, prices, staked amounts,
/// collateral and the cumulative counters are nonnegative; an active
/// borrowing position has a positive balance; each position records its own
/// key as its user; and before initialization nothing is persisted at all.
pub open spec fn wf(m: PlatformModel) -> bool {
    &&& match m.state {
        Some(s) => {
            &&& 0 <= s.staking_apy
            &&& 0 <= s.borrowing_apy
            &&& 0 <= s.platform_fee_rate
            &&& 0 <= s.liquidation_threshold
            &&& 0 <= s.current_kale_price
            &&& 0 <= s.current_xlm_price
        },
        None => {
            &&& m.stakes =~= Map::<u64, StakingPosition>::empty()
            &&& m.borrows =~= Map::<u64, BorrowingPosition>::empty()
        },
    }
    &&& (m.state is Some <==> m.pool is Some)
    &&& forall|u: u64|
        m.stakes.contains_key(u) ==> {
            let p = #[trigger] m.stakes[u];
            &&& p.user == u
            &&& 0 <= p.kale_amount
            &&& 0 <= p.price_threshold
            &&& 0 <= p.last_adjustment_price
            &&& 0 <= p.total_earned
        }
    &&& forall|u: u64|
        m.borrows.contains_key(u) ==> {
            let p = #[trigger] m.borrows[u];
            &&& p.user == u
            &&& 0 <= p.collateral_amount
            &&& 0 <= p.interest_rate
            &&& 0 <= p.total_interest_paid
            &&& (p.is_active ==> 0 < p.borrowed_amount)
        }
}

/// Whether the named record exists. The platform record and the two position
/// collections are created together by initialization; the yield pool is
/// created by the same call.
pub open spec fn has_model(m: PlatformModel, key: StorageKey) -> bool {
    match key {
        StorageKey::PlatformState => m.state is Some,
        StorageKey::StakingPositions => m.state is Some,
        StorageKey::BorrowingPositions => m.state is Some,
        StorageKey::YieldPool => m.pool is Some,
    }
}

/// Transition of `initialize`: refused when a platform record already
/// exists; otherwise creates the platform record with zeroed aggregates and
/// zeroed cached prices, an empty yield pool, and empty position
/// collections, stamping both records with the host time.
pub open spec fn init_model(
    m: PlatformModel,
    admin: u64,
    kale_token: u64,
    xlm_token: u64,
    reflector_oracle: u64,
    staking_apy: i128,
    borrowing_apy: i128,
    platform_fee_rate: i128,
    liquidation_threshold: i128,
    now: u64,
) -> (PlatformModel, Result<(), Error>) {
    if m.state is Some {
        (m, Err(Error::AlreadyInitialized))
    } else {
        let state = PlatformState {
            admin,
            kale_token,
            xlm_token,
            reflector_oracle,
            total_staked: 0,
            total_borrowed: 0,
            total_collateral: 0,
            staking_apy,
            borrowing_apy,
            current_kale_price: 0,
            current_xlm_price: 0,
            last_price_update: now,
            platform_fee_rate,
            liquidation_threshold,
            is_active: true,
        };
        let pool = YieldPool {
            total_rewards_distributed: 0,
            staking_rewards: 0,
            borrowing_fees: 0,
            platform_fees: 0,
            last_distribution_time: now,
        };
        let m2 = PlatformModel {
            state: Some(state),
            stakes: Map::empty(),
            borrows: Map::empty(),
            pool: Some(pool),
        };
        (m2, Ok(()))
    }
}

/// Transition of `stake_kale`: rejects a non-positive amount, requires an
/// initialized and active platform and an available price reading, then
/// replaces the user's staking position wholesale with a fresh record,
/// refreshes the cached KALE price, and grows `total_staked` by the amount.
pub open spec fn stake_model(
    m: PlatformModel,
    user: u64,
    amount: i128,
    auto_adjust_enabled: bool,
    price_threshold_percent: u32,
    kale_price: Option<i128>,
    now: u64,
) -> (PlatformModel, Result<(), Error>) {
    if amount <= 0 {
        (m, Err(Error::InvalidAmount))
    } else {
        match m.state {
            None => (m, Err(Error::NotInitialized)),
            Some(s) => {
                if !s.is_active {
                    (m, Err(Error::PlatformInactive))
                } else {
                    match kale_price {
                        None => (m, Err(Error::PriceUnavailable)),
                        Some(p) => {
                            let pos = StakingPosition {
                                user,
                                kale_amount: amount,
                                start_time: now,
                                last_claim_time: now,
                                auto_adjust_enabled,
                                price_threshold: (price_threshold_percent * 100) as i128,
                                last_adjustment_price: p,
                                total_earned: 0,
                            };
                            let s2 = PlatformState {
                                total_staked: (s.total_staked + amount) as i128,
                                current_kale_price: p,
                                last_price_update: now,
                                ..s
                            };
                            let m2 = PlatformModel {
                                state: Some(s2),
                                stakes: m.stakes.insert(user, pos),
                                ..m
                            };
                            (m2, Ok(()))
                        },
                    }
                }
            },
        }
    }
}

/// Machine limit of `stake_kale`: on the path that commits, the grown
/// aggregate must fit in its field.
pub open spec fn stake_fits(m: PlatformModel, amount: i128, kale_price: Option<i128>) -> bool {
    (amount > 0 && m.state is Some && m.state->Some_0.is_active && kale_price is Some)
        ==> m.state->Some_0.total_staked + amount <= i128::MAX
}

/// Transition of `borrow_kale_with_xlm`: rejects non-positive amounts,
/// requires an initialized and active platform and both price readings,
/// values collateral and request in USD, rejects a zero borrow value and a
/// collateral ratio below the liquidation threshold, then creates or
/// replaces the user's borrowing position, grows the borrow and collateral
/// aggregates, and refreshes both cached prices.
pub open spec fn borrow_model(
    m: PlatformModel,
    user: u64,
    xlm_collateral_amount: i128,
    kale_borrow_amount: i128,
    kale_price: Option<i128>,
    xlm_price: Option<i128>,
    now: u64,
) -> (PlatformModel, Result<(), Error>) {
    if xlm_collateral_amount <= 0 || kale_borrow_amount <= 0 {
        (m, Err(Error::InvalidAmount))
    } else {
        match m.state {
            None => (m, Err(Error::NotInitialized)),
            Some(s) => {
                if !s.is_active {
                    (m, Err(Error::PlatformInactive))
                } else {
                    match (kale_price, xlm_price) {
                        (None, _) => (m, Err(Error::PriceUnavailable)),
                        (Some(_), None) => (m, Err(Error::PriceUnavailable)),
                        (Some(kp), Some(xp)) => {
                            let collateral_value = usd_value(xlm_collateral_amount as int, xp as int);
                            let borrow_value = usd_value(kale_borrow_amount as int, kp as int);
                            if borrow_value == 0 {
                                (m, Err(Error::InvalidAmount))
                            } else {
                                let ratio = collateral_ratio_bps(collateral_value, borrow_value);
                                if ratio < s.liquidation_threshold {
                                    (m, Err(Error::InsufficientCollateral))
                                } else {
                                    let pos = BorrowingPosition {
                                        user,
                                        borrowed_amount: kale_borrow_amount,
                                        collateral_amount: xlm_collateral_amount,
                                        borrow_time: now,
                                        interest_rate: s.borrowing_apy,
                                        last_payment_time: now,
                                        total_interest_paid: 0,
                                        is_active: true,
                                    };
                                    let s2 = PlatformState {
                                        total_borrowed: (s.total_borrowed + kale_borrow_amount) as i128,
                                        total_collateral: (s.total_collateral + xlm_collateral_amount) as i128,
                                        current_kale_price: kp,
                                        current_xlm_price: xp,
                                        last_price_update: now,
                                        ..s
                                    };
                                    let m2 = PlatformModel {
                                        state: Some(s2),
                                        borrows: m.borrows.insert(user, pos),
                                        ..m
                                    };
                                    (m2, Ok(()))
                                }
                            }
                        },
                    }
                }
            },
        }
    }
}

/// Machine limits of `borrow_kale_with_xlm`: the USD valuations, the ratio
/// numerator and, on the path that commits, the grown aggregates must fit.
pub open spec fn borrow_fits(
    m: PlatformModel,
    xlm_collateral_amount: i128,
    kale_borrow_amount: i128,
    kale_price: Option<i128>,
    xlm_price: Option<i128>,
) -> bool {
    (xlm_collateral_amount > 0 && kale_borrow_amount > 0 && m.state is Some
        && m.state->Some_0.is_active && kale_price is Some && xlm_price is Some) ==> {
        let s = m.state->Some_0;
        let kp = kale_price->Some_0;
        let xp = xlm_price->Some_0;
        let collateral_value = usd_value(xlm_collateral_amount as int, xp as int);
        let borrow_value = usd_value(kale_borrow_amount as int, kp as int);
        &&& xlm_collateral_amount * xp <= i128::MAX
        &&& kale_borrow_amount * kp <= i128::MAX
        &&& collateral_value * BPS_SCALE <= i128::MAX
        &&& ((borrow_value != 0 && collateral_ratio_bps(collateral_value, borrow_value)
            >= s.liquidation_threshold) ==> {
            &&& s.total_borrowed + kale_borrow_amount <= i128::MAX
            &&& s.total_collateral + xlm_collateral_amount <= i128::MAX
        })
    }
}

/// Transition of `repay_borrowed_kale`: rejects a non-positive amount,
/// requires an initialized platform and an existing, active position;
/// accrues the interest owed since the last payment, applies the smaller of
/// the requested amount and the full debt, stamps the payment time, and, if
/// the full debt is covered, closes the position — its stored balance is
/// then exactly zero — and releases its collateral from the aggregate. The
/// amount actually applied is returned and always leaves the borrow
/// aggregate.
pub open spec fn repay_model(m: PlatformModel, user: u64, repay_amount: i128, now: u64) -> (
    PlatformModel,
    Result<i128, Error>,
) {
    if repay_amount <= 0 {
        (m, Err(Error::InvalidAmount))
    } else {
        match m.state {
            None => (m, Err(Error::NotInitialized)),
            Some(s) => {
                if !m.borrows.contains_key(user) {
                    (m, Err(Error::PositionNotFound))
                } else {
                    let pos = m.borrows[user];
                    if !pos.is_active {
                        (m, Err(Error::PositionInactive))
                    } else {
                        let elapsed = now - pos.last_payment_time;
                        let interest = interest_owed(
                            pos.borrowed_amount as int,
                            pos.interest_rate as int,
                            elapsed,
                        );
                        let total_needed = pos.borrowed_amount + interest;
                        let actual = if repay_amount >= total_needed {
                            total_needed
                        } else {
                            repay_amount as int
                        };
                        let remaining = pos.borrowed_amount - actual;
                        let closes = remaining <= 0;
                        let pos2 = BorrowingPosition {
                            borrowed_amount: if closes {
                                0
                            } else {
                                remaining as i128
                            },
                            total_interest_paid: (pos.total_interest_paid + interest) as i128,
                            last_payment_time: now,
                            is_active: !closes,
                            ..pos
                        };
                        let s2 = PlatformState {
                            total_borrowed: (s.total_borrowed - actual) as i128,
                            total_collateral: if closes {
                                (s.total_collateral - pos.collateral_amount) as i128
                            } else {
                                s.total_collateral
                            },
                            ..s
                        };
                        let m2 = PlatformModel {
                            state: Some(s2),
                            borrows: m.borrows.insert(user, pos2),
                            ..m
                        };
                        (m2, Ok(actual as i128))
                    }
                }
            },
        }
    }
}

/// Machine limits of `repay_borrowed_kale` on the path that commits: the
/// payment time must not precede the host time (the host clock is monotone),
/// and the interest product, the full debt, the interest counter and the
/// shrunk aggregates must fit.
pub open spec fn repay_fits(m: PlatformModel, user: u64, repay_amount: i128, now: u64) -> bool {
    (repay_amount > 0 && m.state is Some && m.borrows.contains_key(user)
        && m.borrows[user].is_active) ==> {
        let s = m.state->Some_0;
        let pos = m.borrows[user];
        let elapsed = now - pos.last_payment_time;
        let interest = interest_owed(pos.borrowed_amount as int, pos.interest_rate as int, elapsed);
        let total_needed = pos.borrowed_amount + interest;
        let actual = if repay_amount >= total_needed {
            total_needed
        } else {
            repay_amount as int
        };
        &&& pos.last_payment_time <= now
        &&& pos.borrowed_amount * pos.interest_rate <= i128::MAX
        &&& pos.borrowed_amount * pos.interest_rate * elapsed <= i128::MAX
        &&& pos.borrowed_amount + interest <= i128::MAX
        &&& pos.total_interest_paid + interest <= i128::MAX
        &&& i128::MIN <= s.total_borrowed - actual
        &&& (pos.borrowed_amount - actual <= 0
            ==> i128::MIN <= s.total_collateral - pos.collateral_amount)
    }
}

/// Transition of `claim_staking_rewards`: requires an initialized platform,
/// an existing staking position and the yield pool; credits the reward
/// accrued since the last claim to the position and to the pool, stamps both
/// with the host time, and returns the reward.
pub open spec fn claim_model(m: PlatformModel, user: u64, now: u64) -> (
    PlatformModel,
    Result<i128, Error>,
) {
    match m.state {
        None => (m, Err(Error::NotInitialized)),
        Some(s) => {
            if !m.stakes.contains_key(user) {
                (m, Err(Error::PositionNotFound))
            } else {
                let pos = m.stakes[user];
                let elapsed = now - pos.last_claim_time;
                let rewards = staking_reward(pos.kale_amount as int, s.staking_apy as int, elapsed);
                match m.pool {
                    None => (m, Err(Error::NotInitialized)),
                    Some(pool) => {
                        let pos2 = StakingPosition {
                            last_claim_time: now,
                            total_earned: (pos.total_earned + rewards) as i128,
                            ..pos
                        };
                        let pool2 = YieldPool {
                            total_rewards_distributed: (pool.total_rewards_distributed
                                + rewards) as i128,
                            staking_rewards: (pool.staking_rewards + rewards) as i128,
                            last_distribution_time: now,
                            ..pool
                        };
                        let m2 = PlatformModel {
                            stakes: m.stakes.insert(user, pos2),
                            pool: Some(pool2),
                            ..m
                        };
                        (m2, Ok(rewards as i128))
                    },
                }
            }
        },
    }
}

/// Machine limits of `claim_staking_rewards` on the path that commits: the
/// last claim must not follow the host time (the host clock is monotone),
/// and the reward product and the grown cumulative counters must fit.
pub open spec fn claim_fits(m: PlatformModel, user: u64, now: u64) -> bool {
    (m.state is Some && m.stakes.contains_key(user) && m.pool is Some) ==> {
        let s = m.state->Some_0;
        let pos = m.stakes[user];
        let pool = m.pool->Some_0;
        let elapsed = now - pos.last_claim_time;
        let rewards = staking_reward(pos.kale_amount as int, s.staking_apy as int, elapsed);
        &&& pos.last_claim_time <= now
        &&& pos.kale_amount * s.staking_apy <= i128::MAX
        &&& pos.kale_amount * s.staking_apy * elapsed <= i128::MAX
        &&& pos.total_earned + rewards <= i128::MAX
        &&& pool.total_rewards_distributed + rewards <= i128::MAX
        &&& pool.staking_rewards + rewards <= i128::MAX
    }
}

/// Transition of `check_price_adjustments`: requires an initialized platform
/// and an existing staking position; a position with auto-adjustment
/// disabled is never touched and reports `false` without consulting the
/// price. Otherwise a reading is required, and the position is rescaled and
/// restamped exactly when the absolute basis-point price movement since the
/// last adjustment reaches the position's threshold.
pub open spec fn adjust_model(m: PlatformModel, user: u64, kale_price: Option<i128>) -> (
    PlatformModel,
    Result<bool, Error>,
) {
    match m.state {
        None => (m, Err(Error::NotInitialized)),
        Some(s) => {
            if !m.stakes.contains_key(user) {
                (m, Err(Error::PositionNotFound))
            } else {
                let pos = m.stakes[user];
                if !pos.auto_adjust_enabled {
                    (m, Ok(false))
                } else {
                    match kale_price {
                        None => (m, Err(Error::PriceUnavailable)),
                        Some(p) => {
                            let change = price_change_bps(p as int, pos.last_adjustment_price as int);
                            if vstd::math::abs(change) >= pos.price_threshold {
                                let pos2 = StakingPosition {
                                    kale_amount: adjusted_stake(pos.kale_amount as int, change) as i128,
                                    last_adjustment_price: p,
                                    ..pos
                                };
                                let m2 = PlatformModel { stakes: m.stakes.insert(user, pos2), ..m };
                                (m2, Ok(true))
                            } else {
                                (m, Ok(false))
                            }
                        },
                    }
                }
            }
        },
    }
}

/// Machine limits of `check_price_adjustments` on the path that rescales:
/// the scaled price difference and the rescaled stake must fit.
pub open spec fn adjust_fits(m: PlatformModel, user: u64, kale_price: Option<i128>) -> bool {
    (m.state is Some && m.stakes.contains_key(user) && m.stakes[user].auto_adjust_enabled
        && kale_price is Some) ==> {
        let pos = m.stakes[user];
        let p = kale_price->Some_0;
        let change = price_change_bps(p as int, pos.last_adjustment_price as int);
        &&& (p - pos.last_adjustment_price) * BPS_SCALE <= i128::MAX
        &&& i128::MIN <= (p - pos.last_adjustment_price) * BPS_SCALE
        &&& adjustment_factor(change) <= i128::MAX
        &&& pos.kale_amount * adjustment_factor(change) <= i128::MAX
    }
}

/// Transition of `update_platform_config`: requires an initialized platform
/// and the admin as caller, then applies exactly the provided optional
/// fields and leaves every other field unchanged.
pub open spec fn config_model(
    m: PlatformModel,
    caller: u64,
    staking_apy: Option<i128>,
    borrowing_apy: Option<i128>,
    platform_fee_rate: Option<i128>,
    liquidation_threshold: Option<i128>,
    is_active: Option<bool>,
) -> (PlatformModel, Result<(), Error>) {
    match m.state {
        None => (m, Err(Error::NotInitialized)),
        Some(s) => {
            if caller != s.admin {
                (m, Err(Error::Unauthorized))
            } else {
                let s2 = PlatformState {
                    staking_apy: match staking_apy {
                        Some(v) => v,
                        None => s.staking_apy,
                    },
                    borrowing_apy: match borrowing_apy {
                        Some(v) => v,
                        None => s.borrowing_apy,
                    },
                    platform_fee_rate: match platform_fee_rate {
                        Some(v) => v,
                        None => s.platform_fee_rate,
                    },
                    liquidation_threshold: match liquidation_threshold {
                        Some(v) => v,
                        None => s.liquidation_threshold,
                    },
                    is_active: match is_active {
                        Some(v) => v,
                        None => s.is_active,
                    },
                    ..s
                };
                (PlatformModel { state: Some(s2), ..m }, Ok(()))
            }
        },
    }
}

/// What `get_staking_position` returns: the user's record, or
/// `PositionNotFound`.
pub open spec fn get_staking_model(m: PlatformModel, user: u64) -> Result<StakingPosition, Error> {
    if m.stakes.contains_key(user) {
        Ok(m.stakes[user])
    } else {
        Err(Error::PositionNotFound)
    }
}

/// What `get_borrowing_position` returns: the user's record, or
/// `PositionNotFound`.
pub open spec fn get_borrowing_model(m: PlatformModel, user: u64) -> Result<
    BorrowingPosition,
    Error,
> {
    if m.borrows.contains_key(user) {
        Ok(m.borrows[user])
    } else {
        Err(Error::PositionNotFound)
    }
}

/// What `get_platform_state` returns: the platform record, or
/// `NotInitialized`.
pub open spec fn get_state_model(m: PlatformModel) -> Result<PlatformState, Error> {
    match m.state {
        Some(s) => Ok(s),
        None => Err(Error::NotInitialized),
    }
}

/// What `get_yield_pool` returns: the yield pool, or `NotInitialized`.
pub open spec fn get_pool_model(m: PlatformModel) -> Result<YieldPool, Error> {
    match m.pool {
        Some(p) => Ok(p),
        None => Err(Error::NotInitialized),
    }
}

/// What `get_current_kale_price` returns: the given oracle reading, behind
/// the requirement that the platform exists; `PriceUnavailable` when the
/// oracle had none.
pub open spec fn price_model(m: PlatformModel, kale_price: Option<i128>) -> Result<i128, Error> {
    match m.state {
        None => Err(Error::NotInitialized),
        Some(_) => match kale_price {
            Some(p) => Ok(p),
            None => Err(Error::PriceUnavailable),
        },
    }
}

} // verus!
