use vstd::prelude::*;

verus! {

/// Failure kinds of the platform operations. Every operation either completes
/// and commits all of its writes, or returns one of these and changes nothing.
#[derive(Clone, Copy, Debug, PartialEq, Eq, Structural)]
pub enum Error {
    /// `initialize` was called while a platform record already exists.
    AlreadyInitialized,
    /// An operation needed the platform record (or the yield pool) and none exists yet.
    NotInitialized,
    /// The global kill switch is off: `PlatformState.is_active` is false.
    PlatformInactive,
    /// A non-positive or otherwise malformed quantity was supplied.
    InvalidAmount,
    /// The addressed staking or borrowing position does not exist.
    PositionNotFound,
    /// The addressed borrowing position exists but has been closed.
    PositionInactive,
    /// The collateral ratio of the requested borrow is below the liquidation threshold.
    InsufficientCollateral,
    /// The price oracle had no reading for the asset.
    PriceUnavailable,
    /// The caller is not the platform admin.
    Unauthorized,
}

} // verus!
