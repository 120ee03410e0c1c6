//! The error taxonomy of the pool operations.

use vstd::prelude::*;

verus! {

/// Every way an operation can fail. Each operation returns one of these
/// explicitly; a failing operation leaves the state untouched.
#[derive(Clone, Copy, Debug, PartialEq, Eq, Structural)]
pub enum PoolError {
    /// `initialize` was called on a pool that already exists.
    AlreadyInitialized,
    /// A query needed pool metadata before `initialize` created it.
    NotInitialized,
    /// A configuration parameter is out of range (a donation percentage
    /// above one hundred).
    InvalidParameter,
    /// A deposit or withdrawal amount is not positive, or a yield amount
    /// is negative.
    InvalidAmount,
    /// A deposit was attempted while the pool is paused.
    PoolPaused,
    /// A withdrawal asked for more than the user's available balance.
    InsufficientBalance,
    /// A lifecycle or yield operation was attempted by an identity other
    /// than the pool creator.
    Unauthorized,
    /// The host reported that the required asset transfer did not complete.
    TransferFailed,
}

} // verus!
