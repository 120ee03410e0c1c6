//! The two persisted records: pool metadata with running aggregates, and
//! one cumulative position per depositor.

use vstd::prelude::*;

verus! {

/// Singleton pool record: metadata chosen at initialization plus the
/// running aggregates the operations maintain.
#[derive(Debug)]
pub struct PoolInfo {
    pub name: String,
    pub charity: u64,
    /// Percentage of each distributed yield routed to the charity, 0 to 100.
    pub donation_percentage: u32,
    pub creator: u64,
    pub asset: u64,
    /// Lifetime gross deposits; monotonic, never decremented by withdrawals.
    pub total_deposited: i128,
    /// Yield retained by the pool after donations.
    pub total_yield: i128,
    /// Yield routed to the charity so far.
    pub total_donated: i128,
    pub is_active: bool,
}

impl PoolInfo {
    /// The pool-level invariant: the percentage is in range and no
    /// aggregate is ever negative.
    pub open spec fn wf(&self) -> bool {
        &&& self.donation_percentage <= 100
        &&& self.total_deposited >= 0
        &&& self.total_yield >= 0
        &&& self.total_donated >= 0
    }
}

/// One depositor's cumulative record. Created with zero fields on the first
/// deposit and never deleted: withdrawing to zero keeps the history
/// queryable.
#[derive(Clone, Copy, Debug, PartialEq, Eq, Structural)]
pub struct UserPosition {
    /// Cumulative amount ever deposited.
    pub deposited: i128,
    /// Cumulative amount ever withdrawn.
    pub withdrawn: i128,
    /// Reserved for a per-user yield attribution rule; no operation
    /// writes it.
    pub yield_earned: i128,
}

impl UserPosition {
    /// Available balance: the ceiling on permissible withdrawal.
    pub open spec fn spec_available(&self) -> int {
        self.deposited - self.withdrawn + self.yield_earned
    }

    /// The per-position invariant: fields never negative, and the
    /// available balance never negative.
    pub open spec fn wf(&self) -> bool {
        &&& self.deposited >= 0
        &&& self.withdrawn >= 0
        &&& self.yield_earned >= 0
        &&& self.withdrawn <= self.deposited + self.yield_earned
    }

    /// The record an identity with no deposits is read as.
    pub open spec fn spec_zero() -> UserPosition {
        UserPosition { deposited: 0, withdrawn: 0, yield_earned: 0 }
    }

    /// Builds the zero-valued position.
    pub fn zero() -> (r: UserPosition)
        ensures
            r == Self::spec_zero(),
    {
        UserPosition { deposited: 0, withdrawn: 0, yield_earned: 0 }
    }
}

} // verus!
