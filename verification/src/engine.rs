//! The accounting engine: an explicit state object and the operation set
//! that mutates it.
//!
//! The host around the engine authenticates callers, moves asset value and
//! publishes events. The engine decides: each value-moving operation has an
//! intent function that says which transfer the host must perform, and the
//! operation itself takes the outcome of that transfer as an input and
//! commits the state change atomically, or returns an error and changes
//! nothing.

use std::collections::HashMap;
use vstd::prelude::*;

use crate::errors::PoolError;
use crate::records::PoolInfo;
use crate::records::UserPosition;
use crate::yield_split::donation_of;
use crate::yield_split::lemma_donation_split;
use crate::yield_split::remaining_of;

verus! {

broadcast use vstd::std_specs::hash::group_hash_axioms;

/// One side of an asset transfer: a user or charity account, or the
/// pool's own custody.
#[derive(Clone, Copy, Debug, PartialEq, Eq, Structural)]
pub enum Party {
    Account(u64),
    Custody,
}

/// A transfer the host must perform on the asset ledger before an
/// operation may commit.
#[derive(Clone, Copy, Debug, PartialEq, Eq, Structural)]
pub struct TransferIntent {
    pub from: Party,
    pub to: Party,
    pub amount: i128,
}

/// The pool's whole accounting state: the singleton metadata record and
/// one position per depositor, keyed by identity.
pub struct ImpactPoolContract {
    created: bool,
    info: PoolInfo,
    positions: HashMap<u64, UserPosition>,
}

impl ImpactPoolContract {
    /// Whether `initialize` has created the pool record.
    pub closed spec fn initialized(&self) -> bool {
        self.created
    }

    /// The pool record; meaningful only once `initialized()` holds.
    pub closed spec fn pool(&self) -> PoolInfo {
        self.info
    }

    /// The stored positions, keyed by user identity.
    pub closed spec fn positions(&self) -> Map<u64, UserPosition> {
        self.positions@
    }

    /// The position an identity is read as: its stored record, or the
    /// zero-valued one if it never deposited.
    pub open spec fn position(&self, user: u64) -> UserPosition {
        if self.positions().contains_key(user) {
            self.positions()[user]
        } else {
            UserPosition::spec_zero()
        }
    }

    /// The identity's available balance: deposited minus withdrawn plus
    /// attributed yield.
    pub open spec fn available(&self, user: u64) -> int {
        self.position(user).spec_available()
    }

    /// The state invariant every operation preserves: the pool record is
    /// well formed, no position exists before the pool does, and each
    /// position is well formed with its gross deposits bounded by the
    /// pool's lifetime total.
    pub open spec fn wf(&self) -> bool {
        &&& self.initialized() ==> self.pool().wf()
        &&& !self.initialized() ==> self.positions().dom() =~= Set::empty()
        &&& forall|u: u64|
            #[trigger] self.positions().contains_key(u) ==> self.positions()[u].wf()
                && self.positions()[u].deposited + self.positions()[u].yield_earned
                <= self.pool().total_deposited
    }

    /// Builds an empty, uninitialized pool state.
    pub fn new() -> (r: ImpactPoolContract)
        ensures
            r.wf(),
            !r.initialized(),
            forall|u: u64| r.position(u) == UserPosition::spec_zero(),
    {
        ImpactPoolContract {
            created: false,
            info: PoolInfo {
                name: String::new(),
                charity: 0,
                donation_percentage: 0,
                creator: 0,
                asset: 0,
                total_deposited: 0,
                total_yield: 0,
                total_donated: 0,
                is_active: false,
            },
            positions: HashMap::new(),
        }
    }

    /// Creates the pool record, exactly once. A second call mutates
    /// nothing and reports AlreadyInitialized; a percentage above one
    /// hundred is rejected as InvalidParameter. On success every aggregate
    /// starts at zero and the pool is active.
    pub fn initialize(
        &mut self,
        name: String,
        charity: u64,
        donation_percentage: u32,
        creator: u64,
        asset: u64,
    ) -> (r: Result<(), PoolError>)
        requires
            old(self).wf(),
        ensures
            final(self).wf(),
            old(self).initialized() ==> r == Err::<(), PoolError>(PoolError::AlreadyInitialized)
                && *final(self) == *old(self),
            !old(self).initialized() && donation_percentage > 100 ==> r == Err::<(), PoolError>(
                PoolError::InvalidParameter,
            ) && *final(self) == *old(self),
            !old(self).initialized() && donation_percentage <= 100 ==> {
                &&& r == Ok::<(), PoolError>(())
                &&& final(self).initialized()
                &&& final(self).pool().name@ == name@
                &&& final(self).pool().charity == charity
                &&& final(self).pool().donation_percentage == donation_percentage
                &&& final(self).pool().creator == creator
                &&& final(self).pool().asset == asset
                &&& final(self).pool().total_deposited == 0
                &&& final(self).pool().total_yield == 0
                &&& final(self).pool().total_donated == 0
                &&& final(self).pool().is_active
                &&& forall|u: u64| final(self).position(u) == UserPosition::spec_zero()
            },
    {
        if self.created {
            return Err(PoolError::AlreadyInitialized);
        }
        if donation_percentage > 100 {
            return Err(PoolError::InvalidParameter);
        }
        self.info = PoolInfo {
            name,
            charity,
            donation_percentage,
            creator,
            asset,
            total_deposited: 0,
            total_yield: 0,
            total_donated: 0,
            is_active: true,
        };
        self.created = true;
        Ok(())
    }

    /// Whether a deposit of `amount` passes every check the engine can
    /// decide on its own: the amount is positive and the pool is active.
    pub open spec fn can_deposit(&self, amount: i128) -> bool {
        amount > 0 && self.pool().is_active
    }

    /// The transfer a deposit needs, or the error that rejects it before
    /// any value moves: the amount must be positive and the pool active;
    /// then the host must move `amount` from the user to pool custody.
    pub fn deposit_intent(&self, user: u64, amount: i128) -> (r: Result<
        TransferIntent,
        PoolError,
    >)
        requires
            self.initialized(),
        ensures
            amount <= 0 ==> r == Err::<TransferIntent, PoolError>(PoolError::InvalidAmount),
            amount > 0 && !self.pool().is_active ==> r == Err::<TransferIntent, PoolError>(
                PoolError::PoolPaused,
            ),
            self.can_deposit(amount) ==> r == Ok::<TransferIntent, PoolError>(
                TransferIntent { from: Party::Account(user), to: Party::Custody, amount },
            ),
            r is Ok <==> self.can_deposit(amount),
    {
        if amount <= 0 {
            return Err(PoolError::InvalidAmount);
        }
        if !self.info.is_active {
            return Err(PoolError::PoolPaused);
        }
        Ok(TransferIntent { from: Party::Account(user), to: Party::Custody, amount })
    }

    /// Commits a deposit, given the outcome of the transfer named by
    /// `deposit_intent`. Succeeds exactly when the amount is positive, the
    /// pool is active and the transfer completed; then the user's
    /// cumulative deposits, the pool's lifetime total and the user's
    /// available balance each grow by exactly the amount, and nothing else
    /// changes. On any error the state is untouched. Returns the pool's
    /// new lifetime total.
    pub fn deposit(&mut self, user: u64, amount: i128, transfer_completed: bool) -> (r: Result<
        i128,
        PoolError,
    >)
        requires
            old(self).wf(),
            old(self).initialized(),
            old(self).can_deposit(amount) && transfer_completed ==> old(
                self,
            ).pool().total_deposited + amount <= i128::MAX,
        ensures
            final(self).wf(),
            final(self).initialized(),
            r is Ok <==> old(self).can_deposit(amount) && transfer_completed,
            amount <= 0 ==> r == Err::<i128, PoolError>(PoolError::InvalidAmount) && *final(self)
                == *old(self),
            amount > 0 && !old(self).pool().is_active ==> r == Err::<i128, PoolError>(
                PoolError::PoolPaused,
            ) && *final(self) == *old(self),
            old(self).can_deposit(amount) && !transfer_completed ==> r == Err::<i128, PoolError>(
                PoolError::TransferFailed,
            ) && *final(self) == *old(self),
            old(self).can_deposit(amount) && transfer_completed ==> {
                &&& r == Ok::<i128, PoolError>(
                    (old(self).pool().total_deposited + amount) as i128,
                )
                &&& final(self).position(user).deposited == old(self).position(user).deposited
                    + amount
                &&& final(self).position(user).withdrawn == old(self).position(user).withdrawn
                &&& final(self).position(user).yield_earned == old(self).position(
                    user,
                ).yield_earned
                &&& final(self).available(user) == old(self).available(user) + amount
                &&& final(self).pool().total_deposited == old(self).pool().total_deposited
                    + amount
                &&& final(self).pool() == (PoolInfo {
                    total_deposited: (old(self).pool().total_deposited + amount) as i128,
                    ..old(self).pool()
                })
                &&& forall|v: u64| v != user ==> final(self).position(v) == old(self).position(v)
            },
    {
        if amount <= 0 {
            return Err(PoolError::InvalidAmount);
        }
        if !self.info.is_active {
            return Err(PoolError::PoolPaused);
        }
        if !transfer_completed {
            return Err(PoolError::TransferFailed);
        }
        let mut position = self.get_user_position(user);
        position.deposited = position.deposited + amount;
        self.positions.insert(user, position);
        self.info.total_deposited = self.info.total_deposited + amount;
        Ok(self.info.total_deposited)
    }

    /// Whether a withdrawal of `amount` passes every check the engine can
    /// decide on its own: the amount is positive and within the user's
    /// available balance.
    pub open spec fn can_withdraw(&self, user: u64, amount: i128) -> bool {
        amount > 0 && amount <= self.available(user)
    }

    /// The transfer a withdrawal needs, or the error that rejects it
    /// before any value moves: the amount must be positive and within the
    /// user's available balance; then the host must move `amount` from
    /// pool custody to the user. An identity with no deposits has
    /// available balance zero, so any positive request is rejected as
    /// InsufficientBalance.
    pub fn withdraw_intent(&self, user: u64, amount: i128) -> (r: Result<
        TransferIntent,
        PoolError,
    >)
        requires
            self.wf(),
            self.initialized(),
        ensures
            amount <= 0 ==> r == Err::<TransferIntent, PoolError>(PoolError::InvalidAmount),
            amount > 0 && amount > self.available(user) ==> r == Err::<TransferIntent, PoolError>(
                PoolError::InsufficientBalance,
            ),
            self.can_withdraw(user, amount) ==> r == Ok::<TransferIntent, PoolError>(
                TransferIntent { from: Party::Custody, to: Party::Account(user), amount },
            ),
            r is Ok <==> self.can_withdraw(user, amount),
    {
        if amount <= 0 {
            return Err(PoolError::InvalidAmount);
        }
        if amount > self.get_user_balance(user) {
            return Err(PoolError::InsufficientBalance);
        }
        Ok(TransferIntent { from: Party::Custody, to: Party::Account(user), amount })
    }

    /// Commits a withdrawal, given the outcome of the transfer named by
    /// `withdraw_intent`. Succeeds exactly when the amount is positive,
    /// no more than the user's available balance beforehand, and the
    /// transfer completed; then the user's cumulative withdrawals grow by
    /// exactly the amount, the available balance shrinks by exactly the
    /// amount, and nothing else changes — the pool's lifetime deposit
    /// total is gross and stays put. On any error the state is untouched.
    /// Returns the user's new available balance.
    pub fn withdraw(&mut self, user: u64, amount: i128, transfer_completed: bool) -> (r: Result<
        i128,
        PoolError,
    >)
        requires
            old(self).wf(),
            old(self).initialized(),
        ensures
            final(self).wf(),
            final(self).initialized(),
            r is Ok <==> old(self).can_withdraw(user, amount) && transfer_completed,
            amount <= 0 ==> r == Err::<i128, PoolError>(PoolError::InvalidAmount) && *final(self)
                == *old(self),
            amount > 0 && amount > old(self).available(user) ==> r == Err::<i128, PoolError>(
                PoolError::InsufficientBalance,
            ) && *final(self) == *old(self),
            old(self).can_withdraw(user, amount) && !transfer_completed ==> r == Err::<
                i128,
                PoolError,
            >(PoolError::TransferFailed) && *final(self) == *old(self),
            old(self).can_withdraw(user, amount) && transfer_completed ==> {
                &&& r == Ok::<i128, PoolError>((old(self).available(user) - amount) as i128)
                &&& final(self).position(user).withdrawn == old(self).position(user).withdrawn
                    + amount
                &&& final(self).position(user).deposited == old(self).position(user).deposited
                &&& final(self).position(user).yield_earned == old(self).position(
                    user,
                ).yield_earned
                &&& final(self).available(user) == old(self).available(user) - amount
                &&& final(self).pool() == old(self).pool()
                &&& forall|v: u64| v != user ==> final(self).position(v) == old(self).position(v)
            },
    {
        if amount <= 0 {
            return Err(PoolError::InvalidAmount);
        }
        let mut position = self.get_user_position(user);
        let available = position.deposited - position.withdrawn + position.yield_earned;
        if amount > available {
            return Err(PoolError::InsufficientBalance);
        }
        if !transfer_completed {
            return Err(PoolError::TransferFailed);
        }
        position.withdrawn = position.withdrawn + amount;
        self.positions.insert(user, position);
        Ok(available - amount)
    }

    /// Whether a yield distribution passes every check the engine can
    /// decide on its own: the caller is the pool creator and the amount
    /// is not negative.
    pub open spec fn can_distribute(&self, admin: u64, yield_amount: i128) -> bool {
        admin == self.pool().creator && yield_amount >= 0
    }

    /// The donation a yield distribution owes the charity, as the engine
    /// computes it from this pool's percentage.
    pub open spec fn donation_for(&self, yield_amount: i128) -> int {
        donation_of(yield_amount as int, self.pool().donation_percentage as int)
    }

    /// The transfer a yield distribution needs, or the error that rejects
    /// it before any value moves. Only the pool creator may distribute;
    /// the amount must not be negative. The donation is
    /// `floor(yield_amount * donation_percentage / 100)`; when it is
    /// positive the host must move it from pool custody to the charity,
    /// and when it is zero no transfer is needed.
    pub fn distribute_yield_intent(&self, admin: u64, yield_amount: i128) -> (r: Result<
        Option<TransferIntent>,
        PoolError,
    >)
        requires
            self.wf(),
            self.initialized(),
            self.can_distribute(admin, yield_amount) ==> yield_amount * (
            self.pool().donation_percentage as i128) <= i128::MAX,
        ensures
            admin != self.pool().creator ==> r == Err::<Option<TransferIntent>, PoolError>(
                PoolError::Unauthorized,
            ),
            admin == self.pool().creator && yield_amount < 0 ==> r == Err::<
                Option<TransferIntent>,
                PoolError,
            >(PoolError::InvalidAmount),
            self.can_distribute(admin, yield_amount) && self.donation_for(yield_amount) > 0 ==> r
                == Ok::<Option<TransferIntent>, PoolError>(
                Some(
                    TransferIntent {
                        from: Party::Custody,
                        to: Party::Account(self.pool().charity),
                        amount: self.donation_for(yield_amount) as i128,
                    },
                ),
            ),
            self.can_distribute(admin, yield_amount) && self.donation_for(yield_amount) == 0 ==> r
                == Ok::<Option<TransferIntent>, PoolError>(None),
            r is Ok <==> self.can_distribute(admin, yield_amount),
    {
        if admin != self.info.creator {
            return Err(PoolError::Unauthorized);
        }
        if yield_amount < 0 {
            return Err(PoolError::InvalidAmount);
        }
        proof {
            lemma_donation_split(yield_amount as int, self.pool().donation_percentage as int);
        }
        let donation = (yield_amount * (self.info.donation_percentage as i128)) / 100;
        if donation > 0 {
            Ok(
                Some(
                    TransferIntent {
                        from: Party::Custody,
                        to: Party::Account(self.info.charity),
                        amount: donation,
                    },
                ),
            )
        } else {
            Ok(None)
        }
    }

    /// Commits a yield distribution, given the outcome of the donation
    /// transfer named by `distribute_yield_intent` (irrelevant when the
    /// donation is zero and no transfer was needed). Succeeds exactly
    /// when the caller is the creator, the amount is not negative and any
    /// needed donation transfer completed; then the donation is
    /// `floor(yield_amount * donation_percentage / 100)`, the remainder is
    /// the rest — together they always re-make the whole amount — and the
    /// pool's donated and retained totals grow by exactly those two
    /// shares. No individual position changes: yield is tracked only in
    /// pool aggregates. On any error the state is untouched. Returns the
    /// (donation, remainder) pair.
    pub fn distribute_yield(
        &mut self,
        admin: u64,
        yield_amount: i128,
        transfer_completed: bool,
    ) -> (r: Result<(i128, i128), PoolError>)
        requires
            old(self).wf(),
            old(self).initialized(),
            old(self).can_distribute(admin, yield_amount) ==> {
                &&& yield_amount * (old(self).pool().donation_percentage as i128) <= i128::MAX
                &&& old(self).pool().total_donated + old(self).donation_for(yield_amount)
                    <= i128::MAX
                &&& old(self).pool().total_yield + (yield_amount - old(self).donation_for(
                    yield_amount,
                )) <= i128::MAX
            },
        ensures
            final(self).wf(),
            final(self).initialized(),
            r is Ok <==> old(self).can_distribute(admin, yield_amount) && (old(self).donation_for(
                yield_amount,
            ) == 0 || transfer_completed),
            admin != old(self).pool().creator ==> r == Err::<(i128, i128), PoolError>(
                PoolError::Unauthorized,
            ) && *final(self) == *old(self),
            admin == old(self).pool().creator && yield_amount < 0 ==> r == Err::<
                (i128, i128),
                PoolError,
            >(PoolError::InvalidAmount) && *final(self) == *old(self),
            old(self).can_distribute(admin, yield_amount) && old(self).donation_for(yield_amount)
                > 0 && !transfer_completed ==> r == Err::<(i128, i128), PoolError>(
                PoolError::TransferFailed,
            ) && *final(self) == *old(self),
            old(self).can_distribute(admin, yield_amount) && (old(self).donation_for(yield_amount)
                == 0 || transfer_completed) ==> {
                let donation = donation_of(
                    yield_amount as int,
                    old(self).pool().donation_percentage as int,
                );
                let remaining = remaining_of(
                    yield_amount as int,
                    old(self).pool().donation_percentage as int,
                );
                &&& donation + remaining == yield_amount
                &&& r == Ok::<(i128, i128), PoolError>((donation as i128, remaining as i128))
                &&& final(self).pool().total_donated == old(self).pool().total_donated + donation
                &&& final(self).pool().total_yield == old(self).pool().total_yield + remaining
                &&& final(self).pool() == (PoolInfo {
                    total_donated: (old(self).pool().total_donated + donation) as i128,
                    total_yield: (old(self).pool().total_yield + remaining) as i128,
                    ..old(self).pool()
                })
                &&& final(self).positions() == old(self).positions()
            },
    {
        if admin != self.info.creator {
            return Err(PoolError::Unauthorized);
        }
        if yield_amount < 0 {
            return Err(PoolError::InvalidAmount);
        }
        proof {
            lemma_donation_split(yield_amount as int, self.pool().donation_percentage as int);
        }
        let donation = (yield_amount * (self.info.donation_percentage as i128)) / 100;
        if donation > 0 && !transfer_completed {
            return Err(PoolError::TransferFailed);
        }
        let remaining = yield_amount - donation;
        self.info.total_donated = self.info.total_donated + donation;
        self.info.total_yield = self.info.total_yield + remaining;
        proof {
            self.lemma_positions_still_wf(*old(self));
        }
        Ok((donation, remaining))
    }

    /// In every well-formed state no identity's available balance is
    /// negative — a withdrawal can never owe the pool — and once the pool
    /// exists, no single balance exceeds the pool's lifetime deposits.
    pub proof fn lemma_available_bounds(&self, user: u64)
        requires
            self.wf(),
        ensures
            0 <= self.available(user),
            self.initialized() ==> self.available(user) <= self.pool().total_deposited,
    {
        if self.positions().contains_key(user) {
            assert(self.positions()[user].wf());
        }
    }

    /// The per-position conjunct of `wf` carries over unchanged when an
    /// operation rewrites pool metadata but touches neither the positions
    /// nor the lifetime deposit total.
    proof fn lemma_positions_still_wf(&self, prior: ImpactPoolContract)
        requires
            prior.wf(),
            self.positions() == prior.positions(),
            self.pool().total_deposited == prior.pool().total_deposited,
        ensures
            forall|u: u64|
                #[trigger] self.positions().contains_key(u) ==> self.positions()[u].wf()
                    && self.positions()[u].deposited + self.positions()[u].yield_earned
                    <= self.pool().total_deposited,
    {
        assert forall|u: u64|
            #[trigger] self.positions().contains_key(u) implies self.positions()[u].wf()
            && self.positions()[u].deposited + self.positions()[u].yield_earned
            <= self.pool().total_deposited by {
            assert(prior.positions().contains_key(u));
        }
    }

    /// Pauses the pool: only the creator may, and only deposits are
    /// gated by the pause. A caller other than the creator is rejected
    /// as Unauthorized and changes nothing.
    pub fn pause_pool(&mut self, admin: u64) -> (r: Result<(), PoolError>)
        requires
            old(self).wf(),
            old(self).initialized(),
        ensures
            final(self).wf(),
            final(self).initialized(),
            admin != old(self).pool().creator ==> r == Err::<(), PoolError>(
                PoolError::Unauthorized,
            ) && *final(self) == *old(self),
            admin == old(self).pool().creator ==> {
                &&& r == Ok::<(), PoolError>(())
                &&& final(self).pool() == (PoolInfo { is_active: false, ..old(self).pool() })
                &&& final(self).positions() == old(self).positions()
            },
    {
        if admin != self.info.creator {
            return Err(PoolError::Unauthorized);
        }
        self.info.is_active = false;
        proof {
            self.lemma_positions_still_wf(*old(self));
        }
        Ok(())
    }

    /// Resumes a paused pool: only the creator may. A caller other than
    /// the creator is rejected as Unauthorized and changes nothing.
    pub fn resume_pool(&mut self, admin: u64) -> (r: Result<(), PoolError>)
        requires
            old(self).wf(),
            old(self).initialized(),
        ensures
            final(self).wf(),
            final(self).initialized(),
            admin != old(self).pool().creator ==> r == Err::<(), PoolError>(
                PoolError::Unauthorized,
            ) && *final(self) == *old(self),
            admin == old(self).pool().creator ==> {
                &&& r == Ok::<(), PoolError>(())
                &&& final(self).pool() == (PoolInfo { is_active: true, ..old(self).pool() })
                &&& final(self).positions() == old(self).positions()
            },
    {
        if admin != self.info.creator {
            return Err(PoolError::Unauthorized);
        }
        self.info.is_active = true;
        proof {
            self.lemma_positions_still_wf(*old(self));
        }
        Ok(())
    }

    /// Reads the pool record; NotInitialized before `initialize` ran.
    pub fn get_pool_info(&self) -> (r: Result<PoolInfo, PoolError>)
        ensures
            !self.initialized() ==> r == Err::<PoolInfo, PoolError>(PoolError::NotInitialized),
            self.initialized() ==> r == Ok::<PoolInfo, PoolError>(self.pool()),
    {
        if !self.created {
            return Err(PoolError::NotInitialized);
        }
        Ok(PoolInfo {
            name: self.info.name.clone(),
            charity: self.info.charity,
            donation_percentage: self.info.donation_percentage,
            creator: self.info.creator,
            asset: self.info.asset,
            total_deposited: self.info.total_deposited,
            total_yield: self.info.total_yield,
            total_donated: self.info.total_donated,
            is_active: self.info.is_active,
        })
    }

    /// Reads an identity's position; the zero-valued record if it never
    /// deposited, never an error.
    pub fn get_user_position(&self, user: u64) -> (r: UserPosition)
        ensures
            r == self.position(user),
    {
        match self.positions.get(&user) {
            Some(p) => *p,
            None => UserPosition::zero(),
        }
    }

    /// Reads an identity's available balance; zero if it never deposited,
    /// never an error.
    pub fn get_user_balance(&self, user: u64) -> (r: i128)
        requires
            self.wf(),
        ensures
            r == self.available(user),
    {
        let p = self.get_user_position(user);
        p.deposited - p.withdrawn + p.yield_earned
    }
}

} // verus!
