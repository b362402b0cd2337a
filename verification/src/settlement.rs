//! The delegation protocol: moving mutation authority over the pool between
//! the authoritative context and the low-latency rollup context.
//!
//! Each account category can be delegated on its own.  For the pool record,
//! [`DelegatedPool`] keeps both contexts' copies side by side together with
//! the ownership flag the design calls for: while `delegated` is set the
//! rollup copy is the live one and the authoritative copy is read-only and
//! stale; a commit transmits the rollup's current values back without
//! revoking authority, an undelegate transmits them and revokes it.  The
//! cross-context transport itself is the external settlement subsystem's
//! job; this module owns the authorization checks, the ownership flag, and
//! which values are transmitted.

use vstd::prelude::*;
use crate::deposit::{deposit_apply, deposit_check, process_deposit};
use crate::error::CustomError;
use crate::event::DepositEvent;
use crate::rollup::{process_transfer_in_rollup, rollup_transfer_apply, rollup_transfer_check};
use crate::state::{MatchPool, PoolModel};

verus! {

/// How often, at most, the rollup context must push delegated state back:
/// the re-commit cadence recorded at delegation, in milliseconds.
pub const COMMIT_FREQUENCY_MS: u64 = 120000;

/// The delegation decision for one account: whether authority now lies with
/// the rollup context, and the recorded re-commit cadence.
#[derive(Clone, Copy, Debug, PartialEq, Eq, Structural)]
pub struct DelegationRecord {
    pub delegated: bool,
    pub commit_frequency_ms: u64,
}

/// The pool record as the two execution contexts see it.
pub struct DelegatedPool {
    /// The authoritative context's copy; stale while `delegated` is set.
    pub authoritative: MatchPool,
    /// The rollup context's copy; live only while `delegated` is set.
    pub rollup: MatchPool,
    /// Where mutation authority lies: with the rollup context if set,
    /// with the authoritative context otherwise.
    pub delegated: bool,
    /// The re-commit cadence recorded when the pool was last delegated.
    pub commit_frequency_ms: u64,
}

/// The mathematical value of a [`DelegatedPool`].
#[verifier::ext_equal]
pub ghost struct DelegatedPoolModel {
    pub authoritative: PoolModel,
    pub rollup: PoolModel,
    pub delegated: bool,
    pub commit_frequency_ms: u64,
}

impl View for DelegatedPool {
    type V = DelegatedPoolModel;

    open spec fn view(&self) -> DelegatedPoolModel {
        DelegatedPoolModel {
            authoritative: self.authoritative@,
            rollup: self.rollup@,
            delegated: self.delegated,
            commit_frequency_ms: self.commit_frequency_ms,
        }
    }
}

/// The admin gate shared by delegation, commit, and undelegation: the
/// caller must be the pool's admin.
pub open spec fn settlement_check(c: DelegatedPoolModel, caller: u64) -> Option<CustomError> {
    if caller != c.authoritative.admin {
        Some(CustomError::Unauthorized)
    } else {
        None
    }
}

/// After delegation: the rollup context starts from the authoritative
/// values, holds authority, and owes a commit every `COMMIT_FREQUENCY_MS`.
pub open spec fn delegate_apply(c: DelegatedPoolModel) -> DelegatedPoolModel {
    DelegatedPoolModel {
        authoritative: c.authoritative,
        rollup: c.authoritative,
        delegated: true,
        commit_frequency_ms: COMMIT_FREQUENCY_MS,
    }
}

/// After a commit: the rollup's current values are the ones transmitted to
/// the authoritative context; authority stays with the rollup.
pub open spec fn commit_apply(c: DelegatedPoolModel) -> DelegatedPoolModel {
    DelegatedPoolModel { authoritative: c.rollup, ..c }
}

/// After an undelegation: a commit, plus revocation of the rollup's
/// authority, which is terminal until the pool is delegated again.
pub open spec fn undelegate_apply(c: DelegatedPoolModel) -> DelegatedPoolModel {
    DelegatedPoolModel { authoritative: c.rollup, delegated: false, ..c }
}

impl DelegatedPool {
    /// Both copies are well-formed ledgers.
    pub open spec fn inv(self) -> bool {
        &&& self@.authoritative.inv()
        &&& self@.rollup.inv()
    }

    /// Wraps a pool whose authority lies, as after creation, with the
    /// authoritative context.
    pub fn new(pool: MatchPool) -> (cell: DelegatedPool)
        requires
            pool.inv(),
        ensures
            cell.inv(),
            cell@.authoritative == pool@,
            cell@.rollup == pool@,
            !cell@.delegated,
            cell@.commit_frequency_ms == 0,
    {
        let copy = pool.duplicate();
        DelegatedPool { authoritative: pool, rollup: copy, delegated: false, commit_frequency_ms: 0 }
    }

    /// Hands mutation authority over the pool record to the rollup context.
    /// Admin-gated; delegating an already delegated pool is undefined by
    /// this core and excluded here.
    pub fn delegate_match_pool(&mut self, caller: u64) -> (result: Result<(), CustomError>)
        requires
            old(self).inv(),
            !old(self)@.delegated,
        ensures
            final(self).inv(),
            match result {
                Ok(_) => {
                    &&& settlement_check(old(self)@, caller) is None
                    &&& final(self)@ == delegate_apply(old(self)@)
                },
                Err(e) => {
                    &&& Some(e) == settlement_check(old(self)@, caller)
                    &&& final(self)@ == old(self)@
                },
            },
    {
        if caller != self.authoritative.admin {
            return Err(CustomError::Unauthorized);
        }
        self.rollup = self.authoritative.duplicate();
        self.delegated = true;
        self.commit_frequency_ms = COMMIT_FREQUENCY_MS;
        proof {
            assert(self@ =~= delegate_apply(old(self)@));
        }
        Ok(())
    }

    /// Pushes the rollup's current state back to the authoritative context
    /// without revoking delegation.  Admin-gated; meaningful only while the
    /// pool is delegated.  Committing twice with unchanged rollup state is a
    /// no-op (see [`crate::laws::lemma_commit_idempotent`]).
    pub fn commit_match_pool(&mut self, caller: u64) -> (result: Result<(), CustomError>)
        requires
            old(self).inv(),
            old(self)@.delegated,
        ensures
            final(self).inv(),
            match result {
                Ok(_) => {
                    &&& settlement_check(old(self)@, caller) is None
                    &&& final(self)@ == commit_apply(old(self)@)
                },
                Err(e) => {
                    &&& Some(e) == settlement_check(old(self)@, caller)
                    &&& final(self)@ == old(self)@
                },
            },
    {
        if caller != self.authoritative.admin {
            return Err(CustomError::Unauthorized);
        }
        self.authoritative = self.rollup.duplicate();
        proof {
            assert(self@ =~= commit_apply(old(self)@));
        }
        Ok(())
    }

    /// Pushes the rollup's current state back and revokes its authority,
    /// returning exclusive authority to the authoritative context until the
    /// pool is delegated again.  Admin-gated.
    pub fn undelegate_match_pool(&mut self, caller: u64) -> (result: Result<(), CustomError>)
        requires
            old(self).inv(),
            old(self)@.delegated,
        ensures
            final(self).inv(),
            match result {
                Ok(_) => {
                    &&& settlement_check(old(self)@, caller) is None
                    &&& final(self)@ == undelegate_apply(old(self)@)
                    &&& !final(self)@.delegated
                },
                Err(e) => {
                    &&& Some(e) == settlement_check(old(self)@, caller)
                    &&& final(self)@ == old(self)@
                },
            },
    {
        if caller != self.authoritative.admin {
            return Err(CustomError::Unauthorized);
        }
        self.authoritative = self.rollup.duplicate();
        self.delegated = false;
        proof {
            assert(self@ =~= undelegate_apply(old(self)@));
        }
        Ok(())
    }

    /// A deposit in the authoritative context.  Refused while the pool is
    /// delegated: the authoritative copy is then read-only and stale, and
    /// local mutation of it is undefined by this core.
    pub fn deposit(&mut self, user: u64, amount: u64, now: i64) -> (result: Result<
        DepositEvent,
        CustomError,
    >)
        requires
            old(self).inv(),
            !old(self)@.delegated,
            old(self)@.authoritative.total_deposited + amount <= u64::MAX,
        ensures
            final(self).inv(),
            final(self)@.rollup == old(self)@.rollup,
            final(self)@.delegated == old(self)@.delegated,
            final(self)@.commit_frequency_ms == old(self)@.commit_frequency_ms,
            match result {
                Ok(ev) => {
                    &&& deposit_check(old(self)@.authoritative, user, now) is None
                    &&& final(self)@.authoritative == deposit_apply(
                        old(self)@.authoritative,
                        user,
                        amount,
                    )
                    &&& ev.user == user
                    &&& ev.match_id@ == old(self)@.authoritative.match_id
                    &&& ev.amount == amount
                },
                Err(e) => {
                    &&& Some(e) == deposit_check(old(self)@.authoritative, user, now)
                    &&& final(self)@.authoritative == old(self)@.authoritative
                },
            },
    {
        process_deposit(&mut self.authoritative, user, amount, now)
    }

    /// A claim reassignment in the rollup context.  Refused while the pool
    /// is not delegated: the operation exists only inside the rollup.
    pub fn transfer_in_rollup(&mut self, sender: u64, receiver: u64, amount: u64) -> (result:
        Result<DepositEvent, CustomError>)
        requires
            old(self).inv(),
            old(self)@.delegated,
        ensures
            final(self).inv(),
            final(self)@.authoritative == old(self)@.authoritative,
            final(self)@.delegated == old(self)@.delegated,
            final(self)@.commit_frequency_ms == old(self)@.commit_frequency_ms,
            match result {
                Ok(ev) => {
                    &&& rollup_transfer_check(old(self)@.rollup, sender, receiver, amount) is None
                    &&& final(self)@.rollup == rollup_transfer_apply(
                        old(self)@.rollup,
                        sender,
                        receiver,
                        amount,
                    )
                    &&& final(self)@.rollup.total_deposited == old(self)@.rollup.total_deposited
                    &&& ev.user == receiver
                    &&& ev.match_id@ == old(self)@.rollup.match_id
                    &&& ev.amount == amount
                },
                Err(e) => {
                    &&& Some(e) == rollup_transfer_check(old(self)@.rollup, sender, receiver, amount)
                    &&& final(self)@.rollup == old(self)@.rollup
                },
            },
    {
        process_transfer_in_rollup(&mut self.rollup, sender, receiver, amount)
    }
}

/// Decides delegation of the pool's fund-holding account.  The same admin
/// gate as the pool record's own mutation path; on success the rollup owes
/// a commit every `COMMIT_FREQUENCY_MS`.
pub fn delegate_pool_token_account(pool: &MatchPool, caller: u64) -> (result: Result<
    DelegationRecord,
    CustomError,
>)
    ensures
        match result {
            Ok(r) => {
                &&& caller == pool@.admin
                &&& r.delegated
                &&& r.commit_frequency_ms == COMMIT_FREQUENCY_MS
            },
            Err(e) => {
                &&& caller != pool@.admin
                &&& e == CustomError::Unauthorized
            },
        },
{
    if caller != pool.admin {
        return Err(CustomError::Unauthorized);
    }
    Ok(DelegationRecord { delegated: true, commit_frequency_ms: COMMIT_FREQUENCY_MS })
}

/// Decides delegation of a participant's external funding account: only its
/// owner may delegate it.
pub fn delegate_user_token_account(user: u64, token_account_owner: u64) -> (result: Result<
    DelegationRecord,
    CustomError,
>)
    ensures
        match result {
            Ok(r) => {
                &&& token_account_owner == user
                &&& r.delegated
                &&& r.commit_frequency_ms == COMMIT_FREQUENCY_MS
            },
            Err(e) => {
                &&& token_account_owner != user
                &&& e == CustomError::Unauthorized
            },
        },
{
    if token_account_owner != user {
        return Err(CustomError::Unauthorized);
    }
    Ok(DelegationRecord { delegated: true, commit_frequency_ms: COMMIT_FREQUENCY_MS })
}

/// Decides delegation of a participant's own deposit shadow record.  Its
/// address is derived from the participant's identity, so ownership is
/// implicit and the host's signature check is the only gate; the decision
/// here only records the cadence.
pub fn delegate_user_deposit() -> (r: DelegationRecord)
    ensures
        r.delegated,
        r.commit_frequency_ms == COMMIT_FREQUENCY_MS,
{
    DelegationRecord { delegated: true, commit_frequency_ms: COMMIT_FREQUENCY_MS }
}

} // verus!
