//! Recording a participant's deposit in the ledger.
//!
//! The host first moves the funds through the external ledger-transfer
//! service; this operation then records the claim.  Both happen inside one
//! atomic call of the surrounding system, so a refusal here aborts the whole
//! deposit with no state change.

use vstd::prelude::*;
use crate::error::CustomError;
use crate::event::DepositEvent;
use crate::state::{
    has_user, lemma_entry_le_sum, lemma_sum_push, lemma_sum_update, lemma_user_index_of, sum_amounts,
    user_index, MatchPool, PoolModel, UserDeposit, MAX_DEPOSITORS,
};

verus! {

/// The first reason a deposit is refused, if any: the match must be active,
/// the clock must read strictly before the registration deadline, and a new
/// depositor must still fit into the bounded record.
pub open spec fn deposit_check(m: PoolModel, user: u64, now: i64) -> Option<CustomError> {
    if !m.is_active {
        Some(CustomError::MatchInactive)
    } else if now >= m.registration_end_time {
        Some(CustomError::RegistrationClosed)
    } else if !has_user(m.deposits, user) && m.deposits.len() >= MAX_DEPOSITORS {
        Some(CustomError::CapacityExceeded)
    } else {
        None
    }
}

/// The ledger after a successful deposit: the depositor's entry grows by
/// `amount` (or a new entry is appended), and so does the running total.
pub open spec fn deposit_apply(m: PoolModel, user: u64, amount: u64) -> PoolModel {
    let deposits = if has_user(m.deposits, user) {
        let i = user_index(m.deposits, user);
        m.deposits.update(
            i,
            UserDeposit { user, amount: (m.deposits[i].amount + amount) as u64 },
        )
    } else {
        m.deposits.push(UserDeposit { user, amount })
    };
    PoolModel {
        total_deposited: (m.total_deposited + amount) as u64,
        deposits,
        ..m
    }
}

/// Records a deposit of `amount` by `user` at time `now`.
///
/// The pooled total is bounded by the integer width, a machine limit the
/// caller must respect; within it, a deposit is accepted exactly when
/// [`deposit_check`] finds nothing wrong, and the returned event names the
/// depositor, the pool, and the amount.
pub fn process_deposit(pool: &mut MatchPool, user: u64, amount: u64, now: i64) -> (result: Result<
    DepositEvent,
    CustomError,
>)
    requires
        old(pool).inv(),
        old(pool).total_deposited + amount <= u64::MAX,
    ensures
        final(pool).inv(),
        match result {
            Ok(ev) => {
                &&& deposit_check(old(pool)@, user, now) is None
                &&& final(pool)@ == deposit_apply(old(pool)@, user, amount)
                &&& ev.user == user
                &&& ev.match_id@ == old(pool)@.match_id
                &&& ev.amount == amount
            },
            Err(e) => {
                &&& Some(e) == deposit_check(old(pool)@, user, now)
                &&& final(pool)@ == old(pool)@
            },
        },
{
    if !pool.is_active {
        return Err(CustomError::MatchInactive);
    }
    if now >= pool.registration_end_time {
        return Err(CustomError::RegistrationClosed);
    }

    match crate::state::find_deposit_index(&pool.deposits, user) {
        Some(i) => {
            let ghost s = pool.deposits@;
            proof {
                lemma_user_index_of(s, i as int);
                lemma_entry_le_sum(s, i as int);
            }
            let entry_amount = pool.deposits[i].amount;
            let updated = UserDeposit { user, amount: entry_amount + amount };
            pool.deposits.set(i, updated);
            proof {
                lemma_sum_update(s, i as int, updated);
                assert forall|p: int, q: int|
                    0 <= p < q < pool.deposits@.len() implies pool.deposits@[p].user
                    != pool.deposits@[q].user by {
                    assert(s[p].user != s[q].user);
                }
            }
            pool.total_deposited = pool.total_deposited + amount;
            proof {
                assert(pool@ =~= deposit_apply(old(pool)@, user, amount));
            }
            Ok(DepositEvent { user, match_id: pool.match_id.clone(), amount })
        },
        None => {
            if pool.deposits.len() >= MAX_DEPOSITORS {
                return Err(CustomError::CapacityExceeded);
            }
            let ghost s = pool.deposits@;
            let entry = UserDeposit { user, amount };
            pool.deposits.push(entry);
            proof {
                lemma_sum_push(s, entry);
                assert forall|p: int, q: int|
                    0 <= p < q < pool.deposits@.len() implies pool.deposits@[p].user
                    != pool.deposits@[q].user by {
                    if q < s.len() {
                        assert(s[p].user != s[q].user);
                    } else {
                        assert(s[p].user != user);
                    }
                }
            }
            pool.total_deposited = pool.total_deposited + amount;
            proof {
                assert(pool@ =~= deposit_apply(old(pool)@, user, amount));
            }
            Ok(DepositEvent { user, match_id: pool.match_id.clone(), amount })
        },
    }
}

} // verus!
