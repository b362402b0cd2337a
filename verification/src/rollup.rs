//! Reassigning claims between participants inside the rollup context.
//!
//! Unlike a deposit, this moves no funds through the external transfer
//! service: it only rewrites ledger entries, so the running total is
//! untouched.  The sender's claim must cover the amount; the receiver's
//! claim grows by it, with a new entry appended for a first-time receiver.
//! Because the amount moves from one claim to another, the ledger invariant
//! (total equals the sum of the claims) is preserved.

use vstd::prelude::*;
use crate::error::CustomError;
use crate::event::DepositEvent;
use crate::state::{
    has_user, lemma_entry_le_sum, lemma_sum_push, lemma_sum_update, lemma_user_index_of,
    sum_amounts, user_index, MatchPool, PoolModel, UserDeposit, MAX_DEPOSITORS,
};

verus! {

/// The first reason the reassignment is refused, if any: the sender needs a
/// recorded claim covering `amount`, and a first-time receiver must still
/// fit into the bounded record.
pub open spec fn rollup_transfer_check(
    m: PoolModel,
    sender: u64,
    receiver: u64,
    amount: u64,
) -> Option<CustomError> {
    if !has_user(m.deposits, sender) {
        Some(CustomError::InsufficientBalance)
    } else if m.deposits[user_index(m.deposits, sender)].amount < amount {
        Some(CustomError::InsufficientBalance)
    } else if !has_user(m.deposits, receiver) && m.deposits.len() >= MAX_DEPOSITORS {
        Some(CustomError::CapacityExceeded)
    } else {
        None
    }
}

/// The ledger after a successful reassignment: the sender's claim shrinks
/// by `amount`, the receiver's grows by it, and the total stays as it was.
pub open spec fn rollup_transfer_apply(
    m: PoolModel,
    sender: u64,
    receiver: u64,
    amount: u64,
) -> PoolModel {
    let si = user_index(m.deposits, sender);
    let debited = m.deposits.update(
        si,
        UserDeposit { user: sender, amount: (m.deposits[si].amount - amount) as u64 },
    );
    let credited = if has_user(debited, receiver) {
        let ri = user_index(debited, receiver);
        debited.update(
            ri,
            UserDeposit { user: receiver, amount: (debited[ri].amount + amount) as u64 },
        )
    } else {
        debited.push(UserDeposit { user: receiver, amount })
    };
    PoolModel { deposits: credited, ..m }
}

/// Moves `amount` of recorded claim from `sender` to `receiver`.
///
/// Available only while the pool is delegated to the rollup context (the
/// [`crate::settlement`] wrapper enforces that); reassigning to oneself
/// leaves the ledger as it was.  The returned event is attributed to the
/// receiver, as a deposit notification would be.
pub fn process_transfer_in_rollup(
    pool: &mut MatchPool,
    sender: u64,
    receiver: u64,
    amount: u64,
) -> (result: Result<DepositEvent, CustomError>)
    requires
        old(pool).inv(),
    ensures
        final(pool).inv(),
        match result {
            Ok(ev) => {
                &&& rollup_transfer_check(old(pool)@, sender, receiver, amount) is None
                &&& final(pool)@ == rollup_transfer_apply(old(pool)@, sender, receiver, amount)
                &&& final(pool)@.total_deposited == old(pool)@.total_deposited
                &&& ev.user == receiver
                &&& ev.match_id@ == old(pool)@.match_id
                &&& ev.amount == amount
            },
            Err(e) => {
                &&& Some(e) == rollup_transfer_check(old(pool)@, sender, receiver, amount)
                &&& final(pool)@ == old(pool)@
            },
        },
{
    let ghost s = pool.deposits@;
    let si = match crate::state::find_deposit_index(&pool.deposits, sender) {
        Some(si) => si,
        None => {
            return Err(CustomError::InsufficientBalance);
        },
    };
    proof {
        lemma_user_index_of(s, si as int);
    }
    let sender_amount = pool.deposits[si].amount;
    if sender_amount < amount {
        return Err(CustomError::InsufficientBalance);
    }

    let receiver_slot = crate::state::find_deposit_index(&pool.deposits, receiver);
    if receiver_slot.is_none() && pool.deposits.len() >= MAX_DEPOSITORS {
        return Err(CustomError::CapacityExceeded);
    }

    let debit_entry = UserDeposit { user: sender, amount: sender_amount - amount };
    pool.deposits.set(si, debit_entry);
    let ghost debited = pool.deposits@;
    proof {
        lemma_sum_update(s, si as int, debit_entry);
        assert forall|p: int, q: int|
            0 <= p < q < debited.len() implies debited[p].user != debited[q].user by {
            assert(s[p].user != s[q].user);
        }
    }

    match receiver_slot {
        Some(ri) => {
            proof {
                assert(debited[ri as int].user == receiver);
                assert(has_user(debited, receiver));
                lemma_user_index_of(debited, ri as int);
                lemma_entry_le_sum(debited, ri as int);
            }
            let receiver_amount = pool.deposits[ri].amount;
            let credit_entry = UserDeposit { user: receiver, amount: receiver_amount + amount };
            pool.deposits.set(ri, credit_entry);
            proof {
                lemma_sum_update(debited, ri as int, credit_entry);
                assert forall|p: int, q: int|
                    0 <= p < q < pool.deposits@.len() implies pool.deposits@[p].user
                    != pool.deposits@[q].user by {
                    assert(debited[p].user != debited[q].user);
                }
                assert(pool@ =~= rollup_transfer_apply(old(pool)@, sender, receiver, amount));
            }
            Ok(DepositEvent { user: receiver, match_id: pool.match_id.clone(), amount })
        },
        None => {
            proof {
                assert(!has_user(debited, receiver)) by {
                    if has_user(debited, receiver) {
                        let k = choose|k: int|
                            0 <= k < debited.len() && debited[k].user == receiver;
                        assert(s[k].user == receiver);
                    }
                }
            }
            let credit_entry = UserDeposit { user: receiver, amount };
            pool.deposits.push(credit_entry);
            proof {
                lemma_sum_push(debited, credit_entry);
                assert forall|p: int, q: int|
                    0 <= p < q < pool.deposits@.len() implies pool.deposits@[p].user
                    != pool.deposits@[q].user by {
                    if q < debited.len() {
                        assert(debited[p].user != debited[q].user);
                    } else {
                        assert(debited[p].user != receiver);
                    }
                }
                assert(pool@ =~= rollup_transfer_apply(old(pool)@, sender, receiver, amount));
            }
            Ok(DepositEvent { user: receiver, match_id: pool.match_id.clone(), amount })
        },
    }
}

} // verus!
