//! The properties the library promises, proved once and for all from the
//! transition functions the operations' contracts are stated over.

use vstd::prelude::*;
use crate::deposit::{deposit_apply, deposit_check};
use crate::distribute::{distribute_apply, distribute_check, prize_sum, PrizeDistribution};
use crate::error::CustomError;
use crate::lifecycle::{close_check, end_match_apply, end_match_check};
use crate::rollup::rollup_transfer_apply;
use crate::settlement::{commit_apply, settlement_check, undelegate_apply, DelegatedPoolModel};
use crate::state::{
    has_user, lemma_entry_le_sum, lemma_sum_push, lemma_sum_update, sum_amounts, user_index,
    PoolModel, MAX_DEPOSITORS,
};

verus! {

/// After any accepted deposit the running total still equals the sum of the
/// recorded claims, and it grew by exactly the deposited amount.  Since
/// every pool starts with total zero and no claims, this holds after every
/// sequence of deposit calls.
pub proof fn lemma_deposit_preserves_accounting(m: PoolModel, user: u64, amount: u64, now: i64)
    requires
        m.inv(),
        deposit_check(m, user, now) is None,
        m.total_deposited + amount <= u64::MAX,
    ensures
        deposit_apply(m, user, amount).inv(),
        deposit_apply(m, user, amount).total_deposited as int == sum_amounts(
            deposit_apply(m, user, amount).deposits,
        ),
        deposit_apply(m, user, amount).total_deposited == m.total_deposited + amount,
{
    let s = m.deposits;
    if has_user(s, user) {
        let i = user_index(s, user);
        assert(0 <= i < s.len() && s[i].user == user);
        lemma_entry_le_sum(s, i);
        let d = crate::state::UserDeposit { user, amount: (s[i].amount + amount) as u64 };
        lemma_sum_update(s, i, d);
        assert forall|p: int, q: int|
            0 <= p < q < s.update(i, d).len() implies s.update(i, d)[p].user
            != s.update(i, d)[q].user by {
            assert(s[p].user != s[q].user);
        }
    } else {
        let d = crate::state::UserDeposit { user, amount };
        lemma_sum_push(s, d);
        assert forall|p: int, q: int|
            0 <= p < q < s.push(d).len() implies s.push(d)[p].user != s.push(d)[q].user by {
            if q < s.len() {
                assert(s[p].user != s[q].user);
            } else {
                assert(s[p].user != user);
            }
        }
    }
}

/// A deposit strictly before the registration deadline, while the match is
/// active and the depositor still fits the bounded record, is always
/// accepted, and raises the total by exactly the deposited amount; one
/// after the deadline, or while the match is inactive, is always refused,
/// with the error saying which check failed first.
pub proof fn lemma_deposit_deadline(m: PoolModel, user: u64, amount: u64, now: i64)
    requires
        m.inv(),
        m.total_deposited + amount <= u64::MAX,
    ensures
        m.is_active && now < m.registration_end_time && (has_user(m.deposits, user)
            || m.deposits.len() < MAX_DEPOSITORS) ==> {
            &&& deposit_check(m, user, now) is None
            &&& deposit_apply(m, user, amount).total_deposited == m.total_deposited + amount
        },
        !m.is_active ==> deposit_check(m, user, now) == Some(CustomError::MatchInactive),
        m.is_active && now >= m.registration_end_time ==> deposit_check(m, user, now) == Some(
            CustomError::RegistrationClosed,
        ),
{
}

/// A distribution whose requested prize amounts sum to more than the pooled
/// total never succeeds; when every earlier check passes, the refusal is
/// `InsufficientPoolFunds`.
pub proof fn lemma_distribute_insufficient(
    m: PoolModel,
    caller: u64,
    prizes: Seq<PrizeDistribution>,
)
    requires
        prize_sum(prizes) > m.total_deposited,
    ensures
        distribute_check(m, caller, prizes) is Some,
        caller == m.admin && !m.is_active && !m.is_finalized ==> distribute_check(m, caller, prizes)
            == Some(CustomError::InsufficientPoolFunds),
{
}

/// Once a distribution call has succeeded the pool is finalized, and any
/// second distribution attempt by the admin fails with
/// `MatchAlreadyFinalized`; by anyone else, with `Unauthorized`.
pub proof fn lemma_distribute_twice(
    m: PoolModel,
    caller: u64,
    prizes: Seq<PrizeDistribution>,
    second_caller: u64,
    second_prizes: Seq<PrizeDistribution>,
)
    requires
        distribute_check(m, caller, prizes) is None,
    ensures
        distribute_check(distribute_apply(m), second_caller, second_prizes) is Some,
        second_caller == m.admin ==> distribute_check(distribute_apply(m), second_caller,
            second_prizes) == Some(CustomError::MatchAlreadyFinalized),
{
}

/// Closing the pool fails with `PoolNotEmpty` whenever the fund-holding
/// account still holds a nonzero balance, whatever the finalization state.
pub proof fn lemma_close_rejects_nonempty(m: PoolModel, caller: u64, pool_token_balance: u64)
    requires
        pool_token_balance != 0,
    ensures
        close_check(m, caller, pool_token_balance) is Some,
        caller == m.admin ==> close_check(m, caller, pool_token_balance) == Some(
            CustomError::PoolNotEmpty,
        ),
{
}

/// Lifecycle flags only move forward: ending a match never finalizes it,
/// distribution never reactivates it, and the ledger operations touch
/// neither flag.  No transition clears `is_finalized` or restores
/// `is_active`.
pub proof fn lemma_lifecycle_forward(
    m: PoolModel,
    user: u64,
    amount: u64,
    sender: u64,
    receiver: u64,
)
    ensures
        !end_match_apply(m).is_active,
        end_match_apply(m).is_finalized == m.is_finalized,
        distribute_apply(m).is_finalized,
        distribute_apply(m).is_active == m.is_active,
        deposit_apply(m, user, amount).is_active == m.is_active,
        deposit_apply(m, user, amount).is_finalized == m.is_finalized,
        rollup_transfer_apply(m, sender, receiver, amount).is_active == m.is_active,
        rollup_transfer_apply(m, sender, receiver, amount).is_finalized == m.is_finalized,
{
}

/// Every admin-gated pool operation refuses a caller other than the admin
/// with `Unauthorized`, before any other check; the operations' contracts
/// add that nothing is mutated on an error.
pub proof fn lemma_unauthorized_rejected(
    m: PoolModel,
    caller: u64,
    prizes: Seq<PrizeDistribution>,
    pool_token_balance: u64,
)
    requires
        caller != m.admin,
    ensures
        end_match_check(m, caller) == Some(CustomError::Unauthorized),
        distribute_check(m, caller, prizes) == Some(CustomError::Unauthorized),
        close_check(m, caller, pool_token_balance) == Some(CustomError::Unauthorized),
{
}

/// Delegation, commit, and undelegation of the pool record refuse a caller
/// other than the admin with `Unauthorized`.
pub proof fn lemma_settlement_unauthorized_rejected(c: DelegatedPoolModel, caller: u64)
    requires
        caller != c.authoritative.admin,
    ensures
        settlement_check(c, caller) == Some(CustomError::Unauthorized),
{
}

/// Commit is idempotent: committing again with unchanged rollup state
/// transmits the same values and changes nothing.
pub proof fn lemma_commit_idempotent(c: DelegatedPoolModel)
    ensures
        commit_apply(commit_apply(c)) == commit_apply(c),
{
    assert(commit_apply(commit_apply(c)) =~= commit_apply(c));
}

/// Undelegation transmits the rollup's current values and is terminal:
/// afterwards authority no longer lies with the rollup context.
pub proof fn lemma_undelegate_terminal(c: DelegatedPoolModel)
    ensures
        !undelegate_apply(c).delegated,
        undelegate_apply(c).authoritative == c.rollup,
{
}

} // verus!
