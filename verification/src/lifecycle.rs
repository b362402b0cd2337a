//! The match lifecycle state machine: creation, ending, and closing.
//!
//! A pool moves only forward: active, then ended (`is_active` false), then
//! finalized (`is_finalized` true, set by prize distribution), then closed
//! (record destroyed).  Ending and closing are admin-gated, and refuse a
//! caller other than the admin before weighing any other condition.

use vstd::prelude::*;
use crate::error::CustomError;
use crate::event::MatchEndedEvent;
use crate::state::{MatchPool, PoolModel, MAX_MATCH_ID_LEN};

verus! {

/// The state of a freshly created pool.
pub open spec fn initialize_model(
    admin: u64,
    match_id: Seq<char>,
    registration_end_time: i64,
    bump: u8,
    token_bump: u8,
) -> PoolModel {
    PoolModel {
        admin,
        match_id,
        registration_end_time,
        total_deposited: 0,
        is_active: true,
        is_finalized: false,
        deposits: Seq::empty(),
        bump,
        token_bump,
    }
}

/// Creates the pool record for a new match: active, nothing deposited,
/// administered by `admin`.  The host creates the fund-holding account
/// beside it; `bump` and `token_bump` record how the two addresses were
/// derived from `match_id`.
pub fn process_initialize(
    admin: u64,
    match_id: String,
    registration_end_time: i64,
    bump: u8,
    token_bump: u8,
) -> (pool: MatchPool)
    requires
        match_id@.len() <= MAX_MATCH_ID_LEN,
    ensures
        pool@ == initialize_model(admin, match_id@, registration_end_time, bump, token_bump),
        pool.inv(),
{
    let pool = MatchPool {
        admin,
        match_id,
        registration_end_time,
        total_deposited: 0,
        is_active: true,
        is_finalized: false,
        deposits: Vec::new(),
        bump,
        token_bump,
    };
    proof {
        assert(pool@ =~= initialize_model(
            admin,
            pool.match_id@,
            registration_end_time,
            bump,
            token_bump,
        ));
    }
    pool
}

/// The first reason ending the match is refused, if any.
pub open spec fn end_match_check(m: PoolModel, caller: u64) -> Option<CustomError> {
    if caller != m.admin {
        Some(CustomError::Unauthorized)
    } else if !m.is_active {
        Some(CustomError::MatchInactive)
    } else if m.is_finalized {
        Some(CustomError::MatchFinalized)
    } else {
        None
    }
}

/// The pool after the match is ended: only `is_active` changes.
pub open spec fn end_match_apply(m: PoolModel) -> PoolModel {
    PoolModel { is_active: false, ..m }
}

/// Ends the match: deposits stop, and prize distribution becomes legal.
/// Admin-gated; fails `MatchInactive` on an already ended match and
/// `MatchFinalized` on a finalized one.  On success the returned event
/// carries the final pooled total.
pub fn process_end_match(pool: &mut MatchPool, caller: u64) -> (result: Result<
    MatchEndedEvent,
    CustomError,
>)
    requires
        old(pool).inv(),
    ensures
        final(pool).inv(),
        match result {
            Ok(ev) => {
                &&& end_match_check(old(pool)@, caller) is None
                &&& final(pool)@ == end_match_apply(old(pool)@)
                &&& ev.match_id@ == old(pool)@.match_id
                &&& ev.total_deposited == old(pool)@.total_deposited
            },
            Err(e) => {
                &&& Some(e) == end_match_check(old(pool)@, caller)
                &&& final(pool)@ == old(pool)@
            },
        },
{
    if caller != pool.admin {
        return Err(CustomError::Unauthorized);
    }
    if !pool.is_active {
        return Err(CustomError::MatchInactive);
    }
    if pool.is_finalized {
        return Err(CustomError::MatchFinalized);
    }
    pool.is_active = false;
    let ev = MatchEndedEvent {
        match_id: pool.match_id.clone(),
        total_deposited: pool.total_deposited,
    };
    proof {
        assert(pool@ =~= end_match_apply(old(pool)@));
    }
    Ok(ev)
}

/// The first reason closing the pool is refused, if any.
///
/// `pool_token_balance` is the fund-holding account's current balance as the
/// host reads it; a nonzero balance blocks closing whatever the lifecycle
/// state is.
pub open spec fn close_check(m: PoolModel, caller: u64, pool_token_balance: u64) -> Option<
    CustomError,
> {
    if caller != m.admin {
        Some(CustomError::Unauthorized)
    } else if pool_token_balance != 0 {
        Some(CustomError::PoolNotEmpty)
    } else if !m.is_finalized {
        Some(CustomError::MatchNotFinalized)
    } else {
        None
    }
}

/// Decides whether the pool may be destroyed.  Admin-gated; requires a
/// finalized match and an empty fund-holding account.  On `Ok` the host
/// destroys the pool record and the fund-holding account and returns their
/// reclaimable storage deposit to the admin.
pub fn process_close_match_pool(pool: &MatchPool, caller: u64, pool_token_balance: u64) -> (result:
    Result<(), CustomError>)
    ensures
        match result {
            Ok(_) => close_check(pool@, caller, pool_token_balance) is None,
            Err(e) => Some(e) == close_check(pool@, caller, pool_token_balance),
        },
{
    if caller != pool.admin {
        return Err(CustomError::Unauthorized);
    }
    if pool_token_balance != 0 {
        return Err(CustomError::PoolNotEmpty);
    }
    if !pool.is_finalized {
        return Err(CustomError::MatchNotFinalized);
    }
    Ok(())
}

} // verus!
