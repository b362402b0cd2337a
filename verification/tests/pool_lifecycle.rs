use match_escrow::error::CustomError;
use match_escrow::deposit::process_deposit;
use match_escrow::lifecycle::{process_close_match_pool, process_end_match, process_initialize};
use match_escrow::state::{MatchPool, UserDeposit, MAX_DEPOSITORS};

fn fresh_pool(admin: u64, registration_end_time: i64) -> MatchPool {
    process_initialize(admin, String::from("weekly"), registration_end_time, 254, 253)
}

fn recorded_sum(pool: &MatchPool) -> u64 {
    let mut sum: u64 = 0;
    for entry in pool.deposits.iter() {
        sum += entry.amount;
    }
    sum
}

#[test]
fn initialize_sets_fresh_pool() {
    let pool = fresh_pool(1, 100);
    assert_eq!(pool.admin, 1);
    assert_eq!(pool.match_id, "weekly");
    assert_eq!(pool.registration_end_time, 100);
    assert_eq!(pool.total_deposited, 0);
    assert!(pool.is_active);
    assert!(!pool.is_finalized);
    assert!(pool.deposits.is_empty());
    assert_eq!(pool.bump, 254);
    assert_eq!(pool.token_bump, 253);
}

#[test]
fn deposit_totals_match_recorded_claims() {
    let mut pool = fresh_pool(1, 100);
    let calls: [(u64, u64); 4] = [(11, 500), (12, 300), (11, 200), (13, 1)];
    for (user, amount) in calls {
        assert!(process_deposit(&mut pool, user, amount, 10).is_ok());
        assert_eq!(pool.total_deposited, recorded_sum(&pool));
    }
    assert_eq!(pool.total_deposited, 1001);
    assert_eq!(pool.deposits.len(), 3);
    assert_eq!(pool.deposits[0], UserDeposit { user: 11, amount: 700 });
    assert_eq!(pool.deposits[1], UserDeposit { user: 12, amount: 300 });
    assert_eq!(pool.deposits[2], UserDeposit { user: 13, amount: 1 });
}

#[test]
fn deposit_before_deadline_succeeds() {
    let mut pool = fresh_pool(1, 100);
    let event = process_deposit(&mut pool, 11, 500, 99).expect("deposit before the deadline");
    assert_eq!(pool.total_deposited, 500);
    assert_eq!(event.user, 11);
    assert_eq!(event.match_id, "weekly");
    assert_eq!(event.amount, 500);
}

#[test]
fn deposit_at_or_after_deadline_rejected() {
    let mut pool = fresh_pool(1, 100);
    let at_deadline = process_deposit(&mut pool, 11, 500, 100);
    assert_eq!(at_deadline.err(), Some(CustomError::RegistrationClosed));
    assert_eq!(pool.total_deposited, 0);
    assert!(pool.deposits.is_empty());
    let late = process_deposit(&mut pool, 11, 500, 150);
    assert_eq!(late.err(), Some(CustomError::RegistrationClosed));
}

#[test]
fn deposit_while_inactive_rejected() {
    let mut pool = fresh_pool(1, 100);
    process_end_match(&mut pool, 1).expect("admin ends the match");
    let result = process_deposit(&mut pool, 11, 500, 10);
    assert_eq!(result.err(), Some(CustomError::MatchInactive));
    assert_eq!(pool.total_deposited, 0);
}

#[test]
fn deposit_capacity_is_bounded() {
    let mut pool = fresh_pool(1, 100);
    for user in 0..MAX_DEPOSITORS as u64 {
        assert!(process_deposit(&mut pool, user, 10, 1).is_ok());
    }
    assert_eq!(pool.deposits.len(), MAX_DEPOSITORS);
    let overflowing = process_deposit(&mut pool, 999, 10, 1);
    assert_eq!(overflowing.err(), Some(CustomError::CapacityExceeded));
    assert_eq!(pool.deposits.len(), MAX_DEPOSITORS);
    // A depositor already recorded still fits.
    assert!(process_deposit(&mut pool, 0, 5, 1).is_ok());
    assert_eq!(pool.deposits[0].amount, 15);
}

#[test]
fn end_match_requires_admin() {
    let mut pool = fresh_pool(1, 100);
    let result = process_end_match(&mut pool, 2);
    assert_eq!(result.err(), Some(CustomError::Unauthorized));
    assert!(pool.is_active);
}

#[test]
fn end_match_emits_final_total() {
    let mut pool = fresh_pool(1, 100);
    process_deposit(&mut pool, 11, 500, 10).expect("deposit");
    let event = process_end_match(&mut pool, 1).expect("admin ends the match");
    assert!(!pool.is_active);
    assert_eq!(event.match_id, "weekly");
    assert_eq!(event.total_deposited, 500);
}

#[test]
fn end_match_twice_rejected() {
    let mut pool = fresh_pool(1, 100);
    process_end_match(&mut pool, 1).expect("first end");
    let second = process_end_match(&mut pool, 1);
    assert_eq!(second.err(), Some(CustomError::MatchInactive));
}

#[test]
fn end_match_on_finalized_pool_rejected() {
    let mut pool = MatchPool {
        admin: 1,
        match_id: String::from("weekly"),
        registration_end_time: 100,
        total_deposited: 0,
        is_active: true,
        is_finalized: true,
        deposits: Vec::new(),
        bump: 254,
        token_bump: 253,
    };
    let result = process_end_match(&mut pool, 1);
    assert_eq!(result.err(), Some(CustomError::MatchFinalized));
}

#[test]
fn close_requires_admin() {
    let pool = fresh_pool(1, 100);
    let result = process_close_match_pool(&pool, 2, 0);
    assert_eq!(result.err(), Some(CustomError::Unauthorized));
}

#[test]
fn close_rejects_nonzero_balance_whatever_the_state() {
    let mut pool = fresh_pool(1, 100);
    // Not finalized, balance held: the balance check comes first.
    assert_eq!(process_close_match_pool(&pool, 1, 300).err(), Some(CustomError::PoolNotEmpty));
    pool.is_active = false;
    pool.is_finalized = true;
    // Finalized, balance held: still refused.
    assert_eq!(process_close_match_pool(&pool, 1, 1).err(), Some(CustomError::PoolNotEmpty));
}

#[test]
fn close_requires_finalized() {
    let pool = fresh_pool(1, 100);
    let result = process_close_match_pool(&pool, 1, 0);
    assert_eq!(result.err(), Some(CustomError::MatchNotFinalized));
}

#[test]
fn close_succeeds_once_finalized_and_empty() {
    let mut pool = fresh_pool(1, 100);
    pool.is_active = false;
    pool.is_finalized = true;
    assert!(process_close_match_pool(&pool, 1, 0).is_ok());
}
