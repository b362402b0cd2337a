use match_escrow::error::CustomError;
use match_escrow::deposit::process_deposit;
use match_escrow::distribute::{
    prize_events, process_distribute_prizes, CandidateAccount, PrizeDistribution, PrizeTransfer,
};
use match_escrow::lifecycle::{process_close_match_pool, process_end_match, process_initialize};
use match_escrow::state::MatchPool;

fn funded_ended_pool() -> MatchPool {
    let mut pool = process_initialize(1, String::from("weekly"), 100, 254, 253);
    process_deposit(&mut pool, 11, 500, 10).expect("first deposit");
    process_deposit(&mut pool, 12, 300, 20).expect("second deposit");
    process_end_match(&mut pool, 1).expect("admin ends the match");
    pool
}

fn prizes(entries: &[(u64, u64)]) -> Vec<PrizeDistribution> {
    entries.iter().map(|&(user, amount)| PrizeDistribution { user, amount }).collect()
}

fn candidates(entries: &[(u64, u64)]) -> Vec<CandidateAccount> {
    entries.iter().map(|&(owner, address)| CandidateAccount { owner, address }).collect()
}

#[test]
fn distribute_requires_admin() {
    let mut pool = funded_ended_pool();
    let result = process_distribute_prizes(&mut pool, 2, &prizes(&[(11, 100)]), &candidates(&[(11, 101)]));
    assert_eq!(result.err(), Some(CustomError::Unauthorized));
    assert!(!pool.is_finalized);
}

#[test]
fn distribute_requires_ended_match() {
    let mut pool = process_initialize(1, String::from("weekly"), 100, 254, 253);
    process_deposit(&mut pool, 11, 500, 10).expect("deposit");
    let result = process_distribute_prizes(&mut pool, 1, &prizes(&[(11, 100)]), &candidates(&[(11, 101)]));
    assert_eq!(result.err(), Some(CustomError::MatchStillActive));
    assert!(!pool.is_finalized);
}

#[test]
fn distribute_rejects_more_than_deposited() {
    let mut pool = funded_ended_pool();
    let result = process_distribute_prizes(&mut pool, 1, &prizes(&[(11, 500), (12, 301)]), &candidates(&[(11, 101), (12, 102)]));
    assert_eq!(result.err(), Some(CustomError::InsufficientPoolFunds));
    assert!(!pool.is_finalized);
}

#[test]
fn distribute_rejects_unrepresentable_sum() {
    let mut pool = funded_ended_pool();
    let result = process_distribute_prizes(
        &mut pool,
        1,
        &prizes(&[(11, u64::MAX), (12, 1)]),
        &candidates(&[(11, 101), (12, 102)]),
    );
    assert_eq!(result.err(), Some(CustomError::InsufficientPoolFunds));
    assert!(!pool.is_finalized);
}

#[test]
fn distribute_pays_matched_winners_in_order() {
    let mut pool = funded_ended_pool();
    let transfers = process_distribute_prizes(
        &mut pool,
        1,
        &prizes(&[(11, 300), (12, 200)]),
        &candidates(&[(12, 102), (11, 101)]),
    )
    .expect("distribution succeeds");
    assert!(pool.is_finalized);
    assert_eq!(
        transfers,
        vec![
            PrizeTransfer { user: 11, destination: 101, amount: 300 },
            PrizeTransfer { user: 12, destination: 102, amount: 200 },
        ]
    );
}

#[test]
fn distribute_skips_unmatched_winner() {
    let mut pool = funded_ended_pool();
    let transfers = process_distribute_prizes(
        &mut pool,
        1,
        &prizes(&[(99, 100), (12, 200)]),
        &candidates(&[(12, 102)]),
    )
    .expect("distribution succeeds despite the unmatched winner");
    assert!(pool.is_finalized);
    assert_eq!(transfers, vec![PrizeTransfer { user: 12, destination: 102, amount: 200 }]);
}

#[test]
fn distribute_skips_zero_amount() {
    let mut pool = funded_ended_pool();
    let transfers = process_distribute_prizes(
        &mut pool,
        1,
        &prizes(&[(11, 0), (12, 200)]),
        &candidates(&[(11, 101), (12, 102)]),
    )
    .expect("distribution succeeds");
    assert_eq!(transfers, vec![PrizeTransfer { user: 12, destination: 102, amount: 200 }]);
}

#[test]
fn distribute_later_candidate_wins_for_same_owner() {
    let mut pool = funded_ended_pool();
    let transfers = process_distribute_prizes(
        &mut pool,
        1,
        &prizes(&[(11, 300)]),
        &candidates(&[(11, 101), (11, 108)]),
    )
    .expect("distribution succeeds");
    assert_eq!(transfers, vec![PrizeTransfer { user: 11, destination: 108, amount: 300 }]);
}

#[test]
fn distribute_empty_prize_list_still_finalizes() {
    let mut pool = funded_ended_pool();
    let transfers = process_distribute_prizes(&mut pool, 1, &prizes(&[]), &candidates(&[]))
        .expect("an empty distribution succeeds");
    assert!(transfers.is_empty());
    assert!(pool.is_finalized);
}

#[test]
fn distribute_twice_rejected() {
    let mut pool = funded_ended_pool();
    process_distribute_prizes(&mut pool, 1, &prizes(&[(11, 300), (12, 200)]), &candidates(&[(11, 101), (12, 102)]))
        .expect("first distribution");
    let second = process_distribute_prizes(&mut pool, 1, &prizes(&[(11, 100)]), &candidates(&[(11, 101)]));
    assert_eq!(second.err(), Some(CustomError::MatchAlreadyFinalized));
}

#[test]
fn prize_events_mirror_transfers() {
    let transfers = vec![
        PrizeTransfer { user: 11, destination: 101, amount: 300 },
        PrizeTransfer { user: 12, destination: 102, amount: 200 },
    ];
    let events = prize_events(&transfers, &String::from("weekly"));
    assert_eq!(events.len(), 2);
    assert_eq!(events[0].user, 11);
    assert_eq!(events[0].amount, 300);
    assert_eq!(events[0].match_id, "weekly");
    assert_eq!(events[1].user, 12);
    assert_eq!(events[1].amount, 200);
    assert_eq!(events[1].match_id, "weekly");
}

#[test]
fn full_match_scenario() {
    // Pool created with the registration deadline at time 100.
    let mut pool = process_initialize(1, String::from("weekly"), 100, 254, 253);
    // Two deposits while registration is open.
    process_deposit(&mut pool, 11, 500, 10).expect("deposit of 500 at time 10");
    assert_eq!(pool.total_deposited, 500);
    assert_eq!(pool.deposits.len(), 1);
    process_deposit(&mut pool, 12, 300, 20).expect("deposit of 300 at time 20");
    assert_eq!(pool.total_deposited, 800);
    // The admin ends the match after the deadline.
    process_end_match(&mut pool, 1).expect("admin ends the match");
    assert!(!pool.is_active);
    // Prizes summing to 500 fit into the 800 deposited; both winners match.
    let transfers = process_distribute_prizes(
        &mut pool,
        1,
        &prizes(&[(11, 300), (12, 200)]),
        &candidates(&[(11, 101), (12, 102)]),
    )
    .expect("distribution succeeds");
    assert_eq!(transfers.len(), 2);
    assert!(pool.is_finalized);
    // 300 is still held by the fund-holding account, so closing fails.
    assert_eq!(process_close_match_pool(&pool, 1, 300).err(), Some(CustomError::PoolNotEmpty));
    // A second distribution attempt fails.
    let again = process_distribute_prizes(&mut pool, 1, &prizes(&[(11, 100)]), &candidates(&[(11, 101)]));
    assert_eq!(again.err(), Some(CustomError::MatchAlreadyFinalized));
}
