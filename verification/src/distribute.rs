//! The prize-distribution engine.
//!
//! The admin hands in an ordered list of `(user, amount)` prizes and a
//! candidate set of destination fund-holding accounts.  After the lifecycle
//! and funding checks pass, a one-time dictionary from owner identity to
//! destination account is built from the candidate set, and each prize is
//! resolved against it in input order.  An unmatched or zero-amount entry is
//! skipped, not fatal; whatever was skipped, the pool ends the call
//! finalized.  The host issues one external transfer per returned entry,
//! authorized by the pool's own delegated signing authority.

use vstd::prelude::*;
use std::collections::HashMap;
use crate::error::CustomError;
use crate::event::PrizeDistributedEvent;
use crate::state::{MatchPool, PoolModel};

verus! {

broadcast use vstd::std_specs::hash::group_hash_axioms;

/// One requested prize: `amount` for the participant `user`.
#[derive(Clone, Copy, Debug, PartialEq, Eq, Structural)]
pub struct PrizeDistribution {
    pub user: u64,
    pub amount: u64,
}

/// One candidate destination: the fund-holding account `address`, owned by
/// the participant `owner`.
#[derive(Clone, Copy, Debug, PartialEq, Eq, Structural)]
pub struct CandidateAccount {
    pub owner: u64,
    pub address: u64,
}

/// One transfer the host must issue: `amount` out of the pool's
/// fund-holding account into `destination`, which belongs to `user`.
#[derive(Clone, Copy, Debug, PartialEq, Eq, Structural)]
pub struct PrizeTransfer {
    pub user: u64,
    pub destination: u64,
    pub amount: u64,
}

/// Sum of all requested prize amounts.
pub open spec fn prize_sum(s: Seq<PrizeDistribution>) -> int
    decreases s.len(),
{
    if s.len() == 0 {
        0
    } else {
        prize_sum(s.drop_last()) + s.last().amount
    }
}

/// The dictionary from owner identity to destination account that one scan
/// of the candidate set builds; of two candidates with the same owner, the
/// later one wins.
pub open spec fn owner_map(s: Seq<CandidateAccount>) -> Map<u64, u64>
    decreases s.len(),
{
    if s.len() == 0 {
        Map::empty()
    } else {
        owner_map(s.drop_last()).insert(s.last().owner, s.last().address)
    }
}

/// The transfers issued for `prizes` in input order: one per entry whose
/// amount is positive and whose winner has a destination in `accounts`;
/// every other entry is skipped.
pub open spec fn planned_transfers(
    prizes: Seq<PrizeDistribution>,
    accounts: Map<u64, u64>,
) -> Seq<PrizeTransfer>
    decreases prizes.len(),
{
    if prizes.len() == 0 {
        Seq::empty()
    } else {
        let rest = planned_transfers(prizes.drop_last(), accounts);
        let p = prizes.last();
        if p.amount > 0 && accounts.contains_key(p.user) {
            rest.push(PrizeTransfer { user: p.user, destination: accounts[p.user], amount: p.amount })
        } else {
            rest
        }
    }
}

/// The first reason distribution is refused, if any: the caller must be the
/// admin, the match must be ended but not yet finalized, and the requested
/// prizes must not exceed what was deposited.
pub open spec fn distribute_check(
    m: PoolModel,
    caller: u64,
    prizes: Seq<PrizeDistribution>,
) -> Option<CustomError> {
    if caller != m.admin {
        Some(CustomError::Unauthorized)
    } else if m.is_active {
        Some(CustomError::MatchStillActive)
    } else if m.is_finalized {
        Some(CustomError::MatchAlreadyFinalized)
    } else if prize_sum(prizes) > m.total_deposited {
        Some(CustomError::InsufficientPoolFunds)
    } else {
        None
    }
}

/// The pool after a distribution call: only `is_finalized` changes, and it
/// changes whether or not every prize entry found a destination.
pub open spec fn distribute_apply(m: PoolModel) -> PoolModel {
    PoolModel { is_finalized: true, ..m }
}

/// A prefix of the prize list never sums to more than the whole list.
proof fn lemma_prize_sum_take_le(s: Seq<PrizeDistribution>, k: int)
    requires
        0 <= k <= s.len(),
    ensures
        prize_sum(s.take(k)) <= prize_sum(s),
    decreases s.len() - k,
{
    if k == s.len() {
        assert(s.take(k) =~= s);
    } else {
        assert(s.take(k + 1).drop_last() =~= s.take(k));
        assert(s.take(k + 1).last() == s[k]);
        lemma_prize_sum_take_le(s, k + 1);
    }
}

/// Resolves `prizes` against `candidates` and finalizes the pool.
///
/// On success the returned list holds exactly the transfers the host must
/// issue, in prize order, per [`planned_transfers`]; entries with no
/// matching destination are skipped without error, and the pool is
/// finalized regardless.  On an error the pool is untouched.
#[verifier::loop_isolation(false)]
pub fn process_distribute_prizes(
    pool: &mut MatchPool,
    caller: u64,
    prizes: &Vec<PrizeDistribution>,
    candidates: &Vec<CandidateAccount>,
) -> (result: Result<Vec<PrizeTransfer>, CustomError>)
    requires
        old(pool).inv(),
    ensures
        final(pool).inv(),
        match result {
            Ok(transfers) => {
                &&& distribute_check(old(pool)@, caller, prizes@) is None
                &&& final(pool)@ == distribute_apply(old(pool)@)
                &&& transfers@ == planned_transfers(prizes@, owner_map(candidates@))
            },
            Err(e) => {
                &&& Some(e) == distribute_check(old(pool)@, caller, prizes@)
                &&& final(pool)@ == old(pool)@
            },
        },
{
    if caller != pool.admin {
        return Err(CustomError::Unauthorized);
    }
    if pool.is_active {
        return Err(CustomError::MatchStillActive);
    }
    if pool.is_finalized {
        return Err(CustomError::MatchAlreadyFinalized);
    }

    // Sum the requested amounts with checked addition; a sum that cannot
    // even be represented certainly exceeds the pooled total.
    let mut requested: u64 = 0;
    let mut i: usize = 0;
    while i < prizes.len()
        invariant
            i <= prizes.len(),
            requested as int == prize_sum(prizes@.take(i as int)),
        decreases prizes.len() - i,
    {
        proof {
            assert(prizes@.take(i + 1 as int).drop_last() =~= prizes@.take(i as int));
            assert(prizes@.take(i + 1 as int).last() == prizes@[i as int]);
        }
        match requested.checked_add(prizes[i].amount) {
            Some(next) => {
                requested = next;
            },
            None => {
                proof {
                    lemma_prize_sum_take_le(prizes@, i + 1 as int);
                }
                return Err(CustomError::InsufficientPoolFunds);
            },
        }
        i = i + 1;
    }
    proof {
        assert(prizes@.take(prizes@.len() as int) =~= prizes@);
    }
    if requested > pool.total_deposited {
        return Err(CustomError::InsufficientPoolFunds);
    }

    // One scan of the candidate set builds the owner-to-account dictionary,
    // so each prize is resolved by a single lookup.
    let mut accounts: HashMap<u64, u64> = HashMap::new();
    let mut i: usize = 0;
    while i < candidates.len()
        invariant
            i <= candidates.len(),
            accounts@ == owner_map(candidates@.take(i as int)),
        decreases candidates.len() - i,
    {
        proof {
            assert(candidates@.take(i + 1 as int).drop_last() =~= candidates@.take(i as int));
            assert(candidates@.take(i + 1 as int).last() == candidates@[i as int]);
        }
        let c = candidates[i];
        accounts.insert(c.owner, c.address);
        i = i + 1;
    }
    proof {
        assert(candidates@.take(candidates@.len() as int) =~= candidates@);
    }

    let ghost dict = owner_map(candidates@);
    let mut transfers: Vec<PrizeTransfer> = Vec::new();
    let mut i: usize = 0;
    while i < prizes.len()
        invariant
            i <= prizes.len(),
            accounts@ == dict,
            transfers@ == planned_transfers(prizes@.take(i as int), dict),
        decreases prizes.len() - i,
    {
        proof {
            assert(prizes@.take(i + 1 as int).drop_last() =~= prizes@.take(i as int));
            assert(prizes@.take(i + 1 as int).last() == prizes@[i as int]);
        }
        let p = prizes[i];
        if p.amount > 0 {
            match accounts.get(&p.user) {
                Some(address) => {
                    transfers.push(
                        PrizeTransfer { user: p.user, destination: *address, amount: p.amount },
                    );
                },
                None => {
                    // No destination for this winner: skip the entry, as the
                    // partial-success policy prescribes.
                },
            }
        }
        i = i + 1;
    }
    proof {
        assert(prizes@.take(prizes@.len() as int) =~= prizes@);
    }

    pool.is_finalized = true;
    proof {
        assert(pool@ =~= distribute_apply(old(pool)@));
    }
    Ok(transfers)
}

/// The notification the host emits for each transfer actually issued.
pub fn prize_events(transfers: &Vec<PrizeTransfer>, match_id: &String) -> (events: Vec<
    PrizeDistributedEvent,
>)
    ensures
        events@.len() == transfers@.len(),
        forall|i: int|
            0 <= i < transfers@.len() ==> {
                &&& (#[trigger] events@[i]).user == transfers@[i].user
                &&& events@[i].amount == transfers@[i].amount
                &&& events@[i].match_id@ == match_id@
            },
{
    let mut events: Vec<PrizeDistributedEvent> = Vec::new();
    let mut i: usize = 0;
    while i < transfers.len()
        invariant
            i <= transfers.len(),
            events@.len() == i,
            forall|k: int|
                0 <= k < i ==> {
                    &&& (#[trigger] events@[k]).user == transfers@[k].user
                    &&& events@[k].amount == transfers@[k].amount
                    &&& events@[k].match_id@ == match_id@
                },
        decreases transfers.len() - i,
    {
        let t = transfers[i];
        events.push(PrizeDistributedEvent {
            user: t.user,
            match_id: match_id.clone(),
            amount: t.amount,
        });
        i = i + 1;
    }
    events
}

} // verus!
