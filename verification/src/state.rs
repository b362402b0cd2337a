//! The deposit ledger: pool record, per-user claims, and their invariants.

use vstd::prelude::*;

verus! {

/// Greatest number of distinct depositors one pool may record.
pub const MAX_DEPOSITORS: usize = 50;

/// Greatest length of a pool's match identifier.
pub const MAX_MATCH_ID_LEN: usize = 50;

/// One depositor's claim on the pool: who deposited, and how much of the
/// pooled funds their claim currently covers.
#[derive(Clone, Copy, Debug, PartialEq, Eq, Structural)]
pub struct UserDeposit {
    pub user: u64,
    pub amount: u64,
}

/// The escrow record for one match.
///
/// `admin` is the only identity allowed to run admin operations.  `deposits`
/// holds at most one entry per user, and `total_deposited` always equals the
/// sum of those entries (see [`PoolModel::inv`]).  `bump` and `token_bump`
/// are the derivation parameters with which the host recomputes the pool's
/// and its fund-holding account's deterministic addresses.
pub struct MatchPool {
    pub admin: u64,
    pub match_id: String,
    pub registration_end_time: i64,
    pub total_deposited: u64,
    pub is_active: bool,
    pub is_finalized: bool,
    pub deposits: Vec<UserDeposit>,
    pub bump: u8,
    pub token_bump: u8,
}

/// The mathematical value of a [`MatchPool`]: the same fields over `Seq`.
#[verifier::ext_equal]
pub ghost struct PoolModel {
    pub admin: u64,
    pub match_id: Seq<char>,
    pub registration_end_time: i64,
    pub total_deposited: u64,
    pub is_active: bool,
    pub is_finalized: bool,
    pub deposits: Seq<UserDeposit>,
    pub bump: u8,
    pub token_bump: u8,
}

impl View for MatchPool {
    type V = PoolModel;

    open spec fn view(&self) -> PoolModel {
        PoolModel {
            admin: self.admin,
            match_id: self.match_id@,
            registration_end_time: self.registration_end_time,
            total_deposited: self.total_deposited,
            is_active: self.is_active,
            is_finalized: self.is_finalized,
            deposits: self.deposits@,
            bump: self.bump,
            token_bump: self.token_bump,
        }
    }
}

/// Sum of the recorded claim amounts.
pub open spec fn sum_amounts(s: Seq<UserDeposit>) -> int
    decreases s.len(),
{
    if s.len() == 0 {
        0
    } else {
        sum_amounts(s.drop_last()) + s.last().amount
    }
}

/// Whether some entry records a claim for `user`.
pub open spec fn has_user(s: Seq<UserDeposit>, user: u64) -> bool {
    exists|i: int| 0 <= i < s.len() && s[i].user == user
}

/// The index of `user`'s entry (meaningful only when `has_user` holds,
/// and unique under `users_unique`).
pub open spec fn user_index(s: Seq<UserDeposit>, user: u64) -> int {
    choose|i: int| 0 <= i < s.len() && s[i].user == user
}

/// At most one entry per distinct user.
pub open spec fn users_unique(s: Seq<UserDeposit>) -> bool {
    forall|i: int, j: int| 0 <= i < j < s.len() ==> s[i].user != s[j].user
}

impl PoolModel {
    /// The ledger invariant: the running total equals the sum of the claims,
    /// each user appears at most once, and the record stays within its
    /// bounded storage footprint.
    pub open spec fn inv(self) -> bool {
        &&& self.total_deposited as int == sum_amounts(self.deposits)
        &&& users_unique(self.deposits)
        &&& self.deposits.len() <= MAX_DEPOSITORS
        &&& self.match_id.len() <= MAX_MATCH_ID_LEN
    }
}

impl MatchPool {
    /// The ledger invariant, stated of the concrete record.
    pub open spec fn inv(self) -> bool {
        self@.inv()
    }

    /// An independent record with the same value, for keeping a second copy
    /// of the pool while it is delegated.
    pub fn duplicate(&self) -> (r: MatchPool)
        ensures
            r@ == self@,
    {
        let mut deposits: Vec<UserDeposit> = Vec::new();
        let mut i: usize = 0;
        while i < self.deposits.len()
            invariant
                i <= self.deposits.len(),
                deposits@ == self.deposits@.take(i as int),
            decreases self.deposits.len() - i,
        {
            deposits.push(self.deposits[i]);
            proof {
                assert(deposits@ =~= self.deposits@.take(i + 1 as int));
            }
            i = i + 1;
        }
        proof {
            assert(deposits@ =~= self.deposits@);
        }
        let r = MatchPool {
            admin: self.admin,
            match_id: self.match_id.clone(),
            registration_end_time: self.registration_end_time,
            total_deposited: self.total_deposited,
            is_active: self.is_active,
            is_finalized: self.is_finalized,
            deposits,
            bump: self.bump,
            token_bump: self.token_bump,
        };
        proof {
            assert(r@ =~= self@);
        }
        r
    }
}

/// The index of `user`'s entry in `deposits`, if one exists.
pub fn find_deposit_index(deposits: &Vec<UserDeposit>, user: u64) -> (r: Option<usize>)
    ensures
        match r {
            Some(i) => i < deposits.len() && deposits@[i as int].user == user,
            None => !has_user(deposits@, user),
        },
{
    let mut i: usize = 0;
    while i < deposits.len()
        invariant
            i <= deposits.len(),
            forall|k: int| 0 <= k < i ==> deposits@[k].user != user,
        decreases deposits.len() - i,
    {
        if deposits[i].user == user {
            return Some(i);
        }
        i = i + 1;
    }
    None
}

/// The sum of claim amounts is never negative.
pub proof fn lemma_sum_nonneg(s: Seq<UserDeposit>)
    ensures
        sum_amounts(s) >= 0,
    decreases s.len(),
{
    if s.len() > 0 {
        lemma_sum_nonneg(s.drop_last());
    }
}

/// Appending an entry adds exactly its amount to the sum.
pub proof fn lemma_sum_push(s: Seq<UserDeposit>, d: UserDeposit)
    ensures
        sum_amounts(s.push(d)) == sum_amounts(s) + d.amount,
{
    assert(s.push(d).drop_last() =~= s);
    assert(s.push(d).last() == d);
}

/// Replacing one entry changes the sum by the difference of the amounts.
pub proof fn lemma_sum_update(s: Seq<UserDeposit>, i: int, d: UserDeposit)
    requires
        0 <= i < s.len(),
    ensures
        sum_amounts(s.update(i, d)) == sum_amounts(s) - s[i].amount + d.amount,
    decreases s.len(),
{
    let t = s.update(i, d);
    if i == s.len() - 1 {
        assert(t.drop_last() =~= s.drop_last());
        assert(t.last() == d);
    } else {
        assert(t.drop_last() =~= s.drop_last().update(i, d));
        assert(t.last() == s.last());
        lemma_sum_update(s.drop_last(), i, d);
    }
}

/// No single claim exceeds the sum of all claims.
pub proof fn lemma_entry_le_sum(s: Seq<UserDeposit>, i: int)
    requires
        0 <= i < s.len(),
    ensures
        s[i].amount <= sum_amounts(s),
    decreases s.len(),
{
    if i == s.len() - 1 {
        lemma_sum_nonneg(s.drop_last());
    } else {
        lemma_entry_le_sum(s.drop_last(), i);
        assert(s.drop_last()[i] == s[i]);
    }
}

/// Under uniqueness, the index found for an entry's own user is that entry.
pub proof fn lemma_user_index_of(s: Seq<UserDeposit>, i: int)
    requires
        users_unique(s),
        0 <= i < s.len(),
    ensures
        has_user(s, s[i].user),
        user_index(s, s[i].user) == i,
{
    let u = s[i].user;
    assert(has_user(s, u));
    let j = user_index(s, u);
    assert(0 <= j < s.len() && s[j].user == u);
    if j < i {
        assert(s[j].user != s[i].user);
    } else if i < j {
        assert(s[i].user != s[j].user);
    }
}

} // verus!
