//! Notifications the host emits after a successful operation.
//!
//! The core only builds these values; handing them to an observability sink
//! is the host's job, and their loss changes nothing about the ledger.

use vstd::prelude::*;

verus! {

/// A deposit was recorded for `user` in the pool named `match_id`.
pub struct DepositEvent {
    pub user: u64,
    pub match_id: String,
    pub amount: u64,
}

/// The match was ended; `total_deposited` is the final pooled total.
pub struct MatchEndedEvent {
    pub match_id: String,
    pub total_deposited: u64,
}

/// A prize of `amount` was paid out to `user`.
pub struct PrizeDistributedEvent {
    pub user: u64,
    pub match_id: String,
    pub amount: u64,
}

} // verus!
