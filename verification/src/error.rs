//! Error taxonomy for every pool operation.

use vstd::prelude::*;

verus! {

/// Why a pool operation was refused.  Every precondition failure aborts the
/// whole operation with one of these; no state is mutated on an error.
#[derive(Clone, Copy, Debug, PartialEq, Eq, Structural)]
pub enum CustomError {
    /// The match is no longer (or not yet) accepting this operation because
    /// `is_active` is false.
    MatchInactive,
    /// The match is still active, so distribution cannot start.
    MatchStillActive,
    /// The match has already been finalized (reported by `end_match`).
    MatchFinalized,
    /// The match has already been finalized (reported by `distribute_prizes`).
    MatchAlreadyFinalized,
    /// The match has not been finalized yet, so the pool cannot be closed.
    MatchNotFinalized,
    /// The registration deadline has passed.
    RegistrationClosed,
    /// The caller is not the party the operation is restricted to.
    Unauthorized,
    /// The requested prize amounts exceed what the pool holds.
    InsufficientPoolFunds,
    /// No destination account was supplied for a winner.
    WinnerAccountNotFound,
    /// The fund-holding account still holds a nonzero balance.
    PoolNotEmpty,
    /// The sender's recorded balance does not cover the requested transfer.
    InsufficientBalance,
    /// The external ledger-transfer service reported a failure.
    TokenTransferError,
    /// The pool already records the greatest number of depositors it can hold.
    CapacityExceeded,
}

} // verus!
