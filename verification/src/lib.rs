//! Escrow core for time-boxed matches.
//!
//! A `MatchPool` holds the stakes deposited for one match: a running total,
//! one claim record per depositor, and the lifecycle flags that gate every
//! operation.  The modules below cover the deposit ledger, the lifecycle
//! state machine, the admin authorization gate, the prize-distribution
//! engine, and the delegation protocol that moves authority over the pool
//! between the authoritative context and a low-latency rollup context.
//!
//! The surrounding host performs the actual fund movements, reads the clock,
//! and verifies caller signatures; this crate decides, for plain input
//! values, whether each operation is legal and what the next state is.

pub mod deposit;
pub mod distribute;
pub mod error;
pub mod event;
pub mod laws;
pub mod lifecycle;
pub mod rollup;
pub mod settlement;
pub mod state;
