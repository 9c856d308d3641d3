//! Client-side funding gate: a write to the network is paid for first, and
//! the payment is folded into the local transfer actor before the write goes
//! ahead.
//!
//! - `ledger`: the boundary with `sn_transfers` and `sn_data_types`, taken
//!   on trust.
//! - `actor`: the local transfer actor, with `register` and `apply`.
//! - `coordinator`: one write attempt, from the debit request to the
//!   authorization of the write.
//! - `client`: the facade that write operations call.
//! - `laws`: what holds over any run of the actor and of the coordinator.
//! - `errors`: the errors that are surfaced.

pub mod actor;
pub mod client;
pub mod coordinator;
pub mod errors;
pub mod laws;
pub mod ledger;
