//! The errors that the library surfaces.

use vstd::prelude::*;

verus! {

/// Why a payment, or the write that it pays for, did not go through.
#[derive(Clone, Copy, Debug, PartialEq, Eq, Structural)]
pub enum Error {
    /// Registering a proof gave no event to apply: the proof is stale, a
    /// duplicate, or for a debit that is not the next one.
    NoTransferEventsForLocalActor,
    /// The balance does not cover the debit.
    InsufficientBalance,
    /// The event is not the immediate successor of what was applied last.
    OutOfOrder,
    /// The proof is malformed, or is not for this account or this debit.
    InvalidProof,
    /// The sequence number cannot advance any further.
    SequenceOverflow,
    /// A write was reported for an attempt whose payment is not applied.
    WriteNotAuthorized,
    /// The network did not answer the debit request with a proof.
    Network,
    /// The debit was applied, and the write that it paid for failed.
    WriteFailedAfterPayment,
}

} // verus!
