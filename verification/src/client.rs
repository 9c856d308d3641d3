//! The client facade: what write operations call to get their payment
//! committed, and the balance query.

use crate::actor::{debit_of, debited, registration, LocalActor, Registration};
use crate::coordinator::{commits, debit_requested, WritePayment};
use crate::errors::Error;
use crate::ledger::claim_of;
use sn_data_types::TransferAgreementProof;
use vstd::prelude::*;

verus! {

/// A client session: the owner of the local transfer actor.
pub struct Client {
    transfer_actor: LocalActor,
}

impl Client {
    /// The session's transfer actor.
    pub closed spec fn actor(self) -> LocalActor {
        self.transfer_actor
    }

    /// A session around the given actor.
    pub fn new(transfer_actor: LocalActor) -> (client: Client)
        ensures
            client.actor() == transfer_actor,
    {
        Client { transfer_actor }
    }

    /// The committed balance, in nano tokens.
    pub fn current_balance(&self) -> (balance: u64)
        ensures
            balance == self.actor()@.balance,
    {
        self.transfer_actor.balance()
    }

    /// Starts the payment for a write that costs `cost`: a new attempt, taken
    /// from `Idle` to `DebitRequested`, or failed where the balance does not
    /// cover the cost.
    pub fn begin_write_payment(&self, cost: u64) -> (attempt: WritePayment)
        ensures
            attempt@ == debit_requested(self.actor()@, cost),
    {
        WritePayment::new().request_debit(&self.transfer_actor, cost)
    }

    /// Applies a successful payment locally, once the network has agreed to
    /// the debit: registers the proof with the local actor, then applies the
    /// event that the registration gave. A proof that gives no event is an
    /// error here, and the account then stays as it was.
    pub fn apply_write_payment_to_local_actor(&mut self, debit_proof: TransferAgreementProof) -> (outcome:
        Result<(), Error>)
        ensures
            match registration(
                old(self).actor()@,
                debit_of(claim_of(debit_proof)),
                old(self).actor().endorses(debit_proof),
                old(self).actor().owns(debit_proof),
            ) {
                Registration::Event(debit) => {
                    &&& outcome is Ok
                    &&& final(self).actor()@ == debited(old(self).actor()@, debit)
                },
                Registration::Nothing => {
                    &&& outcome == Err::<(), Error>(Error::NoTransferEventsForLocalActor)
                    &&& final(self).actor()@ == old(self).actor()@
                },
                Registration::Rejected(error) => {
                    &&& outcome == Err::<(), Error>(error)
                    &&& final(self).actor()@ == old(self).actor()@
                },
            },
            forall|proof: TransferAgreementProof|
                #[trigger] final(self).actor().endorses(proof) == old(self).actor().endorses(
                    proof,
                ),
            forall|proof: TransferAgreementProof|
                #[trigger] final(self).actor().owns(proof) == old(self).actor().owns(proof),
    {
        let register_event = match self.transfer_actor.register(debit_proof) {
            Err(error) => {
                return Err(error);
            },
            Ok(None) => {
                return Err(Error::NoTransferEventsForLocalActor);
            },
            Ok(Some(event)) => event,
        };
        self.transfer_actor.apply(register_event)
    }

    /// Commits the payment of an attempt that holds its proof, with the
    /// actor held for the whole of it.
    pub fn commit_write_payment(&mut self, attempt: WritePayment) -> (next: WritePayment)
        ensures
            commits(attempt@, old(self).actor(), next@, final(self).actor()),
            forall|proof: TransferAgreementProof|
                #[trigger] final(self).actor().endorses(proof) == old(self).actor().endorses(
                    proof,
                ),
            forall|proof: TransferAgreementProof|
                #[trigger] final(self).actor().owns(proof) == old(self).actor().owns(proof),
    {
        attempt.commit(&mut self.transfer_actor)
    }
}

} // verus!
