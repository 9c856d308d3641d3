//! The write-payment coordinator: one attempt to pay for a write, from the
//! debit request to the authorization of the write.
//!
//! An attempt moves through its stages in one order only. Each transition
//! acts in the stage it belongs to and leaves an attempt in any other stage
//! as it is; a failed attempt stays failed, with the error that failed it.

use crate::actor::{
    application, debit_of, debited, registration, ActorEvent, DebitRequest, LocalActor,
    LocalActorState, Registration,
};
use crate::errors::Error;
use crate::ledger::claim_of;
use sn_data_types::TransferAgreementProof;
use vstd::prelude::*;

verus! {

/// Where a write attempt stands.
#[derive(Clone, Copy, Debug, PartialEq, Eq, Structural)]
pub enum Stage {
    Idle,
    DebitRequested,
    ProofReceived,
    Registered,
    Applied,
    PaidWriteAuthorized,
    Failed,
}

/// A write attempt's stage, with what the attempt holds at that stage.
pub enum Progress {
    /// Nothing was asked for yet.
    Idle,
    /// The debit request is with the network.
    DebitRequested(DebitRequest),
    /// The network answered the request with a proof.
    ProofReceived(DebitRequest, TransferAgreementProof),
    /// The actor registered the proof and gave an event for it.
    Registered(DebitRequest, ActorEvent),
    /// The actor applied the event: the debit is committed.
    Applied(DebitRequest),
    /// The write is paid for and may proceed.
    PaidWriteAuthorized(DebitRequest),
    /// The attempt is over; no write may proceed.
    Failed(Error),
}

/// What the driver of an attempt has to do next.
#[derive(Clone, Copy, Debug, PartialEq, Eq, Structural)]
pub enum Action {
    /// Ask the coordinator for a debit request.
    RequestDebit,
    /// Send the request to the network and wait for the proof.
    SubmitDebit(DebitRequest),
    /// Take the actor and let the coordinator commit the payment.
    CommitPayment,
    /// Write the data.
    PerformWrite,
    /// Hand the error to the caller; nothing is written.
    Surface(Error),
}

/// What a finished pay-and-write leaves with the caller.
#[derive(Clone, Copy, Debug, PartialEq, Eq, Structural)]
pub struct WriteReceipt {
    /// The sequence number of the debit that paid for the write.
    pub sequence: u64,
    /// The amount paid, in nano tokens.
    pub amount: u64,
}

impl Progress {
    /// The stage alone.
    pub open spec fn stage(self) -> Stage {
        match self {
            Progress::Idle => Stage::Idle,
            Progress::DebitRequested(_) => Stage::DebitRequested,
            Progress::ProofReceived(_, _) => Stage::ProofReceived,
            Progress::Registered(_, _) => Stage::Registered,
            Progress::Applied(_) => Stage::Applied,
            Progress::PaidWriteAuthorized(_) => Stage::PaidWriteAuthorized,
            Progress::Failed(_) => Stage::Failed,
        }
    }
}

/// The one step that leads from each stage towards the write.
pub open spec fn successor(stage: Stage) -> Option<Stage> {
    match stage {
        Stage::Idle => Some(Stage::DebitRequested),
        Stage::DebitRequested => Some(Stage::ProofReceived),
        Stage::ProofReceived => Some(Stage::Registered),
        Stage::Registered => Some(Stage::Applied),
        Stage::Applied => Some(Stage::PaidWriteAuthorized),
        Stage::PaidWriteAuthorized => None,
        Stage::Failed => None,
    }
}

/// The moves that an attempt can make: forward by one stage, or from any
/// stage but `Failed` to `Failed`.
pub open spec fn may_follow(before: Stage, after: Stage) -> bool {
    ||| successor(before) == Some(after)
    ||| (before != Stage::Failed && after == Stage::Failed)
}

/// A stretch of an attempt's way: each stage follows the one before it by a
/// move that the coordinator can make.
pub open spec fn is_path(stages: Seq<Stage>) -> bool {
    &&& stages.len() > 0
    &&& forall|i: int|
        0 <= i < stages.len() - 1 ==> may_follow(#[trigger] stages[i], stages[i + 1])
}

/// Whether an attempt can get from one stage to the other.
pub open spec fn leads_to(before: Stage, after: Stage) -> bool {
    exists|stages: Seq<Stage>|
        #[trigger] is_path(stages) && stages.first() == before && stages.last() == after
}

/// Every stage leads to itself.
pub proof fn lemma_leads_to_itself(stage: Stage)
    ensures
        leads_to(stage, stage),
{
    assert(is_path(seq![stage]));
}

/// A way that leads to a stage leads on to whatever the next transition
/// makes of that stage.
pub proof fn lemma_leads_one_further(before: Stage, between: Stage, after: Stage)
    requires
        leads_to(before, between),
        after == between || may_follow(between, after),
    ensures
        leads_to(before, after),
{
    if after != between {
        let stages = choose|stages: Seq<Stage>|
            #[trigger] is_path(stages) && stages.first() == before && stages.last() == between;
        let longer = stages.push(after);
        assert forall|i: int| 0 <= i < longer.len() - 1 implies may_follow(
            #[trigger] longer[i],
            longer[i + 1],
        ) by {
            if i < stages.len() - 1 {
                assert(may_follow(stages[i], stages[i + 1]));
            }
        }
        assert(is_path(longer));
    }
}

/// What the driver has to do for an attempt at this point.
pub open spec fn action_for(progress: Progress) -> Action {
    match progress {
        Progress::Idle => Action::RequestDebit,
        Progress::DebitRequested(request) => Action::SubmitDebit(request),
        Progress::ProofReceived(_, _) => Action::CommitPayment,
        Progress::Registered(_, _) => Action::CommitPayment,
        Progress::Applied(_) => Action::CommitPayment,
        Progress::PaidWriteAuthorized(_) => Action::PerformWrite,
        Progress::Failed(error) => Action::Surface(error),
    }
}

/// Where asking for a debit of `cost` leads, for an account in `state`.
pub open spec fn debit_requested(state: LocalActorState, cost: u64) -> Progress {
    if state.sequence >= u64::MAX {
        Progress::Failed(Error::SequenceOverflow)
    } else if cost > state.balance {
        Progress::Failed(Error::InsufficientBalance)
    } else {
        Progress::DebitRequested(
            DebitRequest { sequence: (state.sequence + 1) as u64, amount: cost },
        )
    }
}

/// What the end of an attempt hands to the caller, given whether the write
/// that followed it succeeded.
pub open spec fn conclusion(progress: Progress, written: bool) -> Result<WriteReceipt, Error> {
    match progress {
        Progress::PaidWriteAuthorized(request) => if written {
            Ok(WriteReceipt { sequence: request.sequence, amount: request.amount })
        } else {
            Err(Error::WriteFailedAfterPayment)
        },
        Progress::Failed(error) => Err(error),
        _ => Err(Error::WriteNotAuthorized),
    }
}

/// What committing an attempt comes to: where the attempt stands after it,
/// and what became of the actor. The actor changes only where the attempt
/// gets from its proof or its event to `PaidWriteAuthorized`, and then by
/// exactly the debit of that proof or event.
pub open spec fn commits(
    attempt: Progress,
    before: LocalActor,
    next: Progress,
    after: LocalActor,
) -> bool {
    match attempt {
        Progress::ProofReceived(request, proof) => match registration(
            before@,
            debit_of(claim_of(proof)),
            before.endorses(proof),
            before.owns(proof),
        ) {
            Registration::Event(debit) => if debit == request@ {
                &&& next == Progress::PaidWriteAuthorized(request)
                &&& after@ == debited(before@, request@)
            } else {
                &&& next == Progress::Failed(Error::InvalidProof)
                &&& after@ == before@
            },
            Registration::Nothing => {
                &&& next == Progress::Failed(Error::NoTransferEventsForLocalActor)
                &&& after@ == before@
            },
            Registration::Rejected(error) => {
                &&& next == Progress::Failed(error)
                &&& after@ == before@
            },
        },
        Progress::Registered(request, event) => match application(
            before@,
            event@,
            before.owns(event.agreement()),
        ) {
            Ok(state) => {
                &&& next == Progress::PaidWriteAuthorized(request)
                &&& after@ == state
            },
            Err(error) => {
                &&& next == Progress::Failed(error)
                &&& after@ == before@
            },
        },
        Progress::Applied(request) => {
            &&& next == Progress::PaidWriteAuthorized(request)
            &&& after@ == before@
        },
        other => next == other && after@ == before@,
    }
}

/// One attempt to pay for a write. Only the transitions below make and
/// change one, so an attempt reaches a stage only along the moves that
/// `may_follow` allows.
pub struct WritePayment {
    progress: Progress,
}

impl View for WritePayment {
    type V = Progress;

    closed spec fn view(&self) -> Progress {
        self.progress
    }
}

impl WritePayment {
    /// A new attempt, at `Idle`.
    pub fn new() -> (attempt: WritePayment)
        ensures
            attempt@ == Progress::Idle,
    {
        WritePayment { progress: Progress::Idle }
    }

    /// The stage that the attempt is at.
    pub fn stage(&self) -> (stage: Stage)
        ensures
            stage == self@.stage(),
    {
        match &self.progress {
            Progress::Idle => Stage::Idle,
            Progress::DebitRequested(_) => Stage::DebitRequested,
            Progress::ProofReceived(_, _) => Stage::ProofReceived,
            Progress::Registered(_, _) => Stage::Registered,
            Progress::Applied(_) => Stage::Applied,
            Progress::PaidWriteAuthorized(_) => Stage::PaidWriteAuthorized,
            Progress::Failed(_) => Stage::Failed,
        }
    }

    /// What the driver has to do next.
    pub fn next_action(&self) -> (action: Action)
        ensures
            action == action_for(self@),
            action == Action::PerformWrite <==> self@.stage() == Stage::PaidWriteAuthorized,
    {
        match &self.progress {
            Progress::Idle => Action::RequestDebit,
            Progress::DebitRequested(request) => Action::SubmitDebit(*request),
            Progress::ProofReceived(_, _) => Action::CommitPayment,
            Progress::Registered(_, _) => Action::CommitPayment,
            Progress::Applied(_) => Action::CommitPayment,
            Progress::PaidWriteAuthorized(_) => Action::PerformWrite,
            Progress::Failed(error) => Action::Surface(*error),
        }
    }

    /// Whether the write may proceed: only once the payment is applied and
    /// the attempt authorized.
    pub fn may_write(&self) -> (allowed: bool)
        ensures
            allowed <==> self@.stage() == Stage::PaidWriteAuthorized,
    {
        match &self.progress {
            Progress::PaidWriteAuthorized(_) => true,
            _ => false,
        }
    }

    /// `Idle` to `DebitRequested`: a request for `cost`, carrying the
    /// sequence number after the actor's. The attempt fails at once where
    /// the balance does not cover the cost.
    pub fn request_debit(self, actor: &LocalActor, cost: u64) -> (next: WritePayment)
        ensures
            next@ == match self@ {
                Progress::Idle => debit_requested(actor@, cost),
                other => other,
            },
            next@.stage() == self@.stage() || may_follow(self@.stage(), next@.stage()),
    {
        match self.progress {
            Progress::Idle => {
                let sequence = actor.sequence();
                if sequence == u64::MAX {
                    WritePayment { progress: Progress::Failed(Error::SequenceOverflow) }
                } else if cost > actor.balance() {
                    WritePayment { progress: Progress::Failed(Error::InsufficientBalance) }
                } else {
                    WritePayment {
                        progress: Progress::DebitRequested(
                            DebitRequest { sequence: sequence + 1, amount: cost },
                        ),
                    }
                }
            },
            other => WritePayment { progress: other },
        }
    }

    /// `DebitRequested` to `ProofReceived`: the network answered with a
    /// proof.
    pub fn proof_received(self, proof: TransferAgreementProof) -> (next: WritePayment)
        ensures
            next@ == match self@ {
                Progress::DebitRequested(request) => Progress::ProofReceived(request, proof),
                other => other,
            },
            next@.stage() == self@.stage() || may_follow(self@.stage(), next@.stage()),
    {
        match self.progress {
            Progress::DebitRequested(request) => WritePayment {
                progress: Progress::ProofReceived(request, proof),
            },
            other => WritePayment { progress: other },
        }
    }

    /// Any stage to `Failed`: a validation or network error, or a
    /// cancellation, ends the attempt. An attempt that failed before keeps
    /// its first error.
    pub fn fail(self, error: Error) -> (next: WritePayment)
        ensures
            next@ == match self@ {
                Progress::Failed(first) => Progress::Failed(first),
                _ => Progress::Failed(error),
            },
            next@.stage() == self@.stage() || may_follow(self@.stage(), next@.stage()),
    {
        match self.progress {
            Progress::Failed(first) => WritePayment { progress: Progress::Failed(first) },
            _ => WritePayment { progress: Progress::Failed(error) },
        }
    }

    /// `ProofReceived` to `Registered`: the actor validates the proof. The
    /// attempt fails where the proof is refused, where it gives no event,
    /// and where the event is not for the debit that was requested.
    pub fn register(self, actor: &LocalActor) -> (next: WritePayment)
        ensures
            match self@ {
                Progress::ProofReceived(request, proof) => match registration(
                    actor@,
                    debit_of(claim_of(proof)),
                    actor.endorses(proof),
                    actor.owns(proof),
                ) {
                    Registration::Event(debit) => if debit == request@ {
                        &&& next@ matches Progress::Registered(same, event)
                        &&& same == request
                        &&& event@ == debit
                        &&& event.agreement() == proof
                    } else {
                        next@ == Progress::Failed(Error::InvalidProof)
                    },
                    Registration::Nothing => next@ == Progress::Failed(
                        Error::NoTransferEventsForLocalActor,
                    ),
                    Registration::Rejected(error) => next@ == Progress::Failed(error),
                },
                other => next@ == other,
            },
            next@.stage() == self@.stage() || may_follow(self@.stage(), next@.stage()),
    {
        match self.progress {
            Progress::ProofReceived(request, proof) => {
                match actor.register(proof) {
                    Err(error) => WritePayment { progress: Progress::Failed(error) },
                    Ok(None) => WritePayment {
                        progress: Progress::Failed(Error::NoTransferEventsForLocalActor),
                    },
                    Ok(Some(event)) => {
                        if event.sequence() == request.sequence && event.amount()
                            == request.amount {
                            WritePayment { progress: Progress::Registered(request, event) }
                        } else {
                            WritePayment { progress: Progress::Failed(Error::InvalidProof) }
                        }
                    },
                }
            },
            other => WritePayment { progress: other },
        }
    }

    /// `Registered` to `Applied`: the actor commits the event. This is the
    /// only transition that changes the actor.
    pub fn apply(self, actor: &mut LocalActor) -> (next: WritePayment)
        ensures
            match self@ {
                Progress::Registered(request, event) => match application(
                    old(actor)@,
                    event@,
                    old(actor).owns(event.agreement()),
                ) {
                    Ok(state) => next@ == Progress::Applied(request) && final(actor)@ == state,
                    Err(error) => next@ == Progress::Failed(error) && final(actor)@ == old(
                        actor,
                    )@,
                },
                other => next@ == other && final(actor)@ == old(actor)@,
            },
            next@.stage() == self@.stage() || may_follow(self@.stage(), next@.stage()),
            forall|proof: TransferAgreementProof|
                #[trigger] final(actor).endorses(proof) == old(actor).endorses(proof),
            forall|proof: TransferAgreementProof|
                #[trigger] final(actor).owns(proof) == old(actor).owns(proof),
    {
        match self.progress {
            Progress::Registered(request, event) => {
                match actor.apply(event) {
                    Ok(()) => WritePayment { progress: Progress::Applied(request) },
                    Err(error) => WritePayment { progress: Progress::Failed(error) },
                }
            },
            other => WritePayment { progress: other },
        }
    }

    /// `Applied` to `PaidWriteAuthorized`.
    pub fn authorize(self) -> (next: WritePayment)
        ensures
            next@ == match self@ {
                Progress::Applied(request) => Progress::PaidWriteAuthorized(request),
                other => other,
            },
            next@.stage() == self@.stage() || may_follow(self@.stage(), next@.stage()),
    {
        match self.progress {
            Progress::Applied(request) => WritePayment {
                progress: Progress::PaidWriteAuthorized(request),
            },
            other => WritePayment { progress: other },
        }
    }

    /// `ProofReceived` to `PaidWriteAuthorized` in one go: register, apply,
    /// authorize. The caller holds the actor for the whole of it, so nothing
    /// comes between the validation and the commit. The actor changes only
    /// where the attempt ends authorized, and then by exactly the debit that
    /// was requested.
    pub fn commit(self, actor: &mut LocalActor) -> (next: WritePayment)
        ensures
            commits(self@, *old(actor), next@, *final(actor)),
            leads_to(self@.stage(), next@.stage()),
            forall|proof: TransferAgreementProof|
                #[trigger] final(actor).endorses(proof) == old(actor).endorses(proof),
            forall|proof: TransferAgreementProof|
                #[trigger] final(actor).owns(proof) == old(actor).owns(proof),
    {
        let ghost first = self@.stage();
        let registered = self.register(actor);
        let ghost second = registered@.stage();
        let applied = registered.apply(actor);
        let ghost third = applied@.stage();
        let next = applied.authorize();
        proof {
            lemma_leads_to_itself(first);
            lemma_leads_one_further(first, first, second);
            lemma_leads_one_further(first, second, third);
            lemma_leads_one_further(first, third, next@.stage());
        }
        next
    }

    /// The end of the attempt, once the write that it paid for was tried:
    /// the receipt, or the error to surface. A write that failed after its
    /// payment went through is told apart from every other failure.
    pub fn conclude(self, written: bool) -> (outcome: Result<WriteReceipt, Error>)
        ensures
            outcome == conclusion(self@, written),
    {
        match self.progress {
            Progress::PaidWriteAuthorized(request) => {
                if written {
                    Ok(WriteReceipt { sequence: request.sequence, amount: request.amount })
                } else {
                    Err(Error::WriteFailedAfterPayment)
                }
            },
            Progress::Failed(error) => Err(error),
            _ => Err(Error::WriteNotAuthorized),
        }
    }
}

} // verus!
