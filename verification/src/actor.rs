//! The local transfer actor: the client's own replica of its account.
//!
//! A debit reaches the account in two steps. `register` validates a proof
//! against the account as it stands and changes nothing; `apply` commits the
//! event that `register` gave, and is the only step that changes the account.

use crate::errors::Error;
use crate::ledger::{
    actor_apply_registration, actor_balance, actor_from_snapshot, actor_new, actor_owns_debit,
    actor_register, claim_of, debits_owner, endorsed, ledger_of, proof_amount, proof_counter,
    registered_proof, transfer_fault, wallet_ledger, wallet_next_debit, DebitClaim, KeypairActor,
    Ledger, TransferFault,
};
use sn_data_types::{Keypair, SectionElders, TransferAgreementProof};
use sn_transfers::{TransferRegistrationSent, Wallet};
use vstd::prelude::*;

verus! {

/// The committed state of an account.
pub struct LocalActorState {
    /// The balance, in nano tokens.
    pub balance: nat,
    /// The sequence number of the debit that was applied last; zero before
    /// the first.
    pub sequence: nat,
}

/// A debit: the sequence number that it takes the account to, and what it
/// costs.
pub struct Debit {
    pub sequence: nat,
    pub amount: nat,
}

/// What registering a proof comes to.
pub enum Registration {
    /// The proof is for the next debit: this event is to be applied.
    Event(Debit),
    /// The proof is sound and is not for the next debit: nothing to do.
    Nothing,
    /// The proof is refused.
    Rejected(Error),
}

/// The account that a wallet's ledger stands for.
pub open spec fn state_of(ledger: Ledger) -> LocalActorState {
    LocalActorState { balance: ledger.balance as nat, sequence: ledger.next_debit as nat }
}

/// The debit that a proof claims.
pub open spec fn debit_of(claim: DebitClaim) -> Debit {
    Debit { sequence: (claim.counter + 1) as nat, amount: claim.amount as nat }
}

/// The account after a debit.
pub open spec fn debited(state: LocalActorState, debit: Debit) -> LocalActorState {
    LocalActorState { balance: (state.balance - debit.amount) as nat, sequence: debit.sequence }
}

/// What registering a proof comes to, for an account in `state`, a proof that
/// claims `debit`, and the two findings on the proof: whether its signatures
/// hold (`endorsed`) and whether it debits this account (`owned`).
///
/// Validation comes first. A sound proof for any debit but the next one is
/// nothing to act on. The next debit is refused where the sequence number
/// has no successor, or where the balance does not cover the amount.
pub open spec fn registration(
    state: LocalActorState,
    debit: Debit,
    endorsed: bool,
    owned: bool,
) -> Registration {
    if !endorsed || !owned {
        Registration::Rejected(Error::InvalidProof)
    } else if debit.sequence != state.sequence + 1 {
        Registration::Nothing
    } else if debit.sequence > u64::MAX {
        Registration::Rejected(Error::SequenceOverflow)
    } else if debit.amount > state.balance {
        Registration::Rejected(Error::InsufficientBalance)
    } else {
        Registration::Event(debit)
    }
}

/// What applying an event comes to, for an account in `state`: the account
/// after it, or the reason why the account stays as it is.
pub open spec fn application(state: LocalActorState, debit: Debit, owned: bool) -> Result<
    LocalActorState,
    Error,
> {
    if debit.sequence != state.sequence + 1 {
        Err(Error::OutOfOrder)
    } else if !owned {
        Err(Error::InvalidProof)
    } else if debit.amount > state.balance {
        Err(Error::InsufficientBalance)
    } else {
        Ok(debited(state, debit))
    }
}

/// What the library makes of the transfer actor's answer to a proof. The
/// answer comes with its error told apart, beside what was read from the
/// proof and the account: the balance, the proof's claim, and whether the
/// proof debits the account.
///
/// A proof that the transfer actor found out of order is nothing to act on,
/// as long as it is the account's own. Any other error, and a proof for
/// another account, is an invalid proof. An event is passed on where its
/// sequence number can be reached and the balance covers its amount.
pub fn settle_registration<T>(
    balance: u64,
    claim: DebitClaim,
    owned: bool,
    registered: Result<Option<T>, TransferFault>,
) -> (outcome: Result<Option<T>, Error>)
    ensures
        outcome == match registered {
            Err(fault) => if owned && fault == TransferFault::OperationOutOfOrder {
                Ok(None)
            } else {
                Err(Error::InvalidProof)
            },
            Ok(None) => Ok(None),
            Ok(Some(sent)) => if !owned {
                Err(Error::InvalidProof)
            } else if claim.counter == u64::MAX {
                Err(Error::SequenceOverflow)
            } else if claim.amount > balance {
                Err(Error::InsufficientBalance)
            } else {
                Ok(Some(sent))
            },
        },
{
    match registered {
        Err(fault) => {
            if owned && fault == TransferFault::OperationOutOfOrder {
                Ok(None)
            } else {
                Err(Error::InvalidProof)
            }
        },
        Ok(None) => Ok(None),
        Ok(Some(sent)) => {
            if !owned {
                Err(Error::InvalidProof)
            } else if claim.counter == u64::MAX {
                Err(Error::SequenceOverflow)
            } else if claim.amount > balance {
                Err(Error::InsufficientBalance)
            } else {
                Ok(Some(sent))
            }
        },
    }
}

/// The error that the library gives for a debit that the transfer actor
/// would not apply: a wallet that cannot cover the amount is an insufficient
/// balance, anything else an invalid proof.
pub fn refusal(fault: TransferFault) -> (error: Error)
    ensures
        error == if fault == TransferFault::SubtractionOverflow {
            Error::InsufficientBalance
        } else {
            Error::InvalidProof
        },
    no_unwind
{
    match fault {
        TransferFault::SubtractionOverflow => Error::InsufficientBalance,
        _ => Error::InvalidProof,
    }
}

/// An intent to debit the account: the sequence number that the debit will
/// carry, and the amount.
#[derive(Clone, Copy, Debug, PartialEq, Eq, Structural)]
pub struct DebitRequest {
    pub sequence: u64,
    pub amount: u64,
}

impl View for DebitRequest {
    type V = Debit;

    open spec fn view(&self) -> Debit {
        Debit { sequence: self.sequence as nat, amount: self.amount as nat }
    }
}

/// A registered proof, ready to be applied. Only `LocalActor::register`
/// makes one, so every event stands for a proof that passed validation.
pub struct ActorEvent {
    counter: u64,
    amount: u64,
    registration: TransferRegistrationSent,
}

impl View for ActorEvent {
    type V = Debit;

    closed spec fn view(&self) -> Debit {
        debit_of(DebitClaim { counter: self.counter, amount: self.amount })
    }
}

impl ActorEvent {
    #[verifier::type_invariant]
    spec fn inv(self) -> bool {
        &&& self.counter < u64::MAX
        &&& claim_of(registered_proof(self.registration)) == (DebitClaim {
            counter: self.counter,
            amount: self.amount,
        })
    }

    /// The proof that was registered.
    pub closed spec fn agreement(self) -> TransferAgreementProof {
        registered_proof(self.registration)
    }

    /// The sequence number that applying the event takes the account to.
    pub fn sequence(&self) -> (sequence: u64)
        ensures
            sequence == self@.sequence,
    {
        proof {
            use_type_invariant(self);
        }
        self.counter + 1
    }

    /// The amount that applying the event takes from the balance.
    pub fn amount(&self) -> (amount: u64)
        ensures
            amount == self@.amount,
    {
        self.amount
    }
}

/// The client's replica of its account, kept in step with the transfer
/// actor that validates proofs for it.
pub struct LocalActor {
    inner: KeypairActor,
    applied: u64,
}

impl View for LocalActor {
    type V = LocalActorState;

    closed spec fn view(&self) -> LocalActorState {
        LocalActorState {
            balance: ledger_of(self.inner).balance as nat,
            sequence: self.applied as nat,
        }
    }
}

impl LocalActor {
    #[verifier::type_invariant]
    spec fn inv(self) -> bool {
        self.applied == ledger_of(self.inner).next_debit
    }

    /// Whether the proof's signatures hold for this actor.
    pub closed spec fn endorses(self, proof: TransferAgreementProof) -> bool {
        endorsed(self.inner, proof)
    }

    /// Whether the proof debits this actor's account.
    pub closed spec fn owns(self, proof: TransferAgreementProof) -> bool {
        debits_owner(self.inner, proof)
    }

    /// An actor for a fresh account: nothing applied, nothing to spend.
    pub fn new(keypair: Keypair, replicas: SectionElders) -> (actor: LocalActor)
        ensures
            actor@ == (LocalActorState { balance: 0, sequence: 0 }),
    {
        let inner = actor_new(keypair, replicas);
        LocalActor { inner, applied: 0 }
    }

    /// An actor that takes up an account where the wallet left it.
    pub fn from_snapshot(wallet: Wallet, keypair: Keypair, replicas: SectionElders) -> (actor:
        LocalActor)
        ensures
            actor@ == state_of(wallet_ledger(wallet)),
    {
        let applied = wallet_next_debit(&wallet);
        let inner = actor_from_snapshot(wallet, keypair, replicas);
        LocalActor { inner, applied }
    }

    /// The committed balance. Debits that are not applied yet do not count.
    pub fn balance(&self) -> (balance: u64)
        ensures
            balance == self@.balance,
    {
        actor_balance(&self.inner)
    }

    /// The sequence number of the debit that was applied last.
    pub fn sequence(&self) -> (sequence: u64)
        ensures
            sequence == self@.sequence,
    {
        self.applied
    }

    /// Validates a proof against the account as it stands. The account does
    /// not change.
    pub fn register(&self, proof: TransferAgreementProof) -> (outcome: Result<
        Option<ActorEvent>,
        Error,
    >)
        ensures
            match registration(
                self@,
                debit_of(claim_of(proof)),
                self.endorses(proof),
                self.owns(proof),
            ) {
                Registration::Event(debit) => {
                    &&& outcome matches Ok(Some(event))
                    &&& event@ == debit
                    &&& event.agreement() == proof
                },
                Registration::Nothing => outcome matches Ok(None),
                Registration::Rejected(error) => outcome matches Err(e) && e == error,
            },
    {
        proof {
            use_type_invariant(self);
        }
        let claim = DebitClaim { counter: proof_counter(&proof), amount: proof_amount(&proof) };
        let owned = actor_owns_debit(&self.inner, &proof);
        let balance = actor_balance(&self.inner);
        let registered = match actor_register(&self.inner, proof) {
            Ok(sent) => Ok(sent),
            Err(error) => Err(transfer_fault(&error)),
        };
        match settle_registration(balance, claim, owned, registered) {
            Ok(Some(registration)) => Ok(
                Some(ActorEvent { counter: claim.counter, amount: claim.amount, registration }),
            ),
            Ok(None) => Ok(None),
            Err(error) => Err(error),
        }
    }

    /// Commits a registered event. Either the whole debit is applied, or the
    /// account stays as it was.
    pub fn apply(&mut self, event: ActorEvent) -> (outcome: Result<(), Error>)
        ensures
            match application(old(self)@, event@, old(self).owns(event.agreement())) {
                Ok(state) => outcome is Ok && final(self)@ == state,
                Err(error) => outcome == Err::<(), Error>(error) && final(self)@ == old(self)@,
            },
            forall|proof: TransferAgreementProof|
                #[trigger] final(self).endorses(proof) == old(self).endorses(proof),
            forall|proof: TransferAgreementProof|
                #[trigger] final(self).owns(proof) == old(self).owns(proof),
    {
        proof {
            use_type_invariant(&*self);
        }
        apply_in_step(&mut self.inner, &mut self.applied, event)
    }
}

/// Applies an event to the transfer actor and moves the sequence number
/// along with it.
fn apply_in_step(inner: &mut KeypairActor, applied: &mut u64, event: ActorEvent) -> (outcome: Result<
    (),
    Error,
>)
    requires
        *old(applied) == ledger_of(*old(inner)).next_debit,
    ensures
        *final(applied) == ledger_of(*final(inner)).next_debit,
        match application(
            state_of(ledger_of(*old(inner))),
            event@,
            debits_owner(*old(inner), event.agreement()),
        ) {
            Ok(state) => outcome is Ok && state_of(ledger_of(*final(inner))) == state,
            Err(error) => {
                &&& outcome == Err::<(), Error>(error)
                &&& ledger_of(*final(inner)) == ledger_of(*old(inner))
            },
        },
        forall|proof: TransferAgreementProof|
            #[trigger] endorsed(*final(inner), proof) == endorsed(*old(inner), proof),
        forall|proof: TransferAgreementProof|
            #[trigger] debits_owner(*final(inner), proof) == debits_owner(*old(inner), proof),
    no_unwind
{
    proof {
        use_type_invariant(&event);
    }
    if event.counter != *applied {
        return Err(Error::OutOfOrder);
    }
    match actor_apply_registration(inner, event.registration) {
        Ok(()) => {
            *applied = *applied + 1;
            Ok(())
        },
        Err(error) => Err(refusal(transfer_fault(&error))),
    }
}

} // verus!
