//! The boundary with `sn_transfers` and `sn_data_types`.
//!
//! Everything in this file is taken on trust: the outside types that the
//! library carries through, names for what they hold, and one small function
//! for each call that is made into them. Nothing here is proved; the rest of
//! the library is proved against what is stated here.

use sn_data_types::{Keypair, SectionElders, TransferAgreementProof};
use sn_transfers::{
    ActorEvent as TransfersEvent, Error as TransfersError, TransferActor,
    TransferRegistrationSent, Wallet,
};
use vstd::prelude::*;

verus! {

/// `sn_data_types::Keypair`: the keys that a client signs with. Carried
/// through unopened.
#[verifier::external_type_specification]
#[verifier::external_body]
pub struct ExKeypair(Keypair);

/// `sn_data_types::SectionElders`: the replicas of an account and their
/// public keys. Carried through unopened.
#[verifier::external_type_specification]
#[verifier::external_body]
pub struct ExSectionElders(SectionElders);

/// `sn_transfers::Wallet`: the balance and the debit version of an account.
#[verifier::external_type_specification]
#[verifier::external_body]
pub struct ExWallet(Wallet);

/// `sn_data_types::TransferAgreementProof`: a debit and its credit, signed
/// by the actor and by a quorum of its replicas.
#[verifier::external_type_specification]
#[verifier::external_body]
pub struct ExTransferAgreementProof(TransferAgreementProof);

/// `sn_transfers::TransferRegistrationSent`: the event that the transfer
/// actor gives for a proof that it registered.
#[verifier::external_type_specification]
#[verifier::external_body]
pub struct ExTransferRegistrationSent(TransferRegistrationSent);

/// `sn_transfers::Error`.
#[verifier::external_type_specification]
#[verifier::external_body]
pub struct ExTransfersError(TransfersError);

/// `sn_transfers::TransferActor` signing with a `Keypair`. The actor is
/// generic over an outside trait, which cannot be declared, so it is held
/// here at the one instance the library uses.
#[verifier::external_body]
pub struct KeypairActor {
    actor: TransferActor<Keypair>,
}

/// The part of a wallet that debits read and change.
#[derive(Clone, Copy, Debug, PartialEq, Eq, Structural)]
pub struct Ledger {
    /// The balance, in nano tokens.
    pub balance: u64,
    /// The counter that the next debit must carry.
    pub next_debit: u64,
}

/// What a transfer agreement proof says of its debit.
#[derive(Clone, Copy, Debug, PartialEq, Eq, Structural)]
pub struct DebitClaim {
    /// The counter of the debit's id.
    pub counter: u64,
    /// The amount of the debit, in nano tokens.
    pub amount: u64,
}

/// The errors of `sn_transfers` that registering and applying a debit give.
#[derive(Clone, Copy, Debug, PartialEq, Eq, Structural)]
pub enum TransferFault {
    InvalidSignature,
    OperationOutOfOrder,
    SubtractionOverflow,
    DebitDoesNotBelong,
    Other,
}

/// What `Wallet::balance` and `Wallet::next_debit` give for a wallet.
pub uninterp spec fn wallet_ledger(wallet: Wallet) -> Ledger;

/// What `Wallet::balance` and `Wallet::next_debit` give for the wallet
/// inside an actor.
pub uninterp spec fn ledger_of(actor: KeypairActor) -> Ledger;

/// The counter and the amount of the debit that a proof is about.
pub uninterp spec fn claim_of(proof: TransferAgreementProof) -> DebitClaim;

/// Whether the check of signatures inside `TransferActor::register` passes:
/// the actor's own key signed the proof's debit and credit, the credit's id
/// is the one derived from the debit, and the key of the actor's replicas
/// signed both. The check reads the actor's keys and the proof, nothing else.
pub uninterp spec fn endorsed(actor: KeypairActor, proof: TransferAgreementProof) -> bool;

/// Whether the key that the proof's debit names as sender equals the
/// actor's id.
pub uninterp spec fn debits_owner(actor: KeypairActor, proof: TransferAgreementProof) -> bool;

/// The proof that a registration event carries.
pub uninterp spec fn registered_proof(sent: TransferRegistrationSent) -> TransferAgreementProof;

/// Which error of `sn_transfers` a value is.
pub uninterp spec fn fault_of(error: TransfersError) -> TransferFault;

/// `TransferActor::new`: an actor for the keypair with an empty wallet, at
/// balance zero and debit version zero.
#[verifier::external_body]
pub(crate) fn actor_new(keypair: Keypair, replicas: SectionElders) -> (actor: KeypairActor)
    ensures
        ledger_of(actor) == (Ledger { balance: 0, next_debit: 0 }),
{
    KeypairActor { actor: TransferActor::new(keypair, replicas) }
}

/// `Wallet::next_debit`: the wallet's debit version.
#[verifier::external_body]
pub(crate) fn wallet_next_debit(wallet: &Wallet) -> (next_debit: u64)
    ensures
        next_debit == wallet_ledger(*wallet).next_debit,
{
    wallet.next_debit()
}

/// `TransferActor::from_snapshot`: an actor that takes the wallet as it is.
#[verifier::external_body]
pub(crate) fn actor_from_snapshot(
    wallet: Wallet,
    keypair: Keypair,
    replicas: SectionElders,
) -> (actor: KeypairActor)
    ensures
        ledger_of(actor) == wallet_ledger(wallet),
{
    KeypairActor { actor: TransferActor::from_snapshot(wallet, keypair, replicas) }
}

/// `TransferActor::balance`, in nano tokens.
#[verifier::external_body]
pub(crate) fn actor_balance(actor: &KeypairActor) -> (nanos: u64)
    ensures
        nanos == ledger_of(*actor).balance,
{
    actor.actor.balance().as_nano()
}

/// `TransferAgreementProof::id`: the counter of the proof's debit.
#[verifier::external_body]
pub(crate) fn proof_counter(proof: &TransferAgreementProof) -> (counter: u64)
    ensures
        counter == claim_of(*proof).counter,
{
    proof.id().counter
}

/// `TransferAgreementProof::amount`: the amount of the proof's debit, in
/// nano tokens.
#[verifier::external_body]
pub(crate) fn proof_amount(proof: &TransferAgreementProof) -> (nanos: u64)
    ensures
        nanos == claim_of(*proof).amount,
{
    proof.amount().as_nano()
}

/// `TransferActor::id` compared with `TransferAgreementProof::sender`, by
/// the `==` of `sn_data_types::PublicKey`.
#[verifier::external_body]
pub(crate) fn actor_owns_debit(actor: &KeypairActor, proof: &TransferAgreementProof) -> (own: bool)
    ensures
        own == debits_owner(*actor, *proof),
{
    actor.actor.id() == proof.sender()
}

/// `TransferActor::register`. It checks the signatures first and fails with
/// `InvalidSignature` where that check fails. Then it compares the debit's
/// counter with the wallet's debit version: where they are equal the proof
/// comes back inside a registration event, otherwise the call fails with
/// `OperationOutOfOrder`. It never answers `Ok(None)`.
#[verifier::external_body]
pub(crate) fn actor_register(actor: &KeypairActor, proof: TransferAgreementProof) -> (outcome: Result<
    Option<TransferRegistrationSent>,
    TransfersError,
>)
    ensures
        match outcome {
            Ok(Some(sent)) => {
                &&& endorsed(*actor, proof)
                &&& claim_of(proof).counter == ledger_of(*actor).next_debit
                &&& registered_proof(sent) == proof
            },
            Ok(None) => false,
            Err(error) => if endorsed(*actor, proof) {
                &&& claim_of(proof).counter != ledger_of(*actor).next_debit
                &&& fault_of(error) == TransferFault::OperationOutOfOrder
            } else {
                fault_of(error) == TransferFault::InvalidSignature
            },
        },
{
    actor.actor.register(proof)
}

/// `TransferActor::apply` on a registration event. The wallet takes the debit
/// where the debit's sender is the actor's own key and the balance covers the
/// amount: the balance goes down by the amount and the debit version up by
/// one. Otherwise the call fails, with `DebitDoesNotBelong` for a foreign
/// sender and else with `SubtractionOverflow`, and the wallet stays as it
/// was. The actor's id and the keys that it checks signatures with are not
/// touched. The debit version is incremented without a check, so it must not
/// be at its maximum; with that, the call does not panic.
#[verifier::external_body]
pub(crate) fn actor_apply_registration(actor: &mut KeypairActor, sent: TransferRegistrationSent) -> (outcome:
    Result<(), TransfersError>)
    requires
        ledger_of(*old(actor)).next_debit < u64::MAX,
    ensures
        forall|proof: TransferAgreementProof|
            #[trigger] endorsed(*final(actor), proof) == endorsed(*old(actor), proof),
        forall|proof: TransferAgreementProof|
            #[trigger] debits_owner(*final(actor), proof) == debits_owner(*old(actor), proof),
        match outcome {
            Ok(()) => {
                &&& debits_owner(*old(actor), registered_proof(sent))
                &&& claim_of(registered_proof(sent)).amount <= ledger_of(*old(actor)).balance
                &&& ledger_of(*final(actor)).balance == ledger_of(*old(actor)).balance - claim_of(
                    registered_proof(sent),
                ).amount
                &&& ledger_of(*final(actor)).next_debit == ledger_of(*old(actor)).next_debit + 1
            },
            Err(error) => {
                &&& ledger_of(*final(actor)) == ledger_of(*old(actor))
                &&& if debits_owner(*old(actor), registered_proof(sent)) {
                    &&& claim_of(registered_proof(sent)).amount > ledger_of(*old(actor)).balance
                    &&& fault_of(error) == TransferFault::SubtractionOverflow
                } else {
                    fault_of(error) == TransferFault::DebitDoesNotBelong
                }
            },
        },
    no_unwind
{
    actor.actor.apply(TransfersEvent::TransferRegistrationSent(sent))
}

/// Tells the variants of `sn_transfers::Error` apart that registering and
/// applying a debit can give; every other variant is `Other`. It does not
/// panic.
#[verifier::external_body]
pub(crate) fn transfer_fault(error: &TransfersError) -> (fault: TransferFault)
    ensures
        fault == fault_of(*error),
    no_unwind
{
    match error {
        TransfersError::InvalidSignature => TransferFault::InvalidSignature,
        TransfersError::OperationOutOfOrder(..) => TransferFault::OperationOutOfOrder,
        TransfersError::SubtractionOverflow(..) => TransferFault::SubtractionOverflow,
        TransfersError::DebitDoesNotBelong(..) => TransferFault::DebitDoesNotBelong,
        _ => TransferFault::Other,
    }
}

} // verus!
