//! What holds of the actor and of the coordinator over any run of them.

use crate::actor::{application, debited, registration, Debit, LocalActorState, Registration};
use crate::coordinator::{is_path, may_follow, Stage};
use crate::errors::Error;
use vstd::prelude::*;

verus! {

/// The account after the debits were applied one after the other, each with
/// success; `None` where one of them was refused.
pub open spec fn replay(state: LocalActorState, debits: Seq<Debit>) -> Option<LocalActorState>
    decreases debits.len(),
{
    if debits.len() == 0 {
        Some(state)
    } else {
        match replay(state, debits.drop_last()) {
            Some(before) => match application(before, debits.last(), true) {
                Ok(after) => Some(after),
                Err(_) => None,
            },
            None => None,
        }
    }
}

/// The sum of the debits' amounts.
pub open spec fn total(debits: Seq<Debit>) -> nat
    decreases debits.len(),
{
    if debits.len() == 0 {
        0
    } else {
        total(debits.drop_last()) + debits.last().amount
    }
}

/// A run of a write attempt: a path that starts at `Idle`.
pub open spec fn is_run(stages: Seq<Stage>) -> bool {
    is_path(stages) && stages[0] == Stage::Idle
}

/// Applied sequence numbers rise by one each time: after any number of
/// applies that all succeeded, the debit at place `i` carried the sequence
/// number `i + 1` past the start, and the account stands at the last of them.
pub proof fn law_sequence_rises_without_gaps(state: LocalActorState, debits: Seq<Debit>)
    requires
        replay(state, debits) is Some,
    ensures
        replay(state, debits)->Some_0.sequence == state.sequence + debits.len(),
        forall|i: int| 0 <= i < debits.len() ==> (#[trigger] debits[i]).sequence == state.sequence + i + 1,
    decreases debits.len(),
{
    if debits.len() > 0 {
        let earlier = debits.drop_last();
        law_sequence_rises_without_gaps(state, earlier);
        assert forall|i: int| 0 <= i < debits.len() implies (#[trigger] debits[i]).sequence
            == state.sequence + i + 1 by {
            if i < earlier.len() {
                assert(debits[i] == earlier[i]);
            }
        }
    }
}

/// The balance reflects whole debits only: after any number of applies that
/// all succeeded, the balance is the balance at the start less the sum of
/// the amounts applied, and that sum was covered.
pub proof fn law_balance_is_start_less_applied(state: LocalActorState, debits: Seq<Debit>)
    requires
        replay(state, debits) is Some,
    ensures
        total(debits) <= state.balance,
        replay(state, debits)->Some_0.balance == state.balance - total(debits),
    decreases debits.len(),
{
    if debits.len() > 0 {
        law_balance_is_start_less_applied(state, debits.drop_last());
    }
}

/// An apply that is refused changes nothing, and one that succeeds applies
/// the whole debit: there is no account in between.
pub proof fn law_apply_is_all_or_nothing(state: LocalActorState, debit: Debit, owned: bool)
    ensures
        application(state, debit, owned) matches Ok(after) ==> after == debited(state, debit),
        application(state, debit, owned) is Ok <==> {
            &&& debit.sequence == state.sequence + 1
            &&& owned
            &&& debit.amount <= state.balance
        },
{
}

/// No double spend: a proof that registers gives an event that applies, and
/// once that event is applied the same proof registers to nothing.
pub proof fn law_applied_proof_registers_to_nothing(
    state: LocalActorState,
    debit: Debit,
    endorsed: bool,
    owned: bool,
)
    requires
        registration(state, debit, endorsed, owned) is Event,
    ensures
        registration(state, debit, endorsed, owned) == Registration::Event(debit),
        application(state, debit, owned) == Ok::<LocalActorState, Error>(debited(state, debit)),
        registration(debited(state, debit), debit, endorsed, owned) == Registration::Nothing,
{
}

/// The funds gate: a debit that the balance does not cover gets no event
/// from registration, and no apply of it succeeds.
pub proof fn law_uncovered_debit_is_refused(
    state: LocalActorState,
    debit: Debit,
    endorsed: bool,
    owned: bool,
)
    requires
        debit.amount > state.balance,
    ensures
        !(registration(state, debit, endorsed, owned) is Event),
        application(state, debit, owned) is Err,
        endorsed && owned && debit.sequence == state.sequence + 1 && debit.sequence <= u64::MAX
            ==> registration(state, debit, endorsed, owned) == Registration::Rejected(
            Error::InsufficientBalance,
        ),
{
}

/// One debit for each sequence number: of two debits that claim the same
/// sequence number, once the first is applied the second is out of order
/// and registers to no event.
pub proof fn law_one_debit_for_each_sequence_number(
    state: LocalActorState,
    first: Debit,
    second: Debit,
    endorsed: bool,
    owned: bool,
)
    requires
        first.sequence == second.sequence,
        application(state, first, true) is Ok,
    ensures
        application(debited(state, first), second, owned) == Err::<LocalActorState, Error>(
            Error::OutOfOrder,
        ),
        !(registration(debited(state, first), second, endorsed, owned) is Event),
{
}

/// No write without payment: in any run of a write attempt, the stage at
/// which the write may proceed comes only after the debit was requested,
/// proved, registered and applied, in that order and with nothing between.
pub proof fn law_write_only_after_applied(stages: Seq<Stage>, at: int)
    requires
        is_run(stages),
        0 <= at < stages.len(),
        stages[at] == Stage::PaidWriteAuthorized,
    ensures
        at >= 5,
        stages[at - 1] == Stage::Applied,
        stages[at - 2] == Stage::Registered,
        stages[at - 3] == Stage::ProofReceived,
        stages[at - 4] == Stage::DebitRequested,
        stages[at - 5] == Stage::Idle,
{
    assert(at >= 1);
    assert(may_follow(stages[at - 1], stages[at - 1 + 1]));
    assert(at >= 2);
    assert(may_follow(stages[at - 2], stages[at - 2 + 1]));
    assert(at >= 3);
    assert(may_follow(stages[at - 3], stages[at - 3 + 1]));
    assert(at >= 4);
    assert(may_follow(stages[at - 4], stages[at - 4 + 1]));
    assert(at >= 5);
    assert(may_follow(stages[at - 5], stages[at - 5 + 1]));
}

/// A failed attempt stays failed: no stage follows `Failed` in any run.
pub proof fn law_failed_is_final(stages: Seq<Stage>, at: int, later: int)
    requires
        is_run(stages),
        0 <= at <= later < stages.len(),
        stages[at] == Stage::Failed,
    ensures
        later == at,
{
    if at < later {
        assert(may_follow(stages[at], stages[at + 1]));
    }
}

} // verus!
