use vstd::prelude::*;
use crate::account::apply_spec;
use crate::account::decide_spec;
use crate::account::initial_state;
use crate::account::BankAccount;
use crate::commands::BankAccountCommand;
use crate::events::BankAccountEvent;

verus! {

/// The state reached by folding `events`, oldest first, from `s`. Replay is
/// this fold: a pure function of the history, so it is deterministic and
/// side-effect-free.
pub open spec fn fold_events(s: BankAccount, events: Seq<BankAccountEvent>) -> BankAccount
    decreases events.len(),
{
    if events.len() == 0 {
        s
    } else {
        apply_spec(fold_events(s, events.drop_last()), events.last())
    }
}

/// Reconstructs the current state from an ordered history of prior events by
/// folding them, oldest first, from the default state.
pub fn apply_history(events: Vec<BankAccountEvent>) -> (r: BankAccount)
    ensures
        r == fold_events(initial_state(), events@),
{
    let ghost whole = events@;
    let mut rest = events;
    let ghost mut done: Seq<BankAccountEvent> = Seq::empty();
    let mut state = BankAccount::default();
    while rest.len() > 0
        invariant
            whole == done + rest@,
            state == fold_events(initial_state(), done),
        decreases rest.len(),
    {
        let event = rest.remove(0);
        proof {
            assert(done.push(event).drop_last() =~= done);
            assert(done.push(event) + rest@ =~= whole);
            done = done.push(event);
        }
        state.apply(event);
    }
    proof {
        assert(done =~= whole);
    }
    state
}

/// The events a decision contributes to the history: what it emitted on
/// success, nothing on rejection.
pub open spec fn decided_events(decision: Result<Seq<BankAccountEvent>, Seq<char>>) -> Seq<
    BankAccountEvent,
> {
    match decision {
        Ok(events) => events,
        Err(_) => Seq::empty(),
    }
}

/// Replay is deterministic: two replays of the same history from the default
/// state reach the same state.
pub proof fn lemma_replay_deterministic(
    events: Seq<BankAccountEvent>,
    s1: BankAccount,
    s2: BankAccount,
)
    requires
        s1 == fold_events(initial_state(), events),
        s2 == fold_events(initial_state(), events),
    ensures
        s1 == s2,
{
}

/// A rejected command is a no-op: when the decision is an error it
/// contributes no events, so folding what it decided leaves the state
/// exactly as it was.
pub proof fn lemma_error_is_noop(s: BankAccount, command: BankAccountCommand)
    requires
        decide_spec(s, command) is Err,
    ensures
        fold_events(s, decided_events(decide_spec(s, command))) == s,
{
}

/// After folding a history made of deposits and withdrawals, the balance is
/// exactly the balance recorded in the last event of the history.
pub proof fn lemma_balance_matches_last_event(events: Seq<BankAccountEvent>)
    requires
        events.len() > 0,
        forall|i: int|
            0 <= i < events.len() ==> ((#[trigger] events[i])
                matches BankAccountEvent::CustomerDepositedMoney { .. } || events[i]
                matches BankAccountEvent::CustomerWithdrewCash { .. }),
    ensures
        fold_events(initial_state(), events).balance == (match events.last() {
            BankAccountEvent::CustomerDepositedMoney { balance, .. } => balance,
            BankAccountEvent::CustomerWithdrewCash { balance, .. } => balance,
            BankAccountEvent::CustomerWroteCheck { balance, .. } => balance,
            BankAccountEvent::AccountOpened { .. } => 0,
        }),
{
    assert(events[events.len() - 1] matches BankAccountEvent::CustomerDepositedMoney { .. }
        || events[events.len() - 1] matches BankAccountEvent::CustomerWithdrewCash { .. });
}

} // verus!
