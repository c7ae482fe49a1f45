//! The mathematical model of the multiplexer: events, loop states, the
//! per-event transition, and the laws that hold of every event history.

use vstd::prelude::*;

verus! {

/// An occurrence the multiplexer can observe: a periodic tick, or the
/// process-interruption request.
#[derive(Clone, Copy, PartialEq, Eq, Structural, Debug)]
pub enum Event {
    Tick,
    Interrupt,
}

/// The lifecycle of the wait loop. `Running` consumes events; the first
/// interrupt moves it to `ShuttingDown`; after the farewell/cleanup it is
/// `Terminated` and no further event is processed.
#[derive(Clone, Copy, PartialEq, Eq, Structural, Debug)]
pub enum LoopState {
    Running,
    ShuttingDown,
    Terminated,
}

/// What the multiplexer does in response to one observed event: invoke the
/// per-tick work, perform the one farewell, or ignore the event because the
/// loop is no longer running.
#[derive(Clone, Copy, PartialEq, Eq, Structural, Debug)]
pub enum Action {
    Work,
    Farewell,
    Ignore,
}

/// The state transition for one observed event.
pub open spec fn next_state(s: LoopState, e: Event) -> LoopState {
    match s {
        LoopState::Running => match e {
            Event::Tick => LoopState::Running,
            Event::Interrupt => LoopState::ShuttingDown,
        },
        LoopState::ShuttingDown => LoopState::ShuttingDown,
        LoopState::Terminated => LoopState::Terminated,
    }
}

/// The action taken for one observed event.
pub open spec fn action_of(s: LoopState, e: Event) -> Action {
    match s {
        LoopState::Running => match e {
            Event::Tick => Action::Work,
            Event::Interrupt => Action::Farewell,
        },
        LoopState::ShuttingDown => Action::Ignore,
        LoopState::Terminated => Action::Ignore,
    }
}

/// The loop state after an event history, starting from `Running`.
pub open spec fn state_after(es: Seq<Event>) -> LoopState
    decreases es.len(),
{
    if es.len() == 0 {
        LoopState::Running
    } else {
        next_state(state_after(es.drop_last()), es.last())
    }
}

/// How many events of a history were answered with `Work`.
pub open spec fn ticks_after(es: Seq<Event>) -> nat
    decreases es.len(),
{
    if es.len() == 0 {
        0
    } else {
        ticks_after(es.drop_last()) + if action_of(state_after(es.drop_last()), es.last())
            == Action::Work {
            1nat
        } else {
            0nat
        }
    }
}

/// How many events of a history were answered with `Farewell`.
pub open spec fn farewells_after(es: Seq<Event>) -> nat
    decreases es.len(),
{
    if es.len() == 0 {
        0
    } else {
        farewells_after(es.drop_last()) + if action_of(state_after(es.drop_last()), es.last())
            == Action::Farewell {
            1nat
        } else {
            0nat
        }
    }
}

/// A count clipped to what a `u64` can hold.
pub open spec fn cap64(n: nat) -> nat {
    if n > u64::MAX as nat {
        u64::MAX as nat
    } else {
        n
    }
}

/// Unfolds the three history functions over one appended event.
pub proof fn lemma_step(es: Seq<Event>, e: Event)
    ensures
        state_after(es.push(e)) == next_state(state_after(es), e),
        ticks_after(es.push(e)) == ticks_after(es) + if action_of(state_after(es), e)
            == Action::Work {
            1nat
        } else {
            0nat
        },
        farewells_after(es.push(e)) == farewells_after(es) + if action_of(state_after(es), e)
            == Action::Farewell {
            1nat
        } else {
            0nat
        },
{
    assert(es.push(e).drop_last() =~= es);
    assert(es.push(e).last() == e);
}

/// Law: every history carries at most one farewell, and the loop is still
/// running exactly as long as no farewell has happened. Redundant raw
/// interrupt occurrences therefore collapse to at most one effective
/// shutdown transition.
pub proof fn lemma_single_shutdown(es: Seq<Event>)
    ensures
        farewells_after(es) <= 1,
        state_after(es) == LoopState::Running <==> farewells_after(es) == 0,
    decreases es.len(),
{
    if es.len() > 0 {
        lemma_single_shutdown(es.drop_last());
    }
}

/// Law: once the loop has left `Running`, a further event — in particular a
/// repeated interrupt — changes nothing observable: no work, no second
/// farewell, no state change.
pub proof fn lemma_interrupt_idempotent(es: Seq<Event>, e: Event)
    requires
        state_after(es) != LoopState::Running,
    ensures
        state_after(es.push(e)) == state_after(es),
        ticks_after(es.push(e)) == ticks_after(es),
        farewells_after(es.push(e)) == farewells_after(es),
{
    lemma_step(es, e);
}

/// Law: issuing the interrupt twice in rapid succession is equivalent, in
/// every observable count and in the final state, to issuing it once.
pub proof fn lemma_double_interrupt(es: Seq<Event>)
    ensures
        state_after(es.push(Event::Interrupt).push(Event::Interrupt)) == state_after(
            es.push(Event::Interrupt),
        ),
        ticks_after(es.push(Event::Interrupt).push(Event::Interrupt)) == ticks_after(
            es.push(Event::Interrupt),
        ),
        farewells_after(es.push(Event::Interrupt).push(Event::Interrupt)) == farewells_after(
            es.push(Event::Interrupt),
        ),
{
    lemma_step(es, Event::Interrupt);
    lemma_step(es.push(Event::Interrupt), Event::Interrupt);
}

/// Law: a history of ticks alone leaves the loop running, and every one of
/// the ticks is worked — the loop never returns of its own accord.
pub proof fn lemma_all_ticks_keep_running(es: Seq<Event>)
    requires
        forall|j: int| 0 <= j < es.len() ==> es[j] == Event::Tick,
    ensures
        state_after(es) == LoopState::Running,
        ticks_after(es) == es.len(),
        farewells_after(es) == 0,
    decreases es.len(),
{
    if es.len() > 0 {
        lemma_all_ticks_keep_running(es.drop_last());
    }
}

/// Law: if the first interrupt of a history stands at position `k` with
/// ticks at every earlier position, then exactly the `k` leading ticks are
/// worked, exactly one farewell happens, and nothing after position `k` is
/// processed — no tick is worked past the shutdown, whatever follows.
pub proof fn lemma_ticks_stop_at_interrupt(es: Seq<Event>, k: int)
    requires
        0 <= k < es.len(),
        es[k] == Event::Interrupt,
        forall|j: int| 0 <= j < k ==> es[j] == Event::Tick,
    ensures
        ticks_after(es) == k,
        farewells_after(es) == 1,
        state_after(es) != LoopState::Running,
    decreases es.len(),
{
    if k == es.len() - 1 {
        lemma_all_ticks_keep_running(es.drop_last());
        lemma_step(es.drop_last(), es.last());
        assert(es.drop_last().push(es.last()) =~= es);
    } else {
        lemma_ticks_stop_at_interrupt(es.drop_last(), k);
        lemma_step(es.drop_last(), es.last());
        assert(es.drop_last().push(es.last()) =~= es);
    }
}

} // verus!
