//! The event multiplexer: the single consumer that arbitrates between the
//! interrupt source and the tick source, works each tick, and performs a
//! graceful, at-most-once shutdown on the first interrupt.
//!
//! Its runtime state carries the event history as a ghost sequence, so that
//! every run — whether driven by the OS, by queues, or by a script — is
//! pinned to the model in `events`.

use vstd::prelude::*;
use crate::events::{
    Action, Event, LoopState, cap64, farewells_after, lemma_single_shutdown, state_after,
    ticks_after,
};
use crate::queue::UnitQueue;
use crate::sources::{INTERRUPT_QUEUE_DEPTH, InterruptSource, TickSource, block_until_event,
    emit_line, interrupt_pending, tick_pending};

verus! {

/// The tie-break of the wait loop: when both sources are ready in the same
/// cycle the interrupt wins, so shutdown is never delayed behind routine
/// work; a tick is taken only when no interrupt is pending.
pub fn arbitrate(interrupt_ready: bool, tick_ready: bool) -> (choice: Option<Event>)
    ensures
        interrupt_ready ==> choice == Some(Event::Interrupt),
        !interrupt_ready && tick_ready ==> choice == Some(Event::Tick),
        !interrupt_ready && !tick_ready ==> choice is None,
{
    if interrupt_ready {
        Some(Event::Interrupt)
    } else if tick_ready {
        Some(Event::Tick)
    } else {
        None
    }
}

/// The single consumer of both event sources. `state` always matches the
/// fold of the ghost event history, and the two counters match the number
/// of `Work` and `Farewell` actions of that history (tick counting clips at
/// what a `u64` can hold).
pub struct Multiplexer {
    state: LoopState,
    ticks: u64,
    farewells: u64,
    history: Ghost<Seq<Event>>,
}

impl Multiplexer {
    /// The lifecycle state.
    pub closed spec fn spec_state(self) -> LoopState {
        self.state
    }

    /// How many ticks were worked, clipped at `u64::MAX`.
    pub closed spec fn spec_ticks(self) -> nat {
        self.ticks as nat
    }

    /// How many farewells were performed (at most one, by
    /// `events::lemma_single_shutdown`).
    pub closed spec fn spec_farewells(self) -> nat {
        self.farewells as nat
    }

    /// Every event this multiplexer has observed, in order.
    pub closed spec fn spec_history(self) -> Seq<Event> {
        self.history@
    }

    pub open spec fn wf(self) -> bool {
        &&& self.spec_ticks() == cap64(ticks_after(self.spec_history()))
        &&& self.spec_farewells() == farewells_after(self.spec_history())
        &&& (self.spec_state() == state_after(self.spec_history()) || (self.spec_state()
            == LoopState::Terminated && state_after(self.spec_history())
            == LoopState::ShuttingDown))
    }

    /// A fresh multiplexer: running, nothing observed yet.
    pub fn new() -> (m: Multiplexer)
        ensures
            m.wf(),
            m.spec_state() == LoopState::Running,
            m.spec_ticks() == 0,
            m.spec_farewells() == 0,
            m.spec_history() == Seq::<Event>::empty(),
    {
        Multiplexer { state: LoopState::Running, ticks: 0, farewells: 0, history: Ghost(Seq::empty()) }
    }

    /// The lifecycle state, as a runtime value.
    pub fn state(&self) -> (s: LoopState)
        ensures
            s == self.spec_state(),
    {
        self.state
    }

    /// How many ticks were worked, as a runtime value.
    pub fn ticks_worked(&self) -> (n: u64)
        ensures
            n == self.spec_ticks(),
    {
        self.ticks
    }

    /// How many farewells were performed, as a runtime value.
    pub fn farewells_done(&self) -> (n: u64)
        ensures
            n == self.spec_farewells(),
    {
        self.farewells
    }

    /// Observes one event. While running, a tick is answered with `Work`
    /// and the one interrupt with `Farewell` and the move to
    /// `ShuttingDown`; afterwards every event is drained with `Ignore` and
    /// changes nothing.
    pub fn handle(&mut self, e: Event) -> (a: Action)
        requires
            old(self).wf(),
        ensures
            final(self).wf(),
            final(self).spec_history() == old(self).spec_history().push(e),
            old(self).spec_state() == LoopState::Running && e == Event::Tick ==> {
                &&& a == Action::Work
                &&& final(self).spec_state() == LoopState::Running
                &&& final(self).spec_ticks() == cap64(old(self).spec_ticks() + 1)
                &&& final(self).spec_farewells() == old(self).spec_farewells()
            },
            old(self).spec_state() == LoopState::Running && e == Event::Interrupt ==> {
                &&& a == Action::Farewell
                &&& final(self).spec_state() == LoopState::ShuttingDown
                &&& final(self).spec_farewells() == old(self).spec_farewells() + 1
                &&& final(self).spec_ticks() == old(self).spec_ticks()
            },
            old(self).spec_state() != LoopState::Running ==> {
                &&& a == Action::Ignore
                &&& final(self).spec_state() == old(self).spec_state()
                &&& final(self).spec_ticks() == old(self).spec_ticks()
                &&& final(self).spec_farewells() == old(self).spec_farewells()
            },
    {
        proof {
            crate::events::lemma_step(self.history@, e);
        }
        let running = self.state == LoopState::Running;
        let ghost h = self.history@;
        self.history = Ghost(self.history@.push(e));
        if running {
            match e {
                Event::Tick => {
                    if self.ticks < u64::MAX {
                        self.ticks = self.ticks + 1;
                    }
                    Action::Work
                },
                Event::Interrupt => {
                    proof {
                        lemma_single_shutdown(h);
                    }
                    self.farewells = self.farewells + 1;
                    self.state = LoopState::ShuttingDown;
                    Action::Farewell
                },
            }
        } else {
            Action::Ignore
        }
    }

    /// The final transition, after the farewell and any cleanup: the loop
    /// is terminated and observes nothing further.
    pub fn finish(&mut self)
        requires
            old(self).wf(),
            old(self).spec_state() == LoopState::ShuttingDown,
        ensures
            final(self).wf(),
            final(self).spec_state() == LoopState::Terminated,
            final(self).spec_history() == old(self).spec_history(),
            final(self).spec_ticks() == old(self).spec_ticks(),
            final(self).spec_farewells() == old(self).spec_farewells(),
    {
        self.state = LoopState::Terminated;
    }
}

/// Runs a fresh multiplexer over a scripted event sequence, as a
/// test-controlled clock would deliver it: every event is observed in
/// order, and if any interrupt occurred the run ends terminated. The
/// result is pinned to the model: the ticks worked are those before the
/// first interrupt, and there is a farewell exactly when an interrupt
/// occurred.
pub fn run_scripted(events: &Vec<Event>) -> (m: Multiplexer)
    ensures
        m.wf(),
        m.spec_history() == events@,
        m.spec_ticks() == cap64(ticks_after(events@)),
        m.spec_farewells() == farewells_after(events@),
        m.spec_state() == (if state_after(events@) == LoopState::Running {
            LoopState::Running
        } else {
            LoopState::Terminated
        }),
{
    let mut m = Multiplexer::new();
    let mut i: usize = 0;
    while i < events.len()
        invariant
            0 <= i <= events.len(),
            m.wf(),
            m.spec_history() =~= events@.subrange(0, i as int),
        decreases events.len() - i,
    {
        let _ = m.handle(events[i]);
        proof {
            assert(events@.subrange(0, i as int).push(events@[i as int]) =~= events@.subrange(
                0,
                i as int + 1,
            ));
        }
        i = i + 1;
    }
    proof {
        assert(events@.subrange(0, events@.len() as int) =~= events@);
    }
    if matches!(m.state(), LoopState::ShuttingDown) {
        m.finish();
    }
    m
}

/// Drives the multiplexer over two bounded queues until both are empty or
/// an interrupt ends the run. The interrupt's priority holds observably:
/// if any interrupt is buffered when the run starts, no tick at all is
/// worked, the interrupt queue is drained exhaustively, and the run
/// terminates; only a run that finds no interrupt works the buffered
/// ticks, and it stays running.
pub fn run_queued(m: &mut Multiplexer, interrupts: &mut UnitQueue, ticks: &mut UnitQueue)
    requires
        old(m).wf(),
        old(m).spec_state() == LoopState::Running,
        old(interrupts).wf(),
        old(ticks).wf(),
    ensures
        final(m).wf(),
        final(interrupts).wf(),
        final(ticks).wf(),
        old(interrupts).spec_len() > 0 ==> {
            &&& final(m).spec_state() == LoopState::Terminated
            &&& final(m).spec_ticks() == old(m).spec_ticks()
            &&& final(m).spec_farewells() == old(m).spec_farewells() + 1
            &&& final(interrupts).spec_len() == 0
            &&& *final(ticks) == *old(ticks)
        },
        old(interrupts).spec_len() == 0 ==> {
            &&& final(m).spec_state() == LoopState::Running
            &&& final(m).spec_ticks() == cap64(ticks_after(old(m).spec_history()) + old(
                ticks,
            ).spec_len())
            &&& final(m).spec_farewells() == old(m).spec_farewells()
            &&& *final(interrupts) == *old(interrupts)
            &&& final(ticks).spec_len() == 0
        },
{
    loop
        invariant
            old(m).wf(),
            m.wf(),
            m.spec_state() == LoopState::Running,
            interrupts.wf(),
            ticks.wf(),
            *interrupts == *old(interrupts),
            m.spec_farewells() == old(m).spec_farewells(),
            interrupts.spec_len() > 0 ==> m.spec_history() == old(m).spec_history() && *ticks
                == *old(ticks),
            ticks_after(m.spec_history()) + ticks.spec_len() == ticks_after(
                old(m).spec_history(),
            ) + old(ticks).spec_len(),
        decreases ticks.spec_len(),
    {
        let interrupt_ready = interrupts.buffered() > 0;
        let tick_ready = ticks.buffered() > 0;
        match arbitrate(interrupt_ready, tick_ready) {
            None => {
                return ;
            },
            Some(Event::Interrupt) => {
                let _ = interrupts.try_recv();
                let _ = m.handle(Event::Interrupt);
                while interrupts.try_recv()
                    invariant
                        old(m).wf(),
                        m.wf(),
                        m.spec_state() == LoopState::ShuttingDown,
                        interrupts.wf(),
                        m.spec_farewells() == old(m).spec_farewells() + 1,
                        m.spec_ticks() == old(m).spec_ticks(),
                    decreases interrupts.spec_len(),
                {
                    let _ = m.handle(Event::Interrupt);
                }
                m.finish();
                return ;
            },
            Some(Event::Tick) => {
                let ghost h = m.spec_history();
                let _ = ticks.try_recv();
                let _ = m.handle(Event::Tick);
                proof {
                    crate::events::lemma_step(h, Event::Tick);
                }
            },
        }
    }
}

/// The caller-supplied work invoked between events: what a tick's work
/// does, and the farewell/cleanup on shutdown. Both run synchronously
/// inside the wait cycle, in the consumer context, so they need no locking;
/// the multiplexer promises nothing about their effects.
pub trait WorkUnit {
    fn on_tick(&mut self);

    fn on_interrupt(&mut self);
}

/// The work of the plain select-loop program: progress on every tick, a
/// farewell on shutdown.
pub struct PrintWork {}

impl WorkUnit for PrintWork {
    fn on_tick(&mut self) {
        emit_line("working!");
    }

    fn on_interrupt(&mut self) {
        emit_line("");
        emit_line("Goodbye!");
    }
}

/// One cycle of the blocking wait loop: suspends, without busy-spinning,
/// until the union of the two sources has an event (the wakeup may be
/// spurious), then dispatches under the tie-break of `arbitrate` — a tick
/// is even looked at only when no interrupt is pending, so shutdown is
/// never delayed behind routine work.
///
/// On a tick the cycle invokes the work unit's tick callback and stays
/// running. On the interrupt it performs the farewell, drains the buffered
/// interrupt events (they are ignored: redundant occurrences have no second
/// effect), terminates, and reports it; the terminating cycle works no tick
/// at all. A requested interrupt is the expected termination path, not a
/// failure: once the loop runs, no error path exists.
///
/// The caller repeats this cycle until it reports termination; with no
/// interrupt it never does, and the program keeps consuming ticks at the
/// configured period.
pub fn run_cycle_with<W: WorkUnit>(
    m: &mut Multiplexer,
    interrupts: &InterruptSource,
    ticks: &TickSource,
    work: &mut W,
) -> (terminated: bool)
    requires
        old(m).wf(),
        old(m).spec_state() == LoopState::Running,
    ensures
        final(m).wf(),
        terminated <==> final(m).spec_state() == LoopState::Terminated,
        !terminated ==> {
            &&& final(m).spec_state() == LoopState::Running
            &&& final(m).spec_farewells() == old(m).spec_farewells()
            &&& (final(m).spec_ticks() == old(m).spec_ticks() || final(m).spec_ticks() == cap64(
                old(m).spec_ticks() + 1,
            ))
        },
        terminated ==> {
            &&& final(m).spec_farewells() == old(m).spec_farewells() + 1
            &&& final(m).spec_ticks() == old(m).spec_ticks()
        },
{
    block_until_event(interrupts, ticks);
    let got_interrupt = interrupt_pending(interrupts);
    let got_tick = if got_interrupt {
        false
    } else {
        tick_pending(ticks)
    };
    match arbitrate(got_interrupt, got_tick) {
        None => {
            // a spurious wakeup: nothing was ready after all
            false
        },
        Some(Event::Tick) => {
            let _ = m.handle(Event::Tick);
            work.on_tick();
            false
        },
        Some(Event::Interrupt) => {
            let _ = m.handle(Event::Interrupt);
            work.on_interrupt();
            // receives are exhaustive before exit: everything buffered is
            // drained, and the queue holds at most its capacity
            let mut budget: usize = INTERRUPT_QUEUE_DEPTH;
            while budget > 0 && interrupt_pending(interrupts)
                invariant
                    m.wf(),
                    m.spec_state() == LoopState::ShuttingDown,
                    m.spec_farewells() == old(m).spec_farewells() + 1,
                    m.spec_ticks() == old(m).spec_ticks(),
                decreases budget,
            {
                let _ = m.handle(Event::Interrupt);
                budget = budget - 1;
            }
            m.finish();
            true
        },
    }
}

/// `run_cycle_with` under the plain printing work unit: "working!" per
/// tick, the farewell lines on shutdown.
pub fn run_cycle(m: &mut Multiplexer, interrupts: &InterruptSource, ticks: &TickSource) -> (terminated: bool)
    requires
        old(m).wf(),
        old(m).spec_state() == LoopState::Running,
    ensures
        final(m).wf(),
        terminated <==> final(m).spec_state() == LoopState::Terminated,
        !terminated ==> {
            &&& final(m).spec_state() == LoopState::Running
            &&& final(m).spec_farewells() == old(m).spec_farewells()
            &&& (final(m).spec_ticks() == old(m).spec_ticks() || final(m).spec_ticks() == cap64(
                old(m).spec_ticks() + 1,
            ))
        },
        terminated ==> {
            &&& final(m).spec_farewells() == old(m).spec_farewells() + 1
            &&& final(m).spec_ticks() == old(m).spec_ticks()
        },
{
    let mut work = PrintWork {};
    run_cycle_with(m, interrupts, ticks, &mut work)
}

} // verus!
