//! The event sources: the bridge from the process-wide interruption request
//! to a bounded event channel, a periodic tick source, and a manual trigger
//! that injects interrupt events the way the registered handler would.
//!
//! The channels themselves come from an outside crate and are opaque here:
//! what they hold depends on when the OS delivers a signal and on the clock,
//! so the trusted items promise nothing about pending events, and all
//! decisions about them are made by verified code in `mux`.

use vstd::prelude::*;
use std::io::Write;

verus! {

#[verifier::external_type_specification]
#[verifier::external_body]
#[verifier::reject_recursive_types(T)]
pub struct ExReceiver<T>(crossbeam_channel::Receiver<T>);

#[verifier::external_type_specification]
#[verifier::external_body]
#[verifier::reject_recursive_types(T)]
pub struct ExSender<T>(crossbeam_channel::Sender<T>);

#[verifier::external_type_specification]
#[verifier::external_body]
pub struct ExInstant(std::time::Instant);

#[verifier::external_type_specification]
#[verifier::external_body]
pub struct ExCtrlcError(ctrlc::Error);

/// How many interrupt events may be buffered before further raw
/// occurrences are dropped; the consumer only needs "was I asked to stop".
pub const INTERRUPT_QUEUE_DEPTH: usize = 100;

/// Why the interrupt source could not be installed.
#[derive(Clone, Copy, PartialEq, Eq, Structural, Debug)]
pub enum RegistrationError {
    /// This notifier has already handed out its source.
    AlreadyRegistered,
    /// The OS facility rejected the handler (for instance because another
    /// handler is already installed process-wide).
    OsRejected,
}

/// The consuming end of the interrupt event channel.
pub struct InterruptSource {
    pub(crate) rx: crossbeam_channel::Receiver<()>,
}

/// A handle that injects interrupt events exactly as the registered OS
/// handler would: one non-blocking enqueue attempt per occurrence.
pub struct InterruptTrigger {
    pub(crate) tx: crossbeam_channel::Sender<()>,
}

/// The consuming end of a periodic tick channel.
pub struct TickSource {
    pub(crate) rx: crossbeam_channel::Receiver<std::time::Instant>,
}

/// Relies on crossbeam_channel::bounded: a channel of the given capacity;
/// its try_send never blocks and fails when the channel is full.
#[verifier::external_body]
fn bounded_unit(cap: usize) -> (pair: (
    crossbeam_channel::Sender<()>,
    crossbeam_channel::Receiver<()>,
)) {
    crossbeam_channel::bounded(cap)
}

/// Relies on ctrlc::set_handler: installs the process-wide handler for the
/// interruption request and returns Err (Error::MultipleHandlers) if one is
/// already installed; the handler body only makes one non-blocking enqueue
/// attempt and drops the event when the channel is full.
#[verifier::external_body]
fn install_handler(tx: crossbeam_channel::Sender<()>) -> (r: Result<(), ctrlc::Error>) {
    ctrlc::set_handler(move || {
        let _ = tx.try_send(());
    })
}

/// Relies on crossbeam_channel::tick: a receiver fed one timestamp per
/// period; the channel buffers at most one pending tick, so a stalled
/// consumer finds one tick on resume, not a backlog.
#[verifier::external_body]
fn tick_channel(period_ms: u64) -> (rx: crossbeam_channel::Receiver<std::time::Instant>) {
    crossbeam_channel::tick(std::time::Duration::from_millis(period_ms))
}

/// Relies on crossbeam_channel::Receiver::try_recv: non-blocking, Ok exactly
/// when an event was buffered. Whether one is buffered depends on when the
/// OS delivered a signal, so nothing more is promised.
#[verifier::external_body]
pub(crate) fn interrupt_pending(src: &InterruptSource) -> (delivered: bool) {
    src.rx.try_recv().is_ok()
}

/// Relies on crossbeam_channel::Receiver::try_recv, as `interrupt_pending`
/// does; the timestamp a tick carries is discarded.
#[verifier::external_body]
pub(crate) fn tick_pending(src: &TickSource) -> (delivered: bool) {
    src.rx.try_recv().is_ok()
}

/// Relies on crossbeam_channel::Sender::try_send: one non-blocking enqueue
/// attempt, Ok exactly when the channel had room.
#[verifier::external_body]
fn send_unit(tx: &crossbeam_channel::Sender<()>) -> (accepted: bool) {
    tx.try_send(()).is_ok()
}

/// Relies on crossbeam_channel::Select (new, recv, ready): blocks, without
/// busy-spinning, until one of the two receivers appears ready. The wakeup
/// may be spurious, so the caller re-checks both receivers.
#[verifier::external_body]
pub(crate) fn block_until_event(interrupts: &InterruptSource, ticks: &TickSource) {
    let mut sel = crossbeam_channel::Select::new();
    sel.recv(&interrupts.rx);
    sel.recv(&ticks.rx);
    let _ = sel.ready();
}

/// Relies on std::io::stdout via writeln: prints one line.
#[verifier::external_body]
pub(crate) fn emit_line(s: &str) {
    let _ = writeln!(std::io::stdout(), "{}", s);
}

/// The single-owner capability for the process-wide interrupt handler.
/// There is exactly one OS facility, so a program creates one notifier at
/// startup and registers it once; the explicit guard makes the second
/// attempt fail without touching the first registration.
pub struct InterruptNotifier {
    installed: bool,
}

impl InterruptNotifier {
    /// Whether this notifier has already handed out its event source.
    pub closed spec fn spec_installed(self) -> bool {
        self.installed
    }

    /// A notifier that has not registered anything yet.
    pub fn new() -> (n: InterruptNotifier)
        ensures
            !n.spec_installed(),
    {
        InterruptNotifier { installed: false }
    }

    /// Installs the process-wide interrupt handler and returns the event
    /// source it feeds. Each raw interruption request becomes at most one
    /// event: the handler performs a single non-blocking enqueue and drops
    /// the occurrence silently when the queue is full.
    ///
    /// A second registration fails with `AlreadyRegistered` and leaves the
    /// first intact; if the OS facility rejects the handler, the attempt
    /// fails with `OsRejected` and the notifier stays unregistered.
    pub fn register(&mut self) -> (r: Result<InterruptSource, RegistrationError>)
        ensures
            old(self).spec_installed() ==> r is Err && r->Err_0
                == RegistrationError::AlreadyRegistered,
            old(self).spec_installed() ==> final(self).spec_installed(),
            !old(self).spec_installed() ==> (final(self).spec_installed() <==> r is Ok),
            !old(self).spec_installed() && r is Err ==> r->Err_0 == RegistrationError::OsRejected,
    {
        if self.installed {
            return Err(RegistrationError::AlreadyRegistered);
        }
        let (tx, rx) = bounded_unit(INTERRUPT_QUEUE_DEPTH);
        match install_handler(tx) {
            Ok(()) => {
                self.installed = true;
                Ok(InterruptSource { rx })
            },
            Err(_) => Err(RegistrationError::OsRejected),
        }
    }
}

/// A trigger/source pair over one bounded channel, for driving the
/// multiplexer under test control instead of the OS handler.
pub fn manual_interrupt_source(cap: usize) -> (pair: (InterruptTrigger, InterruptSource))
    requires
        cap >= 1,
{
    let (tx, rx) = bounded_unit(cap);
    (InterruptTrigger { tx }, InterruptSource { rx })
}

impl InterruptTrigger {
    /// Requests an interrupt as the OS handler would: one non-blocking
    /// enqueue attempt. Returns whether the event was accepted; a drop is
    /// deliberate load shedding, never an error.
    pub fn fire(&self) -> bool {
        send_unit(&self.tx)
    }
}

/// Starts a periodic tick source with the given period. Construction does
/// not fail: the underlying timer channel is created eagerly and buffers at
/// most one pending tick.
pub fn start_ticker(period_ms: u64) -> TickSource {
    TickSource { rx: tick_channel(period_ms) }
}

} // verus!
