use signalmux::events::LoopState;
use signalmux::mux::{Multiplexer, WorkUnit, run_cycle, run_cycle_with};
use signalmux::sources::{
    InterruptNotifier, RegistrationError, manual_interrupt_source, start_ticker,
};

struct Recorder {
    tick_calls: u64,
    farewell_calls: u64,
}

impl WorkUnit for Recorder {
    fn on_tick(&mut self) {
        self.tick_calls += 1;
    }

    fn on_interrupt(&mut self) {
        self.farewell_calls += 1;
    }
}

#[test]
fn double_register_fails_and_leaves_the_first_intact() {
    // the handler is process-global, so every registration attempt of this
    // test binary lives in this one test
    let mut notifier = InterruptNotifier::new();
    let first = notifier.register();
    assert!(first.is_ok());

    // the same notifier refuses by its own guard
    let second = notifier.register();
    assert!(matches!(second, Err(RegistrationError::AlreadyRegistered)));

    // a fresh notifier passes the guard, and the OS facility itself
    // refuses the second process-wide handler
    let mut other = InterruptNotifier::new();
    let third = other.register();
    assert!(matches!(third, Err(RegistrationError::OsRejected)));

    // the first registration still works: its source is still there
    assert!(first.is_ok());
}

#[test]
fn preloaded_interrupt_terminates_without_working_a_tick() {
    let (trigger, source) = manual_interrupt_source(4);
    // two rapid occurrences before the consumer looks: both accepted,
    // but at most one effective shutdown
    assert!(trigger.fire());
    assert!(trigger.fire());

    let ticker = start_ticker(60_000);
    let mut m = Multiplexer::new();
    while !run_cycle(&mut m, &source, &ticker) {}

    assert!(matches!(m.state(), LoopState::Terminated));
    assert_eq!(m.ticks_worked(), 0);
    assert_eq!(m.farewells_done(), 1);
}

#[test]
fn interrupt_before_any_tick_gives_one_farewell_callback() {
    let (trigger, source) = manual_interrupt_source(4);
    assert!(trigger.fire());

    let ticker = start_ticker(60_000);
    let mut m = Multiplexer::new();
    let mut rec = Recorder { tick_calls: 0, farewell_calls: 0 };
    while !run_cycle_with(&mut m, &source, &ticker, &mut rec) {}

    // zero tick callbacks, one farewell
    assert_eq!(rec.tick_calls, 0);
    assert_eq!(rec.farewell_calls, 1);
    assert!(matches!(m.state(), LoopState::Terminated));
}

#[test]
fn trigger_drops_on_a_full_channel() {
    let (trigger, _source) = manual_interrupt_source(1);
    assert!(trigger.fire());
    // the channel is full: the occurrence is dropped, never an error
    assert!(!trigger.fire());
}
