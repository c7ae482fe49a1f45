use signalmux::events::{Action, Event, LoopState};
use signalmux::mux::{Multiplexer, arbitrate, run_queued, run_scripted};
use signalmux::queue::UnitQueue;

#[test]
fn s1_three_ticks_then_interrupt() {
    let script = vec![Event::Tick, Event::Tick, Event::Tick, Event::Interrupt];
    let m = run_scripted(&script);
    assert_eq!(m.ticks_worked(), 3);
    assert_eq!(m.farewells_done(), 1);
    assert!(matches!(m.state(), LoopState::Terminated));
}

#[test]
fn s2_five_ticks_no_interrupt_still_running() {
    let script = vec![Event::Tick; 5];
    let m = run_scripted(&script);
    assert_eq!(m.ticks_worked(), 5);
    assert_eq!(m.farewells_done(), 0);
    assert!(matches!(m.state(), LoopState::Running));
}

#[test]
fn s3_interrupt_before_any_tick() {
    let script = vec![Event::Interrupt];
    let m = run_scripted(&script);
    assert_eq!(m.ticks_worked(), 0);
    assert_eq!(m.farewells_done(), 1);
    assert!(matches!(m.state(), LoopState::Terminated));
}

#[test]
fn no_tick_is_worked_past_the_interrupt() {
    let script = vec![
        Event::Tick,
        Event::Tick,
        Event::Interrupt,
        Event::Tick,
        Event::Tick,
    ];
    let m = run_scripted(&script);
    assert_eq!(m.ticks_worked(), 2);
    assert_eq!(m.farewells_done(), 1);
    assert!(matches!(m.state(), LoopState::Terminated));
}

#[test]
fn double_interrupt_is_one_shutdown() {
    let once = run_scripted(&vec![Event::Tick, Event::Interrupt]);
    let twice = run_scripted(&vec![Event::Tick, Event::Interrupt, Event::Interrupt]);
    assert_eq!(once.ticks_worked(), twice.ticks_worked());
    assert_eq!(once.farewells_done(), 1);
    assert_eq!(twice.farewells_done(), 1);
    assert!(matches!(twice.state(), LoopState::Terminated));
}

#[test]
fn empty_script_stays_running() {
    let m = run_scripted(&Vec::new());
    assert_eq!(m.ticks_worked(), 0);
    assert_eq!(m.farewells_done(), 0);
    assert!(matches!(m.state(), LoopState::Running));
}

#[test]
fn arbitrate_prefers_the_interrupt() {
    assert!(matches!(arbitrate(true, true), Some(Event::Interrupt)));
    assert!(matches!(arbitrate(true, false), Some(Event::Interrupt)));
    assert!(matches!(arbitrate(false, true), Some(Event::Tick)));
    assert!(matches!(arbitrate(false, false), None));
}

#[test]
fn handle_works_ticks_and_says_farewell_once() {
    let mut m = Multiplexer::new();
    assert!(matches!(m.handle(Event::Tick), Action::Work));
    assert!(matches!(m.handle(Event::Tick), Action::Work));
    assert!(matches!(m.handle(Event::Interrupt), Action::Farewell));
    assert!(matches!(m.handle(Event::Interrupt), Action::Ignore));
    assert!(matches!(m.handle(Event::Tick), Action::Ignore));
    assert_eq!(m.ticks_worked(), 2);
    assert_eq!(m.farewells_done(), 1);
    assert!(matches!(m.state(), LoopState::ShuttingDown));
    m.finish();
    assert!(matches!(m.state(), LoopState::Terminated));
}

#[test]
fn queued_interrupt_wins_over_pending_ticks() {
    let mut m = Multiplexer::new();
    let mut interrupts = UnitQueue::new(100);
    let mut ticks = UnitQueue::new(1);
    assert!(interrupts.try_send());
    assert!(interrupts.try_send());
    assert!(ticks.try_send());
    run_queued(&mut m, &mut interrupts, &mut ticks);
    // the interrupt is processed first: the pending tick is never worked
    assert_eq!(m.ticks_worked(), 0);
    assert_eq!(m.farewells_done(), 1);
    assert!(matches!(m.state(), LoopState::Terminated));
    // the interrupt queue is drained exhaustively before exit
    assert_eq!(interrupts.buffered(), 0);
    assert_eq!(ticks.buffered(), 1);
}

#[test]
fn queued_ticks_without_interrupt_keep_running() {
    let mut m = Multiplexer::new();
    let mut interrupts = UnitQueue::new(100);
    let mut ticks = UnitQueue::new(4);
    for _ in 0..4 {
        assert!(ticks.try_send());
    }
    run_queued(&mut m, &mut interrupts, &mut ticks);
    assert_eq!(m.ticks_worked(), 4);
    assert_eq!(m.farewells_done(), 0);
    assert!(matches!(m.state(), LoopState::Running));
    assert_eq!(ticks.buffered(), 0);
}
