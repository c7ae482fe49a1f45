use signalmux::queue::UnitQueue;

#[test]
fn latest_only_tick_buffering() {
    // a stalled consumer: many ticks arrive, capacity one
    let mut q = UnitQueue::new(1);
    assert!(q.try_send());
    assert!(!q.try_send());
    assert!(!q.try_send());
    assert_eq!(q.buffered(), 1);
    // on resume exactly one tick is delivered, not a burst
    assert!(q.try_recv());
    assert!(!q.try_recv());
    assert_eq!(q.buffered(), 0);
}

#[test]
fn overflow_drops_the_new_event() {
    let mut q = UnitQueue::new(2);
    assert!(q.try_send());
    assert!(q.try_send());
    for _ in 0..5 {
        assert!(!q.try_send());
    }
    assert_eq!(q.buffered(), 2);
    assert!(q.try_recv());
    assert_eq!(q.buffered(), 1);
    assert!(q.try_send());
    assert_eq!(q.buffered(), 2);
}

#[test]
fn empty_queue_delivers_nothing() {
    let mut q = UnitQueue::new(3);
    assert!(!q.try_recv());
    assert_eq!(q.buffered(), 0);
}
