use mpsc_channel::state::Inner;

#[test]
fn fresh_state_has_one_producer_and_waits() {
    let s: Inner<u32> = Inner::new();
    assert!(s.must_wait());
}

#[test]
fn take_front_yields_in_enqueue_order() {
    let mut s = Inner::new();
    s.enqueue(10);
    s.enqueue(20);
    assert!(!s.must_wait());
    assert_eq!(s.take_front(), Some(10));
    assert_eq!(s.take_front(), Some(20));
    assert_eq!(s.take_front(), None);
    assert!(s.must_wait());
}

#[test]
fn release_of_last_producer_closes() {
    let mut s: Inner<u32> = Inner::new();
    s.register_producer();
    s.register_producer();
    assert!(!s.release_producer());
    assert!(!s.release_producer());
    assert!(s.release_producer());
    assert!(!s.must_wait());
    assert_eq!(s.take_front(), None);
}

#[test]
fn release_below_zero_stays_closed() {
    let mut s: Inner<u32> = Inner::new();
    assert!(s.release_producer());
    assert!(!s.release_producer());
    assert!(!s.must_wait());
}

#[test]
fn closed_state_still_yields_pending_values() {
    let mut s = Inner::new();
    s.enqueue('x');
    assert!(s.release_producer());
    assert!(!s.must_wait());
    assert_eq!(s.take_front(), Some('x'));
    assert_eq!(s.take_front(), None);
}

#[test]
fn closed_state_is_not_reopened_by_a_registration() {
    let mut s: Inner<u32> = Inner::new();
    assert!(s.release_producer());
    s.register_producer();
    assert!(!s.must_wait());
    assert_eq!(s.take_front(), None);
    assert!(!s.release_producer());
}
