use rust_async::reactor::Readiness;

#[test]
fn event_before_poll_is_not_lost() {
    let mut readiness: Readiness<u8> = Readiness::new();
    assert_eq!(readiness.ready(4), None);
    assert!(readiness.poll(4, &1));
    // the event was taken: the next poll waits
    assert!(!readiness.poll(4, &2));
}

#[test]
fn poll_then_event_wakes_latest_waker() {
    let mut readiness: Readiness<u8> = Readiness::new();
    assert!(!readiness.poll(7, &1));
    assert!(!readiness.poll(7, &2));
    assert_eq!(readiness.ready(7), Some(2));
    assert!(readiness.poll(7, &3));
}

#[test]
fn sources_do_not_disturb_each_other() {
    let mut readiness: Readiness<u8> = Readiness::new();
    assert!(!readiness.poll(1, &10));
    assert_eq!(readiness.ready(2), None);
    assert!(!readiness.poll(1, &11));
    assert!(readiness.poll(2, &12));
    assert_eq!(readiness.ready(1), Some(11));
}
