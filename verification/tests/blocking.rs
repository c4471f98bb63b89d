use rust_async::spawn_blocking::SpawnBlockingInner;

#[test]
fn test_long_running_computation() {
    let f = || 42;
    let mut inner: SpawnBlockingInner<i32, u8> = SpawnBlockingInner::new();
    assert_eq!(inner.poll(&1), None);
    let to_wake = inner.complete(f());
    assert_eq!(to_wake, Some(1));
    let answer = inner.poll(&2).unwrap();

    assert_eq!(42, answer);
}

#[test]
fn value_ready_before_first_poll() {
    let mut inner: SpawnBlockingInner<&str, u8> = SpawnBlockingInner::new();
    assert_eq!(inner.complete("done"), None);
    assert_eq!(inner.poll(&1), Some("done"));
    assert_eq!(inner.poll(&2), None);
}

#[test]
fn latest_waker_is_woken() {
    let mut inner: SpawnBlockingInner<u64, u8> = SpawnBlockingInner::new();
    assert_eq!(inner.poll(&1), None);
    assert_eq!(inner.poll(&2), None);
    assert_eq!(inner.complete(5), Some(2));
    assert_eq!(inner.poll(&3), Some(5));
}
