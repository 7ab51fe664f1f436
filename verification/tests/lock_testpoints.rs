use lucet_runtime_internals::lock_testpoints::SyncFlags;

#[test]
fn syncpoint_without_waiter_lets_runtime_through() {
    let mut f = SyncFlags::new();
    assert!(!f.has_arrived());
    f.arrive();
    assert!(f.has_arrived());
    assert!(f.may_proceed());
}

#[test]
fn waiter_stops_runtime_until_resumed() {
    let mut f = SyncFlags::new();
    f.wait_at();
    f.arrive();
    assert!(f.has_arrived());
    assert!(!f.may_proceed());
    f.resume();
    assert!(f.may_proceed());
}

#[test]
fn resuming_before_arrival_is_like_never_waiting() {
    let mut f = SyncFlags::new();
    f.wait_at();
    f.resume();
    assert_eq!(f, SyncFlags::new());
}
