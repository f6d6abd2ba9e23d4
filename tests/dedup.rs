use fs_watch::{DedupGate, Dispatch, FsEvent, FsKind, WatchError};

fn ev(kind: FsKind, path: &str, ts: u128) -> FsEvent {
    FsEvent::new(kind, path.to_string(), ts)
}

#[test]
fn fresh_gate_lets_first_event_through() {
    let mut g = DedupGate::new();
    assert!(g.previous().is_none());
    assert!(g.accept(&ev(FsKind::Add, "/a", 0)));
    assert!(g.previous().unwrap() == &ev(FsKind::Add, "/a", 0));
}

#[test]
fn repeat_inside_window_is_suppressed() {
    let mut g = DedupGate::new();
    assert!(g.accept(&ev(FsKind::Modify, "/a", 1000)));
    assert!(!g.accept(&ev(FsKind::Modify, "/a", 1030)));
    assert!(!g.accept(&ev(FsKind::Modify, "/a", 1050)));
    assert!(g.previous().unwrap().ts == 1000);
}

#[test]
fn repeat_after_window_is_delivered() {
    let mut g = DedupGate::new();
    assert!(g.accept(&ev(FsKind::Modify, "/a", 1000)));
    assert!(g.accept(&ev(FsKind::Modify, "/a", 1051)));
    assert!(g.previous().unwrap().ts == 1051);
}

#[test]
fn window_counts_from_last_delivered() {
    let mut g = DedupGate::new();
    assert!(g.accept(&ev(FsKind::Modify, "/a", 1000)));
    assert!(!g.accept(&ev(FsKind::Modify, "/a", 1040)));
    assert!(!g.accept(&ev(FsKind::Modify, "/a", 1049)));
    assert!(g.accept(&ev(FsKind::Modify, "/a", 1051)));
}

#[test]
fn different_path_is_delivered() {
    let mut g = DedupGate::new();
    assert!(g.accept(&ev(FsKind::Modify, "/a", 1000)));
    assert!(g.accept(&ev(FsKind::Modify, "/b", 1001)));
}

#[test]
fn different_kind_is_delivered() {
    let mut g = DedupGate::new();
    assert!(g.accept(&ev(FsKind::Add, "/a", 1000)));
    assert!(g.accept(&ev(FsKind::Modify, "/a", 1001)));
}

#[test]
fn other_is_never_let_through() {
    let mut g = DedupGate::new();
    assert!(!g.accept(&ev(FsKind::Other, "/a", 0)));
    assert!(g.previous().is_none());
    assert!(g.accept(&ev(FsKind::Add, "/a", 10)));
    assert!(!g.accept(&ev(FsKind::Other, "/b", 100000)));
    assert!(g.previous().unwrap() == &ev(FsKind::Add, "/a", 10));
}

#[test]
fn earlier_timestamp_repeat_is_suppressed() {
    let mut g = DedupGate::new();
    assert!(g.accept(&ev(FsKind::Remove, "/a", 5000)));
    assert!(!g.accept(&ev(FsKind::Remove, "/a", 10)));
}

#[test]
fn largest_timestamps_do_not_overflow() {
    let mut g = DedupGate::new();
    assert!(g.accept(&ev(FsKind::Modify, "/a", u128::MAX - 10)));
    assert!(!g.accept(&ev(FsKind::Modify, "/a", u128::MAX)));
}

#[test]
fn errors_bypass_debouncing() {
    let mut g = DedupGate::new();
    match g.dispatch(Ok(ev(FsKind::Add, "/a", 100))) {
        Dispatch::Deliver(e) => assert!(e == ev(FsKind::Add, "/a", 100)),
        _ => panic!("expected delivery"),
    }
    for _ in 0..3 {
        assert!(matches!(g.dispatch(Err(WatchError::NoPath)), Dispatch::Fail(WatchError::NoPath)));
    }
    assert!(g.previous().unwrap() == &ev(FsKind::Add, "/a", 100));
    assert!(matches!(g.dispatch(Ok(ev(FsKind::Add, "/a", 120))), Dispatch::Suppress));
}
