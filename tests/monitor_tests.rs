use std::cell::Cell;
use std::rc::Rc;

use lynx_structio::monitor;
use lynx_structio::{is_qualifying, EventKind, FileMonitor, Handle, MonitorError, PollAction};

fn s(x: &str) -> String {
    x.to_string()
}

fn register<C>(m: &mut FileMonitor<C>, path: &str, cb: C) -> Handle {
    match m.register_file(s(path), Some(s(path)), cb) {
        Ok(h) => h,
        Err(_) => panic!("registration failed"),
    }
}

fn event(m: &mut FileMonitor<u32>, kind: EventKind, path: &str) -> Option<u32> {
    let paths = vec![s(path)];
    match m.begin_dispatch(kind, &paths) {
        Some(i) => {
            let id = *m.callback(i).unwrap();
            m.finish_dispatch(i);
            Some(id)
        }
        None => None,
    }
}

fn running_monitor() -> FileMonitor<u32> {
    let mut m: FileMonitor<u32> = FileMonitor::new();
    assert!(m.listen());
    m
}

#[test]
fn qualifying_kinds() {
    assert!(is_qualifying(EventKind::CloseAfterWrite));
    assert!(is_qualifying(EventKind::DataModified));
    for k in [
        EventKind::CloseAfterRead,
        EventKind::Access,
        EventKind::MetadataModified,
        EventKind::Renamed,
        EventKind::Created,
        EventKind::Removed,
        EventKind::Other,
    ] {
        assert!(!is_qualifying(k));
    }
}

#[test]
fn second_registration_replaces_callback() {
    let mut m = running_monitor();
    let h1 = register(&mut m, "/a", 1);
    let h2 = register(&mut m, "/a", 2);
    assert_eq!(h1.index, h2.index);
    assert_eq!(m.len(), 1);
    assert_eq!(event(&mut m, EventKind::DataModified, "/a"), Some(2));
}

#[test]
fn unresolvable_path_is_rejected() {
    let mut m = running_monitor();
    register(&mut m, "/a", 1);
    let _ = m.poll();
    match m.register_file(s("missing.yaml"), None, 9) {
        Err(MonitorError::PathResolution(p)) => assert_eq!(p, "missing.yaml"),
        Ok(_) => panic!("expected an error"),
    }
    assert_eq!(m.len(), 1);
    assert!(matches!(m.poll(), PollAction::Idle));
    assert_eq!(event(&mut m, EventKind::DataModified, "/a"), Some(1));
    assert_eq!(event(&mut m, EventKind::DataModified, "missing.yaml"), None);
}

#[test]
fn held_lock_drops_events() {
    let mut m = running_monitor();
    let h = register(&mut m, "/a", 1);
    let paths = vec![s("/a")];
    let first = m.begin_dispatch(EventKind::DataModified, &paths);
    assert_eq!(first, Some(0));
    assert!(m.is_debouncing(&h));
    assert_eq!(m.begin_dispatch(EventKind::DataModified, &paths), None);
    assert_eq!(m.begin_dispatch(EventKind::CloseAfterWrite, &paths), None);
    // registering again while the callback runs keeps the lock
    register(&mut m, "/a", 2);
    assert_eq!(m.begin_dispatch(EventKind::DataModified, &paths), None);
    m.finish_dispatch(0);
    assert!(!m.is_debouncing(&h));
    assert_eq!(m.begin_dispatch(EventKind::DataModified, &paths), Some(0));
}

#[test]
fn non_qualifying_events_are_ignored() {
    let mut m = running_monitor();
    let h = register(&mut m, "/a", 1);
    register(&mut m, "/b", 2);
    for k in [EventKind::MetadataModified, EventKind::Access, EventKind::CloseAfterRead, EventKind::Renamed] {
        assert_eq!(event(&mut m, k, "/a"), None);
        assert_eq!(event(&mut m, k, "/b"), None);
    }
    assert!(!m.is_debouncing(&h));
    assert_eq!(event(&mut m, EventKind::CloseAfterWrite, "/b"), Some(2));
}

#[test]
fn unknown_path_event_is_dropped() {
    let mut m = running_monitor();
    register(&mut m, "/a", 1);
    assert_eq!(event(&mut m, EventKind::DataModified, "/elsewhere"), None);
    let none: Vec<String> = Vec::new();
    assert_eq!(m.begin_dispatch(EventKind::DataModified, &none), None);
}

#[test]
fn events_before_listen_are_dropped() {
    let mut m: FileMonitor<u32> = FileMonitor::new();
    register(&mut m, "/a", 1);
    assert_eq!(event(&mut m, EventKind::DataModified, "/a"), None);
}

#[test]
fn registration_while_running_reaches_watch_set() {
    let mut m = running_monitor();
    match m.poll() {
        PollAction::Rebuild { unwatch, watch } => {
            assert!(unwatch.is_empty());
            assert!(watch.is_empty());
        }
        _ => panic!("first iteration rebuilds"),
    }
    assert!(matches!(m.poll(), PollAction::Idle));
    register(&mut m, "/a", 1);
    match m.poll() {
        PollAction::Rebuild { unwatch, watch } => {
            assert!(unwatch.is_empty());
            assert_eq!(watch, vec![s("/a")]);
            for p in watch {
                m.record_subscribed(p);
            }
        }
        _ => panic!("expected a rebuild"),
    }
    register(&mut m, "/b", 2);
    match m.poll() {
        PollAction::Rebuild { unwatch, watch } => {
            assert_eq!(unwatch, vec![s("/a")]);
            assert_eq!(watch, vec![s("/a"), s("/b")]);
        }
        _ => panic!("expected a rebuild"),
    }
    assert!(matches!(m.poll(), PollAction::Idle));
}

#[test]
fn registration_before_listen_is_honored() {
    let mut m: FileMonitor<u32> = FileMonitor::new();
    register(&mut m, "/a", 1);
    assert!(matches!(m.poll(), PollAction::Idle));
    assert!(monitor::listen(&mut m));
    assert!(!monitor::listen(&mut m));
    match m.poll() {
        PollAction::Rebuild { watch, .. } => assert_eq!(watch, vec![s("/a")]),
        _ => panic!("expected a rebuild"),
    }
}

#[test]
fn stop_ends_the_loop_and_dispatch() {
    let mut m = running_monitor();
    register(&mut m, "/a", 1);
    monitor::stop(&mut m);
    assert!(matches!(m.poll(), PollAction::Exit));
    assert_eq!(event(&mut m, EventKind::DataModified, "/a"), None);
    assert!(!m.listen());
    assert!(monitor::register_file(&mut m, s("/b"), Some(s("/b")), 2).is_ok());
    assert!(matches!(m.poll(), PollAction::Exit));
    assert_eq!(event(&mut m, EventKind::DataModified, "/b"), None);
}

#[test]
fn finish_out_of_range_changes_nothing() {
    let mut m = running_monitor();
    let h = register(&mut m, "/a", 1);
    m.finish_dispatch(5);
    assert!(!m.is_debouncing(&h));
    assert!(m.callback(5).is_none());
    assert!(!m.is_debouncing(&Handle { index: 7 }));
}

#[test]
fn slow_callback_holds_back_second_event() {
    let counter = Rc::new(Cell::new(0u32));
    let c = counter.clone();
    let mut m: FileMonitor<Box<dyn Fn()>> = FileMonitor::new();
    let increment: Box<dyn Fn()> = Box::new(move || c.set(c.get() + 1));
    let h = register(&mut m, "A", increment);
    assert!(m.listen());
    let paths = vec![s("A")];
    let first = m.begin_dispatch(EventKind::DataModified, &paths).unwrap();
    (m.callback(first).unwrap())();
    assert_eq!(counter.get(), 1);
    // the first callback has not returned yet: the second event is dropped
    assert_eq!(m.begin_dispatch(EventKind::DataModified, &paths), None);
    assert_eq!(counter.get(), 1);
    assert!(m.is_debouncing(&h));
    m.finish_dispatch(first);
    assert_eq!(counter.get(), 1);
    assert!(!m.is_debouncing(&h));
}

#[test]
fn slow_callback_on_one_path_does_not_block_another() {
    let a_count = Rc::new(Cell::new(0u32));
    let b_count = Rc::new(Cell::new(0u32));
    let (a, b) = (a_count.clone(), b_count.clone());
    let mut m: FileMonitor<Box<dyn Fn()>> = FileMonitor::new();
    register(&mut m, "A", Box::new(move || a.set(a.get() + 1)) as Box<dyn Fn()>);
    register(&mut m, "B", Box::new(move || b.set(b.get() + 1)) as Box<dyn Fn()>);
    assert!(m.listen());
    let ia = m.begin_dispatch(EventKind::DataModified, &vec![s("A")]).unwrap();
    let ib = m.begin_dispatch(EventKind::DataModified, &vec![s("B")]).unwrap();
    assert_ne!(ia, ib);
    // B runs to completion while A's callback is still in progress
    (m.callback(ib).unwrap())();
    m.finish_dispatch(ib);
    assert_eq!(b_count.get(), 1);
    assert_eq!(a_count.get(), 0);
    (m.callback(ia).unwrap())();
    m.finish_dispatch(ia);
    assert_eq!(a_count.get(), 1);
}
