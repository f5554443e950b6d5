use rest_server::counter::RequestCounter;
use rest_server::server::RustServerApp;
use rest_server::store::MessageStore;

#[test]
fn append_returns_positions_in_order() {
    let mut store = MessageStore::new();
    assert_eq!(store.append("first".to_string()), 0);
    assert_eq!(store.append("second".to_string()), 1);
    assert_eq!(store.append("third".to_string()), 2);
    assert_eq!(store.len(), 3);
}

#[test]
fn snapshot_copies_in_insertion_order() {
    let mut store = MessageStore::new();
    store.append("a".to_string());
    store.append("".to_string());
    store.append("c".to_string());
    let snap = store.snapshot();
    assert_eq!(snap, vec!["a".to_string(), "".to_string(), "c".to_string()]);
    // The snapshot is a copy: mutating the store afterwards leaves it alone.
    store.clear();
    assert_eq!(snap.len(), 3);
}

#[test]
fn clear_then_snapshot_is_empty() {
    let mut store = MessageStore::new();
    store.append("a".to_string());
    store.append("b".to_string());
    store.clear();
    assert!(store.snapshot().is_empty());
    assert_eq!(store.len(), 0);
}

#[test]
fn lookup_present_iff_in_range() {
    let mut store = MessageStore::new();
    assert_eq!(store.lookup(0), None);
    store.append("a".to_string());
    store.append("b".to_string());
    assert_eq!(store.lookup(0), Some("a".to_string()));
    assert_eq!(store.lookup(1), Some("b".to_string()));
    assert_eq!(store.lookup(2), None);
    assert_eq!(store.lookup(usize::MAX), None);
}

#[test]
fn counter_starts_at_zero_and_counts_by_one() {
    let mut counter = RequestCounter::new();
    assert_eq!(counter.current(), 0);
    assert_eq!(counter.increment_and_get(), 1);
    assert_eq!(counter.increment_and_get(), 2);
    assert_eq!(counter.increment_and_get(), 3);
    assert_eq!(counter.current(), 3);
}

#[test]
fn app_keeps_its_port() {
    let app = RustServerApp::new(8080);
    assert_eq!(app.port(), 8080);
}
