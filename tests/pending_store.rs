use order_wizard::pending::{PendingStore, PENDING_TTL_MS};

fn s(t: &str) -> String {
    t.to_string()
}

#[test]
fn stored_state_is_taken_exactly_once() {
    let mut store = PendingStore::new();
    store.store_at(s("state-1"), s("verifier-1"), s("nonce-1"), 1_000);
    assert_eq!(store.len(), 1);
    let first = store.take_at(&s("state-1"), 1_000 + 60_000);
    assert_eq!(first, Some((s("verifier-1"), s("nonce-1"))));
    assert_eq!(store.len(), 0);
    assert_eq!(store.take_at(&s("state-1"), 1_000 + 60_000), None);
    assert_eq!(store.take_at(&s("state-1"), 1_000 + 120_000), None);
}

#[test]
fn take_at_exactly_ten_minutes_succeeds() {
    let mut store = PendingStore::new();
    store.store_at(s("st"), s("v"), s("n"), 0);
    assert_eq!(store.take_at(&s("st"), PENDING_TTL_MS), Some((s("v"), s("n"))));
}

#[test]
fn stale_state_is_refused_without_sweep_and_removed() {
    let mut store = PendingStore::new();
    store.store_at(s("old"), s("v"), s("n"), 0);
    assert_eq!(store.take_at(&s("old"), PENDING_TTL_MS + 1), None);
    assert_eq!(store.len(), 0);
}

#[test]
fn unknown_state_is_not_found() {
    let mut store = PendingStore::new();
    store.store_at(s("a"), s("v"), s("n"), 0);
    assert_eq!(store.take_at(&s("b"), 0), None);
    assert_eq!(store.len(), 1);
}

#[test]
fn storing_same_state_replaces_entry() {
    let mut store = PendingStore::new();
    store.store_at(s("a"), s("v1"), s("n1"), 0);
    store.store_at(s("a"), s("v2"), s("n2"), 5);
    assert_eq!(store.len(), 1);
    assert_eq!(store.take_at(&s("a"), 10), Some((s("v2"), s("n2"))));
}

#[test]
fn sweep_removes_only_stale_entries() {
    let mut store = PendingStore::new();
    store.store_at(s("a"), s("v"), s("n"), 0);
    store.store_at(s("b"), s("v"), s("n"), 500_000);
    store.store_at(s("c"), s("v"), s("n"), 10);
    assert_eq!(store.sweep_at(PENDING_TTL_MS + 5), 1);
    assert_eq!(store.len(), 2);
    assert_eq!(store.take_at(&s("a"), PENDING_TTL_MS + 5), None);
    assert_eq!(store.take_at(&s("c"), PENDING_TTL_MS + 5), Some((s("v"), s("n"))));
    assert_eq!(store.sweep_at(PENDING_TTL_MS + 5), 0);
}
