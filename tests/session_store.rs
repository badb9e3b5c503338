use order_wizard::identity::OAuthUser;
use order_wizard::json::Json;
use order_wizard::sessions::SessionStore;

fn user(id: &str) -> OAuthUser {
    OAuthUser { id: id.to_string(), name: None, email: None }
}

#[test]
fn session_without_ttl_never_expires() {
    let mut store = SessionStore::new();
    store.insert_at("sid".to_string(), user("u1"), None, Json::Null, 0);
    assert_eq!(store.resolve_identity_at(&"sid".to_string(), 0), Some("u1".to_string()));
    assert_eq!(store.resolve_identity_at(&"sid".to_string(), i64::MAX), Some("u1".to_string()));
    assert_eq!(store.sweep_at(i64::MAX), 0);
    store.remove(&"sid".to_string());
    assert_eq!(store.resolve_identity_at(&"sid".to_string(), 0), None);
}

#[test]
fn session_with_ttl_expires_after_its_lifetime() {
    let mut store = SessionStore::new();
    store.insert_at("sid".to_string(), user("u2"), Some(60), Json::Null, 1_000);
    let sid = "sid".to_string();
    assert_eq!(store.resolve_identity_at(&sid, 1_000), Some("u2".to_string()));
    assert_eq!(store.resolve_identity_at(&sid, 61_000), Some("u2".to_string()));
    assert_eq!(store.resolve_identity_at(&sid, 61_001), None);
    let snapshot = store.snapshot(&sid).expect("expired sessions stay visible to snapshot");
    assert_eq!(snapshot.expires_at, Some(61_000));
    assert_eq!(snapshot.user.id, "u2");
}

#[test]
fn huge_ttl_is_held_at_largest_instant() {
    let mut store = SessionStore::new();
    store.insert_at("sid".to_string(), user("u"), Some(u64::MAX), Json::Null, 5);
    let snapshot = store.snapshot(&"sid".to_string()).unwrap();
    assert_eq!(snapshot.expires_at, Some(i64::MAX));
}

#[test]
fn removing_unknown_session_is_harmless() {
    let mut store = SessionStore::new();
    store.insert_at("a".to_string(), user("u"), None, Json::Null, 0);
    store.remove(&"zzz".to_string());
    assert_eq!(store.len(), 1);
    store.remove(&"a".to_string());
    store.remove(&"a".to_string());
    assert_eq!(store.len(), 0);
}

#[test]
fn sweep_removes_only_expired_sessions() {
    let mut store = SessionStore::new();
    store.insert_at("a".to_string(), user("ua"), Some(1), Json::Null, 0);
    store.insert_at("b".to_string(), user("ub"), Some(100), Json::Null, 0);
    store.insert_at("c".to_string(), user("uc"), None, Json::Null, 0);
    assert_eq!(store.sweep_at(1_000), 0);
    assert_eq!(store.sweep_at(1_001), 1);
    assert_eq!(store.sweep_at(1_001), 0);
    assert_eq!(store.len(), 2);
    assert!(store.snapshot(&"a".to_string()).is_none());
}

#[test]
fn inserting_same_id_replaces_session() {
    let mut store = SessionStore::new();
    store.insert_at("a".to_string(), user("first"), None, Json::Null, 0);
    store.insert_at("a".to_string(), user("second"), None, Json::Bool(true), 0);
    assert_eq!(store.len(), 1);
    assert_eq!(store.resolve_identity_at(&"a".to_string(), 0), Some("second".to_string()));
}
