use actixexp::identity::{IdentityStore, StorageError};
use actixexp::session::SessionData;

#[test]
fn find_misses_before_any_create() {
    let store = IdentityStore::new();
    assert!(store.find_by_provider_identifier("42").is_none());
}

#[test]
fn create_then_find_returns_the_record() {
    let mut store = IdentityStore::new();
    let created = store.create("42").unwrap();
    assert_eq!(created.provider_identifier, "42");
    assert!(created.alive);
    let found = store.find_by_provider_identifier("42").unwrap();
    assert_eq!(found.id, created.id);
    assert_eq!(found.provider_identifier, "42");
}

#[test]
fn create_twice_violates_the_unique_constraint() {
    let mut store = IdentityStore::new();
    store.create("42").unwrap();
    let err = store.create("42").unwrap_err();
    assert_eq!(err, StorageError::ConstraintViolation);
}

#[test]
fn find_or_create_is_idempotent() {
    let mut store = IdentityStore::new();
    let first = store.find_or_create("42").unwrap();
    let second = store.find_or_create("42").unwrap();
    assert_eq!(second.id, first.id);
    assert_eq!(second.provider_identifier, first.provider_identifier);
}

#[test]
fn distinct_identifiers_get_distinct_identities() {
    let mut store = IdentityStore::new();
    let a = store.find_or_create("1").unwrap();
    let b = store.find_or_create("2").unwrap();
    assert_ne!(a.id, b.id);
    assert_eq!(store.find_or_create("1").unwrap().id, a.id);
}

#[test]
fn session_values_read_back_as_stored() {
    let mut session = SessionData::new();
    assert_eq!(session.get("k"), None);
    session.insert("k", "v".to_string());
    assert_eq!(session.get("k"), Some("v".to_string()));
    session.insert("k", "w".to_string());
    assert_eq!(session.get("k"), Some("w".to_string()));
    session.insert("other", "x".to_string());
    assert_eq!(session.get("k"), Some("w".to_string()));
    assert_eq!(session.get("other"), Some("x".to_string()));
}

#[test]
fn take_is_read_once() {
    let mut session = SessionData::new();
    session.insert("auth-state", "s".to_string());
    assert_eq!(session.take("auth-state"), Some("s".to_string()));
    assert_eq!(session.take("auth-state"), None);
    assert_eq!(session.get("auth-state"), None);
}

#[test]
fn clear_drops_every_entry() {
    let mut session = SessionData::new();
    session.insert("a", "1".to_string());
    session.insert("b", "2".to_string());
    session.clear();
    assert_eq!(session.get("a"), None);
    assert_eq!(session.get("b"), None);
}

#[test]
fn renew_keeps_entries_and_purge_drops_them() {
    let mut session = SessionData::new();
    session.insert("id", "7".to_string());
    session.renew();
    assert_eq!(session.get("id"), Some("7".to_string()));
    session.purge();
    assert_eq!(session.get("id"), None);
}
