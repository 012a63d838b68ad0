//! Tests of the online-connection registry.

use forum::gateway::registry::ConnectionRegistry;
use forum::gateway::registry::RegistryError;
use forum::models::user::User;
use forum::utils::snowflake::Snowflake;

fn user(id: i64, name: &str) -> User {
    User::new(Snowflake(id), name, name, "correct horse battery staple")
}

#[test]
fn register_then_register_fails() {
    let mut reg = ConnectionRegistry::new();
    assert!(reg.register(user(1, "u1")).is_ok());
    assert_eq!(reg.register(user(1, "u1")), Err(RegistryError::AlreadyOnline));
    assert_eq!(reg.len(), 1);
}

#[test]
fn unregister_then_register_succeeds() {
    let mut reg = ConnectionRegistry::new();
    assert!(reg.register(user(1, "u1")).is_ok());
    reg.unregister(1);
    assert!(!reg.is_online(1));
    assert!(reg.register(user(1, "u1")).is_ok());
    assert!(reg.is_online(1));
}

#[test]
fn unregister_absent_is_a_noop() {
    let mut reg = ConnectionRegistry::new();
    assert!(reg.register(user(1, "u1")).is_ok());
    reg.unregister(2);
    assert_eq!(reg.len(), 1);
    assert!(reg.is_online(1));
}

#[test]
fn distinct_users_coexist() {
    let mut reg = ConnectionRegistry::new();
    assert!(reg.register(user(1, "u1")).is_ok());
    assert!(reg.register(user(2, "u2")).is_ok());
    assert!(reg.register(user(3, "u3")).is_ok());
    assert_eq!(reg.len(), 3);
    assert!(reg.is_online(2));
    assert!(!reg.is_online(4));
}

#[test]
fn snapshot_excluding_drops_exactly_the_given_id() {
    let mut reg = ConnectionRegistry::new();
    assert!(reg.register(user(1, "u1")).is_ok());
    assert!(reg.register(user(2, "u2")).is_ok());
    assert!(reg.register(user(3, "u3")).is_ok());
    let snap = reg.snapshot_excluding(2);
    let ids: Vec<i64> = snap.iter().map(|u| u.id.0).collect();
    assert_eq!(ids, vec![1, 3]);
    let full = reg.snapshot();
    let ids: Vec<i64> = full.iter().map(|u| u.id.0).collect();
    assert_eq!(ids, vec![1, 2, 3]);
}

#[test]
fn snapshot_holds_complete_profiles() {
    let mut reg = ConnectionRegistry::new();
    assert!(reg.register(user(9, "niner")).is_ok());
    let snap = reg.snapshot();
    assert_eq!(snap.len(), 1);
    assert_eq!(snap[0].username, "niner");
    assert_eq!(snap[0].id, Snowflake(9));
}
