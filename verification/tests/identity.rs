//! Tests of users, sessions, token resolution and the error taxonomies.

use forum::models::gateway::new_session_id;
use forum::models::secret::generate_user_secrets;
use forum::models::session::parse_token_session_id;
use forum::models::session::Session;
use forum::models::user::User;
use forum::models::user::Permissions;
use forum::models::user::UserFlags;
use forum::models::user::DEFAULT_PERMISSION_BITS;
use forum::models::user::PERMISSION_ADMINISTRATOR;
use forum::models::user::PERMISSION_MANAGE_CATEGORIES;
use forum::models::user::PERMISSION_SEND_MESSAGES;
use forum::models::user::USER_FLAG_BANNED;
use forum::routes::clamp_fetch_limit;
use forum::routes::HttpError;
use forum::utils::snowflake::Snowflake;

#[test]
fn user_password_is_stored_as_its_digest() {
    let u = User::new(Snowflake(1), "alice", "Alice", "hello");
    // the well-known SHA-256 of "hello"
    assert_eq!(
        u.password_hash,
        "2cf24dba5fb0a30e26e83b2ac5b9e29e1b161e5c1fa7425e73043362938b9824"
    );
    assert!(u.verify_password("hello"));
    assert!(!u.verify_password("hell0"));
}

#[test]
fn new_user_gets_default_permissions() {
    let u = User::new(Snowflake(1), "alice", "Alice", "pw");
    assert_eq!(u.permissions.bits, DEFAULT_PERMISSION_BITS);
    assert!(u.has_permission(Permissions { bits: PERMISSION_SEND_MESSAGES }));
    assert!(!u.has_permission(Permissions { bits: PERMISSION_MANAGE_CATEGORIES }));
    assert!(!u.has_flag(UserFlags { bits: USER_FLAG_BANNED }));
    let admin = Permissions { bits: PERMISSION_ADMINISTRATOR };
    assert!(Permissions { bits: i64::MAX }.contains(admin));
}

#[test]
fn session_ids_are_short_hex() {
    let s = Session::new(Snowflake(1), "agent".to_string(), "127.0.0.1".to_string(), 1000);
    assert_eq!(s.id.len(), 14);
    assert!(s.id.chars().all(|c| c.is_ascii_hexdigit() && !c.is_ascii_uppercase()));
    assert_eq!(s.user_id, Snowflake(1));
    assert_eq!(s.browser_user_agent, "agent");
    assert_eq!(s.ip, "127.0.0.1");
}

#[test]
fn gateway_session_ids_are_long_hex() {
    let id = new_session_id();
    assert_eq!(id.len(), 32);
    assert!(id.chars().all(|c| c.is_ascii_hexdigit() && !c.is_ascii_uppercase()));
    assert_ne!(new_session_id(), id);
}

#[test]
fn generated_secrets_are_in_range() {
    let (s1, s2, s3) = generate_user_secrets(123_456);
    assert!(s1 >= 0 && s1 < i64::MAX);
    assert!(s2 >= 0 && s2 < i64::MAX);
    assert_eq!(s3, 123_456);
}

#[test]
fn session_token_round_trip() {
    let s = Session::new(Snowflake(1), "ua".to_string(), "ip".to_string(), 987_654);
    let token = s.token();
    assert!(s.verify_token(&token));
    assert!(!s.verify_token(&format!("{}x", token)));
    // the token's head resolves back to the session id (modulo the
    // leading zeros that a hexadecimal rendering drops)
    let expected = format!("{:x}", i64::from_str_radix(&s.id, 16).unwrap());
    assert_eq!(parse_token_session_id(&token), Ok(expected));
}

#[test]
fn token_session_id_parses_exactly() {
    // "MjU1" is the base64url encoding of the decimal string "255"
    assert_eq!(parse_token_session_id("MjU1.ts.secret"), Ok("ff".to_string()));
    assert_eq!(parse_token_session_id("MjU1."), Ok("ff".to_string()));
    assert_eq!(parse_token_session_id("no-dot-here"), Err(HttpError::Unauthorized));
    assert_eq!(parse_token_session_id(""), Err(HttpError::Unauthorized));
    // '!' cannot appear in a base64url head
    assert_eq!(parse_token_session_id("!.ts.secret"), Err(HttpError::Unauthorized));
    // decodes, but not to a decimal number
    assert_eq!(parse_token_session_id("YWJj.ts.secret"), Err(HttpError::Unauthorized));
}

#[test]
fn http_errors_map_to_fixed_statuses_and_codes() {
    assert_eq!(HttpError::UnknownUser.status_code(), 404);
    assert_eq!(HttpError::UnknownUser.error_code(), 10000);
    assert_eq!(HttpError::Unauthorized.status_code(), 401);
    assert_eq!(HttpError::Unauthorized.error_code(), 30000);
    assert_eq!(HttpError::MissingAccess.status_code(), 403);
    assert_eq!(HttpError::MissingAccess.error_code(), 40000);
    assert_eq!(HttpError::TakenUsername.status_code(), 400);
    assert_eq!(HttpError::TakenUsername.error_code(), 20010);
    assert_eq!(HttpError::WeekPassword.status_code(), 400);
    assert_eq!(HttpError::WeekPassword.error_code(), 30001);
    assert_eq!(HttpError::Database("boom".to_string()).status_code(), 500);
    assert_eq!(HttpError::Database("boom".to_string()).error_code(), 20007);
    assert_eq!(HttpError::UnknownCategory.error_code(), 10001);
    assert_eq!(HttpError::UnknownThread.error_code(), 10002);
    assert_eq!(HttpError::UnknownMessage.error_code(), 10003);
    assert_eq!(HttpError::Undeletable.error_code(), 20009);
}

#[test]
fn http_error_descriptions() {
    assert_eq!(HttpError::Unauthorized.description(), "Unauthorized");
    assert_eq!(
        HttpError::Validation("too long".to_string()).description(),
        "Validation error: too long"
    );
    assert_eq!(
        HttpError::Undeletable.description(),
        "Resource can't be deleted due to its policy"
    );
    let payload = HttpError::UnknownUser.to_error_payload();
    assert_eq!(payload.code, 10000);
    assert_eq!(payload.description, "Unknown User");
}

#[test]
fn fetch_limit_is_clamped() {
    assert_eq!(clamp_fetch_limit(None), 50);
    assert_eq!(clamp_fetch_limit(Some(1)), 1);
    assert_eq!(clamp_fetch_limit(Some(100)), 100);
    assert_eq!(clamp_fetch_limit(Some(101)), 100);
    assert_eq!(clamp_fetch_limit(Some(u16::MAX)), 100);
}
