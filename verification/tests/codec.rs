//! Tests of the radix conversions and the bearer-token codec.

use forum::models::secret::serialize_secret_timestamp;
use forum::models::secret::serialize_user_secret;
use forum::models::secret::serialize_user_token;
use forum::models::secret::verify_user_token;
use forum::models::secret::Secret;
use forum::utils::convectors::hex_to_int;
use forum::utils::convectors::string_reverse;
use forum::utils::convectors::string_to_lowercase;
use forum::utils::convectors::string_to_uppercase;
use forum::utils::snowflake::Snowflake;
use forum::utils::to_string_radix_signed;
use forum::utils::to_string_radix_unsigned;

#[test]
fn radix_unsigned_exact_values() {
    assert_eq!(to_string_radix_unsigned(0, 16), "0");
    assert_eq!(to_string_radix_unsigned(255, 16), "ff");
    assert_eq!(to_string_radix_unsigned(1295, 36), "zz");
    assert_eq!(to_string_radix_unsigned(399, 20), "jj");
    assert_eq!(to_string_radix_unsigned(10, 2), "1010");
    assert_eq!(to_string_radix_unsigned(u64::MAX, 16), "ffffffffffffffff");
}

#[test]
fn radix_signed_matches_unsigned_on_nonnegative() {
    assert_eq!(to_string_radix_signed(0, 36), "0");
    assert_eq!(to_string_radix_signed(1234567, 10), "1234567");
    assert_eq!(to_string_radix_signed(i64::MAX, 36), "1y2p0ij32e8e7");
}

#[test]
fn hex_to_int_exact_values() {
    assert_eq!(hex_to_int("ff"), 255);
    assert_eq!(hex_to_int("FF"), 255);
    assert_eq!(hex_to_int("0"), 0);
    assert_eq!(hex_to_int("-ff"), -255);
    assert_eq!(hex_to_int("+ff"), 255);
    assert_eq!(hex_to_int("7fffffffffffffff"), i64::MAX);
    // overflow and malformed input both collapse to zero
    assert_eq!(hex_to_int("ffffffffffffffff"), 0);
    assert_eq!(hex_to_int(""), 0);
    assert_eq!(hex_to_int("xyz"), 0);
    assert_eq!(hex_to_int("12 3"), 0);
}

#[test]
fn string_transforms() {
    assert_eq!(string_to_uppercase("abc019xyz"), "ABC019XYZ");
    assert_eq!(string_to_lowercase("ABC019XYZ"), "abc019xyz");
    assert_eq!(string_reverse("abc"), "cba");
    assert_eq!(string_reverse(""), "");
}

#[test]
fn secret_segment_exact_value() {
    assert_eq!(serialize_user_secret(2, 3, 1), "231JRHA44YACR7X1");
    assert_eq!(serialize_user_secret(2, 3, 2), "231X7RCAY44AHRI1");
}

#[test]
fn timestamp_segment_exact_value() {
    // 215 in base 20 is "af"; the identifier's low bits pick the case
    assert_eq!(serialize_secret_timestamp(0, 215), "AF");
    assert_eq!(serialize_secret_timestamp(3, 215), "af");
    assert_eq!(serialize_secret_timestamp(1, 215), "aF");
    assert_eq!(serialize_secret_timestamp(1, 4), "4");
}

#[test]
fn token_exact_value() {
    assert_eq!(serialize_user_token(1, "TS".to_string(), "SEC".to_string()), "MQ.TS.SEC");
    let secret = Secret {
        id: Snowflake(1),
        password_hash: String::new(),
        secret1: 2,
        secret2: 3,
        secret3: 4,
    };
    assert_eq!(secret.token(), "MQ.4.231JRHA44YACR7X1");
}

#[test]
fn token_round_trip() {
    let token = serialize_user_token(
        417281938,
        serialize_secret_timestamp(417281938, 1721638800),
        serialize_user_secret(123456789, 987654321, 417281938),
    );
    assert!(verify_user_token(&token, 417281938, 123456789, 987654321, 1721638800));
}

#[test]
fn token_rejects_mutation() {
    let token = serialize_user_token(
        99,
        serialize_secret_timestamp(99, 5000),
        serialize_user_secret(111, 222, 99),
    );
    assert!(verify_user_token(&token, 99, 111, 222, 5000));
    // flip one character anywhere in the token
    for i in 0..token.len() {
        let mut mutated: Vec<char> = token.chars().collect();
        mutated[i] = if mutated[i] == 'A' { 'B' } else { 'A' };
        let mutated: String = mutated.into_iter().collect();
        if mutated != token {
            assert!(!verify_user_token(&mutated, 99, 111, 222, 5000), "index {}", i);
        }
    }
    // truncation and extension fail too
    assert!(!verify_user_token(&token[..token.len() - 1], 99, 111, 222, 5000));
    let extended = format!("{}A", token);
    assert!(!verify_user_token(&extended, 99, 111, 222, 5000));
}

#[test]
fn token_rejects_changed_secrets() {
    let token = serialize_user_token(
        7,
        serialize_secret_timestamp(7, 4242),
        serialize_user_secret(1001, 2002, 7),
    );
    assert!(verify_user_token(&token, 7, 1001, 2002, 4242));
    assert!(!verify_user_token(&token, 7, 1002, 2002, 4242));
    assert!(!verify_user_token(&token, 7, 1001, 2003, 4242));
    assert!(!verify_user_token(&token, 7, 1001, 2002, 4243));
    assert!(!verify_user_token(&token, 8, 1001, 2002, 4242));
}

#[test]
fn secret_rotation_invalidates_token() {
    let secret = Secret {
        id: Snowflake(55),
        password_hash: "h".to_string(),
        secret1: 10,
        secret2: 20,
        secret3: 30,
    };
    let token = secret.token();
    assert!(verify_user_token(&token, 55, 10, 20, 30));
    let rotated = secret.rotated(1_000_000);
    assert_eq!(rotated.id, Snowflake(55));
    // the rotated timestamp secret differs, so the old token no longer verifies
    if rotated.secret3 != 30 {
        assert!(!verify_user_token(
            &token,
            55,
            rotated.secret1,
            rotated.secret2,
            rotated.secret3
        ));
    }
}
