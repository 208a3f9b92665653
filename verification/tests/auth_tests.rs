use evolith::auth::{duration_is_readable, parse_duration, Argon2Hasher, JwtHandler, PasswordError};
use evolith::config::JwtConfig;

#[test]
fn test_hash_and_verify_password() {
    let hasher = Argon2Hasher::new();
    let password = "TestPassword123!";

    let hash = hasher.hash_password(password).expect("Hashing failed");
    assert!(hash.starts_with("$argon2id$"));

    assert!(hasher
        .verify_password(password, &hash)
        .expect("Verification failed"));
    assert!(!hasher
        .verify_password("WrongPassword", &hash)
        .expect("Verification failed"));
}

#[test]
fn test_password_validation() {
    let hasher = Argon2Hasher::new();

    assert!(hasher.validate_strength("TestPassword123!").is_ok());
    assert!(hasher.validate_strength("ComplexP@ssw0rd").is_ok());

    assert!(hasher.validate_strength("short").is_err());
    assert!(hasher.validate_strength("noupper123!").is_err());
    assert!(hasher.validate_strength("NOLOWER123!").is_err());
    assert!(hasher.validate_strength("NoDigits!").is_err());
    assert!(hasher.validate_strength("NoSpecial123").is_err());
}

#[test]
fn test_unique_hashes() {
    let hasher = Argon2Hasher::new();
    let password = "SamePassword123!";

    let hash1 = hasher.hash_password(password).expect("Hashing failed");
    let hash2 = hasher.hash_password(password).expect("Hashing failed");

    assert_ne!(hash1, hash2);
}

#[test]
fn test_password_length_boundaries() {
    let hasher = Argon2Hasher::new();

    assert!(hasher.validate_strength("Abcdefg1!").is_ok());
    assert!(hasher.validate_strength("Abcdef12!").is_ok());

    let too_long = "Aa1!".repeat(33);
    assert!(hasher.validate_strength(&too_long).is_err());
}

#[test]
fn test_password_special_characters() {
    let hasher = Argon2Hasher::new();

    assert!(hasher.validate_strength("PassWord1!").is_ok());
    assert!(hasher.validate_strength("PassWord1@").is_ok());
    assert!(hasher.validate_strength("PassWord1#").is_ok());
    assert!(hasher.validate_strength("PassWord1$").is_ok());
    assert!(hasher.validate_strength("PassWord1%").is_ok());
    assert!(hasher.validate_strength("PassWord1^").is_ok());
    assert!(hasher.validate_strength("PassWord1&").is_ok());
    assert!(hasher.validate_strength("PassWord1*").is_ok());
}

#[test]
fn test_verify_invalid_hash_format() {
    let hasher = Argon2Hasher::new();

    assert!(hasher.verify_password("test", "invalid-hash").is_err());
    assert!(hasher.verify_password("test", "").is_err());
}

#[test]
fn test_empty_password() {
    let hasher = Argon2Hasher::new();
    let result = hasher.validate_strength("");
    assert!(result.is_err());
}

#[test]
fn test_whitespace_password() {
    let hasher = Argon2Hasher::new();
    let result = hasher.validate_strength("    ");
    assert!(result.is_err());
}

#[test]
fn test_unicode_password() {
    let hasher = Argon2Hasher::new();
    let result = hasher.hash_password("密码123ABC!");
    assert!(result.is_ok());
}

#[test]
fn test_password_with_spaces() {
    let hasher = Argon2Hasher::new();
    let result = hasher.validate_strength("Pass Word1!");
    assert!(result.is_ok());
}

#[test]
fn test_parse_duration() {
    assert_eq!(parse_duration("24h"), 24 * 3600);
    assert_eq!(parse_duration("7d"), 7 * 86400);
    assert_eq!(parse_duration("30m"), 30 * 60);
    assert_eq!(parse_duration("1w"), 7 * 86400);
}

#[test]
fn parse_duration_defaults_and_seconds() {
    assert_eq!(parse_duration(""), 86400);
    assert_eq!(parse_duration("   "), 86400);
    assert_eq!(parse_duration("45s"), 45);
    assert_eq!(parse_duration(" 2h "), 7200);
    // An unreadable count falls back to 24 of the unit; an unknown unit to a day.
    assert_eq!(parse_duration("xh"), 24 * 3600);
    assert_eq!(parse_duration("10y"), 86400);
}

#[test]
fn password_rules_count_characters_and_unicode_classes() {
    let hasher = Argon2Hasher::new();
    // Seven characters but eight bytes: too short.
    assert!(hasher.validate_strength("Aé1!bcd").is_err());
    assert!(hasher.validate_strength("Aé1!bcde").is_ok());
    // No upper-case letter at all.
    assert!(matches!(
        hasher.validate_strength("abcdefg1!"),
        Err(PasswordError::InvalidPassword)
    ));
}

#[test]
fn with_params_refuses_too_little_memory() {
    assert!(Argon2Hasher::with_params(8, 1, 1).is_ok());
    assert!(matches!(
        Argon2Hasher::with_params(7, 1, 1),
        Err(PasswordError::HashFailed(_))
    ));
    assert!(matches!(
        Argon2Hasher::with_params(16, 1, 4),
        Err(PasswordError::HashFailed(_))
    ));
    assert!(Argon2Hasher::with_params(32, 0, 4).is_err());
}

fn handler() -> JwtHandler {
    JwtHandler::new(&JwtConfig {
        secret: "test_secret_key_for_testing".to_string(),
        expiration: "1h".to_string(),
    })
}

#[test]
fn claims_expire_one_lifetime_after_issue() {
    let h = handler();
    let claims = h.claims_for(
        "7f3b2c9e-1a4d-4e8b-9c2f-0d5e6a7b8c9d",
        "user",
        "00000000-0000-0000-0000-000000000000",
        "owner",
        1_700_000_000,
    );
    assert_eq!(claims.iat, 1_700_000_000);
    assert_eq!(claims.exp, 1_700_000_000 + 3600);
    assert_eq!(claims.role, "user");
    assert_eq!(h.secret(), b"test_secret_key_for_testing");
}

#[test]
fn token_data_requires_a_user_uuid() {
    let h = handler();
    let good = h.claims_for(
        "7f3b2c9e-1a4d-4e8b-9c2f-0d5e6a7b8c9d",
        "admin",
        "not-a-uuid",
        "member",
        100,
    );
    let data = h.token_data(good).expect("valid subject");
    assert_eq!(data.user_id, 0x7f3b2c9e_1a4d_4e8b_9c2f_0d5e6a7b8c9d);
    assert_eq!(data.tenant_id, 0);
    assert_eq!(data.role, "admin");
    assert_eq!(data.tenant_role, "member");
    assert!(!h.is_expired(&data, 100));
    assert!(h.is_expired(&data, 3700));

    let bad = h.claims_for("user-1", "admin", "", "member", 100);
    match h.token_data(bad) {
        Err(evolith::auth::AuthError::AuthenticationError(m)) => {
            assert!(m.starts_with("Invalid user ID in token: "));
            assert!(m.len() > "Invalid user ID in token: ".len());
        }
        other => panic!("unexpected {:?}", other),
    }
}

#[test]
fn duration_readability_and_lifetime() {
    assert!(duration_is_readable("24h"));
    assert!(duration_is_readable(""));
    assert!(duration_is_readable("10x"));
    assert!(!duration_is_readable("5é"));
    assert!(!duration_is_readable("99999999999999999w"));
    let h = JwtHandler::new(&JwtConfig {
        secret: "s".to_string(),
        expiration: "2d".to_string(),
    });
    assert_eq!(h.lifetime_secs(), 172800);
}

#[test]
fn hash_records_algorithm_version_and_costs() {
    let hasher = Argon2Hasher::with_params(8, 1, 1).expect("valid costs");
    let hash = hasher.hash_password("Abc123!x").expect("hash");
    assert!(hash.starts_with("$argon2id$v=19$m=8,t=1,p=1$"));
    assert!(hasher.verify_password("Abc123!x", &hash).unwrap());
    assert!(!hasher.verify_password("Abc123!y", &hash).unwrap());
}

#[test]
fn token_data_reads_back_the_claims() {
    let h = JwtHandler::new(&JwtConfig {
        secret: "test_secret_key_for_testing".to_string(),
        expiration: "1h".to_string(),
    });
    let user = "550e8400-e29b-41d4-a716-446655440000";
    let tenant = "6ba7b810-9dad-11d1-80b4-00c04fd430c8";
    let claims = h.claims_for(user, "admin", tenant, "owner", 1_000);
    assert_eq!(claims.iat, 1_000);
    assert_eq!(claims.exp, 1_000 + 3600);
    let data = h.token_data(claims).expect("valid claims");
    assert_eq!(data.user_id, 0x550e8400_e29b_41d4_a716_446655440000u128);
    assert_eq!(data.tenant_id, 0x6ba7b810_9dad_11d1_80b4_00c04fd430c8u128);
    assert_eq!(data.role, "admin");
    assert_eq!(data.tenant_role, "owner");
    assert_eq!(data.expires_at, 4_600);
    assert!(!h.is_expired(&data, 4_599));
    assert!(h.is_expired(&data, 4_600));
    // A tenant id that is no UUID reads as the nil UUID; a bad user id is refused.
    let other = h.claims_for(user, "member", "none", "member", 0);
    assert_eq!(h.token_data(other).unwrap().tenant_id, 0);
    assert!(h.token_data(h.claims_for("bob", "member", tenant, "member", 0)).is_err());
}

#[test]
fn password_length_counts_characters() {
    let hasher = Argon2Hasher::new();
    // six characters, eight bytes of UTF-8
    assert!(hasher.validate_strength("Aé1!é").is_err());
    assert!(hasher.validate_strength("Aa1!éa").is_err());
    // eight characters of which two take two bytes
    assert!(hasher.validate_strength("Aa1!éaéa").is_ok());
    // 128 characters of which many take two bytes (more than 128 bytes)
    let long = format!("Aa1!{}", "é".repeat(124));
    assert!(hasher.validate_strength(&long).is_ok());
}

#[test]
fn verify_refuses_a_lane_count_beyond_argon2() {
    let hasher = Argon2Hasher::new();
    let hash = hasher.hash_password("Secret12!").expect("Hashing failed");
    assert!(hash.contains(",p=4$"));
    let bad = hash.replace(",p=4$", ",p=536870912$");
    assert_eq!(hasher.verify_password("Secret12!", &bad).ok(), Some(false));
    let fine = hash.replace(",p=4$", ",p=5$");
    assert_eq!(hasher.verify_password("Secret12!", &fine).ok(), Some(false));
    assert_eq!(hasher.verify_password("Secret12!", &hash).ok(), Some(true));
}

#[test]
fn duration_counts_wrap_like_a_cast() {
    assert!(duration_is_readable("18446744073709551615h"));
    assert_eq!(parse_duration("18446744073709551615h"), -3600);
    assert!(duration_is_readable("18446744073709551614s"));
    assert_eq!(parse_duration("18446744073709551614s"), -2);
    assert!(!duration_is_readable("9223372036854775807s"));
}
