//! Tests of device identifiers and passwords.

use remote_desk::error::SecurityError;
use remote_desk::security::{connection_password_hash, DeviceId, PasswordManager};

#[test]
fn test_generate_device_id() {
    let id = DeviceId::generate();
    assert!(id.as_u32() >= 100_000_000);
    assert!(id.as_u32() <= 999_999_999);
}

#[test]
fn test_device_id_from_u32() {
    let id = DeviceId::from_u32(123456789).unwrap();
    assert_eq!(id.as_u32(), 123456789);

    assert!(DeviceId::from_u32(12345678).is_err());
    assert!(DeviceId::from_u32(1234567890).is_err());
}

#[test]
fn test_format_with_spaces() {
    let id = DeviceId::from_u32(123456789).unwrap();
    assert_eq!(id.format_with_spaces(), "123 456 789");

    let id2 = DeviceId::from_u32(100000000).unwrap();
    assert_eq!(id2.format_with_spaces(), "100 000 000");
}

#[test]
fn test_device_id_display() {
    let id = DeviceId::from_u32(123456789).unwrap();
    assert_eq!(id.digits(), "123456789");
}

#[test]
fn test_device_id_from_str() {
    let id: DeviceId = "123456789".parse().unwrap();
    assert_eq!(id.as_u32(), 123456789);

    let id2: DeviceId = "123 456 789".parse().unwrap();
    assert_eq!(id2.as_u32(), 123456789);

    assert!("12345678".parse::<DeviceId>().is_err());
    assert!("abc123456".parse::<DeviceId>().is_err());
}

#[test]
fn test_device_id_validate() {
    assert!(DeviceId::validate("123456789").is_ok());
    assert!(DeviceId::validate("123 456 789").is_ok());
    assert!(DeviceId::validate("12345678").is_err());
    assert!(DeviceId::validate("1234567890").is_err());
    assert!(DeviceId::validate("abc123456").is_err());
}

#[test]
fn test_format_parse_round_trip_edges() {
    for v in [100_000_000u32, 999_999_999, 102_003_004, 580_000_001] {
        let id = DeviceId::from_u32(v).unwrap();
        let spaced = id.format_with_spaces();
        assert_eq!(spaced.chars().filter(|c| *c == ' ').count(), 2);
        assert_eq!(spaced.chars().filter(|c| c.is_ascii_digit()).count(), 9);
        let back: DeviceId = spaced.parse().unwrap();
        assert_eq!(back.as_u32(), v);
        assert!(DeviceId::validate(&spaced).is_ok());
    }
}

#[test]
fn test_password_hashing() {
    let password = "my_secure_password";
    let hash = PasswordManager::hash_password(password).unwrap();

    assert!(!hash.is_empty());
    assert!(hash.starts_with("$argon2id$"));
}

#[test]
fn test_password_verification() {
    let password = "my_secure_password";
    let hash = PasswordManager::hash_password(password).unwrap();

    assert!(PasswordManager::verify_password(password, &hash).is_ok());
    assert!(PasswordManager::verify_password("wrong_password", &hash).is_err());
}

#[test]
fn test_password_length_validation() {
    assert!(PasswordManager::hash_password("short").is_err());
    assert!(PasswordManager::hash_password("valid_password").is_ok());
    let long_password = "a".repeat(129);
    assert!(PasswordManager::hash_password(&long_password).is_err());
}

#[test]
fn test_different_hashes_for_same_password() {
    let password = "same_password";

    let hash1 = PasswordManager::hash_password(password).unwrap();
    let hash2 = PasswordManager::hash_password(password).unwrap();

    assert_ne!(hash1, hash2);

    assert!(PasswordManager::verify_password(password, &hash1).is_ok());
    assert!(PasswordManager::verify_password(password, &hash2).is_ok());
}

#[test]
fn test_connection_password_hash_depends_on_remote() {
    let a = DeviceId::from_u32(123456789).unwrap();
    let b = DeviceId::from_u32(987654321).unwrap();
    let h1 = connection_password_hash("secret", &a);
    let h2 = connection_password_hash("secret", &a);
    let h3 = connection_password_hash("secret", &b);
    assert_eq!(h1, h2);
    assert_ne!(h1, h3);
    assert_eq!(h1.len(), 32);
}

#[test]
fn test_hash_password_length_errors_are_exact() {
    match PasswordManager::hash_password("short") {
        Err(SecurityError::PasswordTooShort { min }) => assert_eq!(min, 6),
        _ => panic!("expected PasswordTooShort"),
    }
    match PasswordManager::hash_password(&"a".repeat(129)) {
        Err(SecurityError::PasswordTooLong { max }) => assert_eq!(max, 128),
        _ => panic!("expected PasswordTooLong"),
    }
}
