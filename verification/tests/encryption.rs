use chattor::daemon::{check_passphrase_fd, new_auth_token, validate_passphrase};
use chattor::db::encryption::{derive_key, export_sql, key_pragma, quote_sql};

#[test]
fn test_derive_key_deterministic() {
    let salt = [1u8; 16];
    let key1 = derive_key(b"test_password", &salt).unwrap();
    let key2 = derive_key(b"test_password", &salt).unwrap();
    assert_eq!(key1, key2);
}

#[test]
fn test_derive_key_different_passphrase() {
    let salt = [1u8; 16];
    let key1 = derive_key(b"password1", &salt).unwrap();
    let key2 = derive_key(b"password2", &salt).unwrap();
    assert_ne!(key1, key2);
}

#[test]
fn test_derive_key_different_salt() {
    let salt1 = [1u8; 16];
    let salt2 = [2u8; 16];
    let key1 = derive_key(b"password", &salt1).unwrap();
    let key2 = derive_key(b"password", &salt2).unwrap();
    assert_ne!(key1, key2);
}

#[test]
fn derived_key_matches_argon2id_directly() {
    let salt = [9u8; 16];
    let params = argon2::Params::new(65536, 3, 4, Some(32)).unwrap();
    let mut expected = [0u8; 32];
    argon2::Argon2::new(argon2::Algorithm::Argon2id, argon2::Version::V0x13, params)
        .hash_password_into(b"correct horse", &salt, &mut expected)
        .unwrap();
    assert_eq!(derive_key(b"correct horse", &salt).unwrap(), expected);
}

#[test]
fn hex_is_lower_case_two_digits_a_byte() {
    let mut key = [0u8; 32];
    key[..4].copy_from_slice(&[0x00, 0x0f, 0xa5, 0xff]);
    let pragma = key_pragma(&key);
    assert!(pragma.starts_with("PRAGMA key = \"x'000fa5ff0000"));
}

#[test]
fn key_pragma_text() {
    let key = [0xabu8; 32];
    assert_eq!(
        key_pragma(&key),
        format!("PRAGMA key = \"x'{}'\";PRAGMA cipher_page_size = 4096;", "ab".repeat(32))
    );
}

#[test]
fn quotes_are_doubled() {
    assert_eq!(quote_sql("it's"), "it''s");
    assert_eq!(quote_sql("''"), "''''");
    assert_eq!(quote_sql("plain"), "plain");
    assert_eq!(quote_sql(""), "");
}

#[test]
fn export_statement_quotes_the_path() {
    let key = [0x01u8; 32];
    assert_eq!(
        export_sql("/tmp/o'brien/messages.db.enc", &key),
        format!(
            "ATTACH DATABASE '/tmp/o''brien/messages.db.enc' AS encrypted KEY \"x'{}'\";SELECT sqlcipher_export('encrypted');DETACH DATABASE encrypted;",
            "01".repeat(32)
        )
    );
}

#[test]
fn blank_passphrase_is_refused() {
    let err = validate_passphrase("  \t\n").unwrap_err();
    assert_eq!(err.to_string(), "Crypto error: Passphrase cannot be empty");
    assert!(validate_passphrase("").is_err());
}

#[test]
fn short_passphrase_is_refused() {
    let err = validate_passphrase("  1234567  ").unwrap_err();
    assert_eq!(err.to_string(), "Crypto error: Passphrase must be at least 8 characters");
    // Three two-byte characters are six bytes.
    assert!(validate_passphrase("ééé").is_err());
}

#[test]
fn long_enough_passphrase_is_accepted() {
    assert!(validate_passphrase("  12345678  ").is_ok());
    // Four two-byte characters are eight bytes.
    assert!(validate_passphrase("éééé").is_ok());
}

#[test]
fn passphrase_fd_must_not_be_a_standard_stream() {
    for fd in [-1, 0, 1, 2] {
        let err = check_passphrase_fd(fd).unwrap_err();
        assert_eq!(
            err.to_string(),
            "Crypto error: passphrase-fd must be >= 3 (cannot use stdin/stdout/stderr)"
        );
    }
    assert!(check_passphrase_fd(3).is_ok());
}

#[test]
fn auth_tokens_are_64_hex_digits_and_fresh() {
    let a = new_auth_token();
    let b = new_auth_token();
    assert_eq!(a.len(), 64);
    assert!(a.chars().all(|c| c.is_ascii_hexdigit() && !c.is_ascii_uppercase()));
    assert_ne!(a, b);
}

#[test]
fn test_key_derivation() {
    let salt = [1u8; 16];
    let key1 = derive_key(b"password123", &salt).unwrap();
    let key2 = derive_key(b"password123", &salt).unwrap();
    assert_eq!(key1, key2); // Deterministic

    let key3 = derive_key(b"different", &salt).unwrap();
    assert_ne!(key1, key3); // Different passphrase = different key
}
