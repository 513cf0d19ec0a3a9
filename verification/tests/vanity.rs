use chattor::crypto::vanity::{estimate_attempts, score_candidate, validate_prefix};

#[test]
fn validate_prefix_valid_chars() {
    assert!(validate_prefix("chat").is_ok());
    assert!(validate_prefix("a2b3c").is_ok());
    assert!(validate_prefix("abcdefg").is_ok());
}

#[test]
fn validate_prefix_rejects_invalid() {
    assert!(validate_prefix("").is_err());
    assert!(validate_prefix("CHAT").is_err());
    assert!(validate_prefix("abc8").is_err());
    assert!(validate_prefix("abc1").is_err());
    assert!(validate_prefix("abc0").is_err());
    assert!(validate_prefix("abcdefgh").is_err());
}

#[test]
fn estimate_attempts_correct() {
    assert_eq!(estimate_attempts(1), 32);
    assert_eq!(estimate_attempts(2), 1024);
    assert_eq!(estimate_attempts(3), 32768);
    assert_eq!(estimate_attempts(4), 1048576);
}

#[test]
fn prefix_error_messages() {
    assert_eq!(validate_prefix("").unwrap_err().to_string(), "Crypto error: Prefix cannot be empty");
    assert_eq!(
        validate_prefix("abcdefgh").unwrap_err().to_string(),
        "Crypto error: Prefix too long (max 7 characters)"
    );
    assert_eq!(
        validate_prefix("ab1").unwrap_err().to_string(),
        "Crypto error: Invalid character '1' \u{2014} only a-z and 2-7 are valid"
    );
}

#[test]
fn estimate_attempts_edges() {
    assert_eq!(estimate_attempts(0), 1);
    assert_eq!(estimate_attempts(12), 1u64 << 60);
}

#[test]
fn candidate_scoring() {
    assert_eq!(score_candidate("chat", "chatxyz.onion"), (4, true));
    assert_eq!(score_candidate("chat", "chbtxyz.onion"), (2, false));
    assert_eq!(score_candidate("chat", "zzzz"), (0, false));
    assert_eq!(score_candidate("abc", "ab"), (2, false));
}

#[test]
fn non_ascii_letters_are_refused() {
    // U+0161 has the low byte of 'a'; only a-z and 2-7 themselves pass.
    assert_eq!(
        validate_prefix("\u{161}").unwrap_err().to_string(),
        "Crypto error: Invalid character '\u{161}' \u{2014} only a-z and 2-7 are valid"
    );
}
