use chattor::tor::address::{friend_code_to_onion, onion_to_friend_code};

#[test]
fn test_roundtrip() {
    let onion = chattor::protocol::friend_code::friend_code_to_onion(
        &std::iter::repeat("ace").take(32).collect::<Vec<_>>().join(" "),
    )
    .unwrap();

    let code = onion_to_friend_code(&onion).unwrap();
    let recovered = friend_code_to_onion(&code).unwrap();
    assert_eq!(onion, recovered);
}

#[test]
fn test_deterministic() {
    let pubkey_words: String = std::iter::repeat("ace").take(32).collect::<Vec<_>>().join(" ");
    let onion = chattor::protocol::friend_code::friend_code_to_onion(&pubkey_words).unwrap();

    let code1 = onion_to_friend_code(&onion).unwrap();
    let code2 = onion_to_friend_code(&onion).unwrap();
    assert_eq!(code1, code2);
}

#[test]
fn test_invalid_onion() {
    let result = onion_to_friend_code("invalid");
    assert!(result.is_err());
}
