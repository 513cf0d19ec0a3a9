use chattor::protocol::friend_code::{
    friend_code_to_onion, onion_to_friend_code, pubkey_to_onion, validate_friend_code, WORDS,
};

#[test]
fn word_list_has_256_entries() {
    assert_eq!(WORDS.len(), 256);
}

#[test]
fn word_list_has_no_duplicates() {
    let mut seen = std::collections::HashSet::new();
    for word in WORDS.iter() {
        assert!(seen.insert(word), "Duplicate word: {:?}", word);
    }
}

#[test]
fn roundtrip_onion_to_code_and_back() {
    let pubkey = [0u8; 32];
    let onion = pubkey_to_onion(&pubkey).unwrap();

    let code = onion_to_friend_code(&onion).unwrap();
    let recovered = friend_code_to_onion(&code).unwrap();

    assert_eq!(onion, recovered);
}

#[test]
fn roundtrip_with_nonzero_key() {
    let mut pubkey = [0u8; 32];
    for i in 0..32 {
        pubkey[i] = (i * 7 + 13) as u8;
    }
    let onion = pubkey_to_onion(&pubkey).unwrap();

    let code = onion_to_friend_code(&onion).unwrap();
    let recovered = friend_code_to_onion(&code).unwrap();

    assert_eq!(onion, recovered);
}

#[test]
fn friend_code_format() {
    let pubkey = [0u8; 32];
    let onion = pubkey_to_onion(&pubkey).unwrap();
    let code = onion_to_friend_code(&onion).unwrap();

    let groups: Vec<&str> = code.split(' ').collect();
    assert_eq!(groups.len(), 8, "Expected 8 groups, got: {}", code);

    for group in &groups {
        let words: Vec<&str> = group.split('-').collect();
        assert_eq!(words.len(), 4, "Expected 4 words in group '{}', got {}", group, words.len());
    }
}

#[test]
fn friend_code_is_deterministic() {
    let pubkey = [42u8; 32];
    let onion = pubkey_to_onion(&pubkey).unwrap();

    let code1 = onion_to_friend_code(&onion).unwrap();
    let code2 = onion_to_friend_code(&onion).unwrap();
    assert_eq!(code1, code2);
}

#[test]
fn validate_valid_code() {
    let pubkey = [0u8; 32];
    let onion = pubkey_to_onion(&pubkey).unwrap();
    let code = onion_to_friend_code(&onion).unwrap();
    assert!(validate_friend_code(&code).is_ok());
}

#[test]
fn validate_rejects_wrong_word_count() {
    let result = validate_friend_code("ace act add");
    assert!(result.is_err());
}

#[test]
fn validate_rejects_unknown_words() {
    let code = std::iter::repeat("ace").take(31).chain(std::iter::once("zzz")).collect::<Vec<_>>().join(" ");
    let result = validate_friend_code(&code);
    assert!(result.is_err());
}

#[test]
fn decode_rejects_invalid_word() {
    let code = std::iter::repeat("ace").take(31).chain(std::iter::once("zzz")).collect::<Vec<_>>().join(" ");
    let result = friend_code_to_onion(&code);
    assert!(result.is_err());
}

#[test]
fn decode_handles_mixed_separators() {
    let pubkey = [0u8; 32];
    let onion = pubkey_to_onion(&pubkey).unwrap();
    let code = onion_to_friend_code(&onion).unwrap();

    let all_spaces = code.replace('-', " ");
    let recovered = friend_code_to_onion(&all_spaces).unwrap();
    assert_eq!(onion, recovered);

    let all_dashes = code.replace(' ', "-");
    let recovered = friend_code_to_onion(&all_dashes).unwrap();
    assert_eq!(onion, recovered);
}

#[test]
fn case_insensitive_decode() {
    let pubkey = [0u8; 32];
    let onion = pubkey_to_onion(&pubkey).unwrap();
    let code = onion_to_friend_code(&onion).unwrap();
    let upper = code.to_uppercase();
    let recovered = friend_code_to_onion(&upper).unwrap();
    assert_eq!(onion, recovered);
}

#[test]
fn all_byte_values_encode() {
    for b in 0u8..=255 {
        let word = WORDS[b as usize];
        assert!(!word.is_empty(), "Empty word for byte {}", b);
        let idx = WORDS.iter().position(|w| *w == word).unwrap();
        assert_eq!(idx, b as usize, "Word '{:?}' maps to wrong index", word);
    }
}

// --- further cases -----------------------------------------------------------

#[test]
fn zero_key_code_is_all_first_word() {
    let onion = pubkey_to_onion(&[0u8; 32]).unwrap();
    let code = onion_to_friend_code(&onion).unwrap();
    let expected = vec!["ace-ace-ace-ace"; 8].join(" ");
    assert_eq!(code, expected);
}

#[test]
fn last_word_is_pea() {
    let onion = pubkey_to_onion(&[255u8; 32]).unwrap();
    let code = onion_to_friend_code(&onion).unwrap();
    assert!(code.starts_with("pea-pea-pea-pea pea"));
}

#[test]
fn onion_has_v3_shape() {
    let onion = pubkey_to_onion(&[7u8; 32]).unwrap();
    assert_eq!(onion.len(), 62);
    assert!(onion.ends_with(".onion"));
    assert!(onion[..56].chars().all(|c| c.is_ascii_lowercase() || ('2'..='7').contains(&c)));
}

#[test]
fn known_address_of_zero_key() {
    // The v3 address of the all-zero key, with its SHA3-256 checksum.
    let onion = pubkey_to_onion(&[0u8; 32]).unwrap();
    assert_eq!(onion, "aaaaaaaaaaaaaaaaaaaaaaaaaaaaaaaaaaaaaaaaaaaaaaaaaaam2dqd.onion");
}

#[test]
fn error_messages_name_the_problem() {
    let e = onion_to_friend_code("abc").unwrap_err();
    assert_eq!(e.to_string(), "Crypto error: Missing .onion suffix");

    let e = onion_to_friend_code("abc.onion").unwrap_err();
    assert_eq!(e.to_string(), "Crypto error: Invalid onion address length: expected 56 chars, got 3");

    let bad = format!("{}.onion", "1".repeat(56));
    let e = onion_to_friend_code(&bad).unwrap_err();
    assert_eq!(e.to_string(), "Crypto error: Invalid base32 in onion address");

    let e = friend_code_to_onion("ace act add").unwrap_err();
    assert_eq!(e.to_string(), "Crypto error: Friend code must be 32 words, got 3");

    let code = std::iter::repeat("ace").take(31).chain(std::iter::once("zzz")).collect::<Vec<_>>().join(" ");
    let e = validate_friend_code(&code).unwrap_err();
    assert_eq!(e.to_string(), "Crypto error: Unknown word in friend code: 'zzz'");
}

#[test]
fn version_byte_is_checked() {
    // Encode 35 bytes whose last (version) byte is 2, not 3.
    let mut raw = vec![0u8; 35];
    raw[34] = 2;
    let body = base32::encode(base32::Alphabet::RFC4648 { padding: false }, &raw).to_lowercase();
    let e = onion_to_friend_code(&format!("{}.onion", body)).unwrap_err();
    assert_eq!(e.to_string(), "Crypto error: Not a v3 onion address");
}

#[test]
fn surrounding_whitespace_is_ignored() {
    let onion = pubkey_to_onion(&[9u8; 32]).unwrap();
    let code = onion_to_friend_code(&onion).unwrap();
    let padded = format!("\t {} \n", code);
    assert_eq!(friend_code_to_onion(&padded).unwrap(), onion);
}

#[test]
fn messy_code_decodes_to_canonical_address_and_back() {
    let kp = chattor::crypto::identity::IdentityKeypair::generate().unwrap();
    let onion = kp.to_onion_address();
    let code = onion_to_friend_code(&onion).unwrap();
    let messy = format!("  {}  ", code.to_uppercase().replace(' ', "-"));
    let o = friend_code_to_onion(&messy).unwrap();
    assert_eq!(o.len(), 62);
    assert!(o.ends_with(".onion"));
    assert_eq!(o, o.to_lowercase());
    assert_eq!(o, onion);
    assert_eq!(onion_to_friend_code(&o).unwrap(), code);
}
