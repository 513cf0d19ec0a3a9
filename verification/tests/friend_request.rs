use chattor::crypto::identity::IdentityKeypair;
use base64::Engine;
use chattor::protocol::friend_request::{create_accept, verify_accept, FriendRequestHandler};

fn base64_encode(data: &[u8]) -> String {
    base64::engine::general_purpose::STANDARD.encode(data)
}

#[test]
fn test_create_friend_request() {
    let identity = IdentityKeypair::generate().unwrap();
    let friend_code = "happy-1234-tiger-5678";
    let onion = "test.onion";

    let request = FriendRequestHandler::create_request(&identity, onion, friend_code).unwrap();

    assert_eq!(request.from_onion, onion);
    assert_eq!(request.from_friendcode, friend_code);
    assert!(!request.signature.is_empty());
    assert!(request.timestamp > 0);
}

#[test]
fn test_validate_request_verifies_signature() {
    let identity = IdentityKeypair::generate().unwrap();
    let onion = identity.to_onion_address();
    let friend_code = "happy-1234-tiger-5678";

    let request = FriendRequestHandler::create_request(&identity, &onion, friend_code).unwrap();

    assert!(FriendRequestHandler::validate_request(&request).unwrap());
}

#[test]
fn test_validate_request_rejects_forged_signature() {
    let identity = IdentityKeypair::generate().unwrap();
    let onion = identity.to_onion_address();
    let friend_code = "happy-1234-tiger-5678";

    let mut request = FriendRequestHandler::create_request(&identity, &onion, friend_code).unwrap();

    let other_identity = IdentityKeypair::generate().unwrap();
    request.from_onion = other_identity.to_onion_address();

    assert!(!FriendRequestHandler::validate_request(&request).unwrap());
}

#[test]
fn test_validate_request_rejects_stale_timestamp() {
    let identity = IdentityKeypair::generate().unwrap();
    let onion = identity.to_onion_address();
    let friend_code = "happy-1234-tiger-5678";

    let mut request = FriendRequestHandler::create_request(&identity, &onion, friend_code).unwrap();
    request.timestamp -= 600;

    assert!(!FriendRequestHandler::validate_request(&request).unwrap());
}

#[test]
fn test_validate_request_rejects_malformed_signature() {
    let identity = IdentityKeypair::generate().unwrap();
    let onion = identity.to_onion_address();
    let friend_code = "happy-1234-tiger-5678";

    let mut request = FriendRequestHandler::create_request(&identity, &onion, friend_code).unwrap();
    request.signature = "not-valid-base64!!!".to_string();

    assert!(!FriendRequestHandler::validate_request(&request).unwrap());
}

#[test]
fn freshness_window_is_five_minutes_either_way() {
    let identity = IdentityKeypair::generate().unwrap();
    let onion = identity.to_onion_address();
    let request = FriendRequestHandler::create_request(&identity, &onion, "code").unwrap();
    let t = request.timestamp;
    assert!(FriendRequestHandler::validate_request_at(&request, t + 300));
    assert!(FriendRequestHandler::validate_request_at(&request, t - 300));
    assert!(!FriendRequestHandler::validate_request_at(&request, t + 301));
    assert!(!FriendRequestHandler::validate_request_at(&request, t - 301));
}

#[test]
fn extreme_timestamp_is_refused() {
    let identity = IdentityKeypair::generate().unwrap();
    let onion = identity.to_onion_address();
    let mut request = FriendRequestHandler::create_request(&identity, &onion, "code").unwrap();
    request.timestamp = i64::MIN;
    assert!(!FriendRequestHandler::validate_request(&request).unwrap());
}

fn invalid_point() -> [u8; 32] {
    (0u8..=255)
        .map(|b| {
            let mut k = [0u8; 32];
            k[0] = b;
            k[31] = 0x7f;
            k
        })
        .find(|k| ed25519_dalek::VerifyingKey::from_bytes(k).is_err())
        .unwrap()
}

#[test]
fn accept_signed_by_identity_verifies() {
    let identity = IdentityKeypair::generate().unwrap();
    let accept = create_accept(&identity, "bob.onion", "alice.onion", "{}".to_string(), 1_700_000_000);
    assert_eq!(accept.from_onion, "bob.onion");
    assert_eq!(accept.to_onion, "alice.onion");
    assert_eq!(accept.signal_prekey_bundle, "{}");
    let key = identity.public_key_base64();
    assert!(verify_accept(&accept, Some(&key)).is_ok());
    // The key to store for the friend is the one the accept announced.
    assert_eq!(verify_accept(&accept, Some(&key)).unwrap(), identity.public_key());
}

#[test]
fn tampered_accept_is_refused() {
    let identity = IdentityKeypair::generate().unwrap();
    let mut accept = create_accept(&identity, "bob.onion", "alice.onion", String::new(), 10);
    accept.timestamp = 11;
    let err = verify_accept(&accept, Some(&identity.public_key_base64())).unwrap_err();
    assert_eq!(err.to_string(), "Crypto error: Accept message from bob.onion has invalid Ed25519 signature");

    let other = IdentityKeypair::generate().unwrap();
    accept.timestamp = 10;
    let err = verify_accept(&accept, Some(&other.public_key_base64())).unwrap_err();
    assert_eq!(err.to_string(), "Crypto error: Accept message from bob.onion has invalid Ed25519 signature");
}

#[test]
fn accept_without_key_is_refused() {
    let identity = IdentityKeypair::generate().unwrap();
    let accept = create_accept(&identity, "bob.onion", "alice.onion", String::new(), 10);
    let err = verify_accept(&accept, None).unwrap_err();
    assert_eq!(err.to_string(), "Crypto error: Accept message from bob.onion missing Ed25519 pubkey, rejecting");
}

#[test]
fn accept_key_and_signature_must_decode_to_the_right_length() {
    let identity = IdentityKeypair::generate().unwrap();
    let mut accept = create_accept(&identity, "bob.onion", "alice.onion", String::new(), 10);
    let err = verify_accept(&accept, Some("***")).unwrap_err();
    assert!(err.to_string().starts_with("Crypto error: Failed to decode accept pubkey: "));
    let err = verify_accept(&accept, Some(&base64_encode(&[1u8; 31]))).unwrap_err();
    assert_eq!(err.to_string(), "Crypto error: Accept pubkey has wrong length");

    let key = identity.public_key_base64();
    accept.signature = base64_encode(&[0u8; 63]);
    let err = verify_accept(&accept, Some(&key)).unwrap_err();
    assert_eq!(err.to_string(), "Crypto error: Accept signature has wrong length");
    accept.signature = "%%".to_string();
    let err = verify_accept(&accept, Some(&key)).unwrap_err();
    assert!(err.to_string().starts_with("Crypto error: Failed to decode accept signature: "));
}

#[test]
fn accept_key_off_the_curve_is_refused() {
    let identity = IdentityKeypair::generate().unwrap();
    let accept = create_accept(&identity, "bob.onion", "alice.onion", String::new(), 10);
    let err = verify_accept(&accept, Some(&base64_encode(&invalid_point()))).unwrap_err();
    assert_eq!(err.to_string(), "Crypto error: Invalid Ed25519 pubkey in accept");
}
