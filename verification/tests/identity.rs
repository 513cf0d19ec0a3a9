use chattor::crypto::identity::IdentityKeypair;
use chattor::protocol::friend_code::onion_to_pubkey;

#[test]
fn test_generate_identity_keypair() {
    let keypair = IdentityKeypair::generate();
    assert!(keypair.is_ok());
}

#[test]
fn test_sign_and_verify() {
    let keypair = IdentityKeypair::generate().unwrap();
    let message = b"Hello, Tor!";

    let signature = keypair.sign(message);
    let result = keypair.verify(message, &signature);

    assert!(result.is_ok());
}

#[test]
fn test_verify_invalid_signature() {
    let keypair = IdentityKeypair::generate().unwrap();
    let message = b"Hello, Tor!";
    let wrong_message = b"Wrong message";

    let signature = keypair.sign(message);
    let result = keypair.verify(wrong_message, &signature);

    assert!(result.is_err());
}

#[test]
fn test_from_signing_key() {
    let original = IdentityKeypair::generate().unwrap();
    let onion1 = original.to_onion_address();

    let key_bytes = original.to_bytes();
    let restored = IdentityKeypair::from_bytes(&key_bytes).unwrap();
    let onion2 = restored.to_onion_address();

    assert_eq!(onion1, onion2);
}

#[test]
fn from_bytes_rejects_wrong_length() {
    let e = IdentityKeypair::from_bytes(&[1u8; 31]).err().unwrap();
    assert_eq!(e.to_string(), "Crypto error: Invalid identity key length");
}

#[test]
fn onion_address_carries_public_key() {
    let keypair = IdentityKeypair::generate().unwrap();
    let onion = keypair.to_onion_address();
    assert_eq!(onion_to_pubkey(&onion).unwrap(), keypair.public_key());
}

#[test]
fn known_secret_gives_known_public_key() {
    // RFC 8032, test 1.
    let secret: [u8; 32] = [
        0x9d, 0x61, 0xb1, 0x9d, 0xef, 0xfd, 0x5a, 0x60, 0xba, 0x84, 0x4a, 0xf4, 0x92, 0xec, 0x2c, 0xc4,
        0x44, 0x49, 0xc5, 0x69, 0x7b, 0x32, 0x69, 0x19, 0x70, 0x3b, 0xac, 0x03, 0x1c, 0xae, 0x7f, 0x60,
    ];
    let public: [u8; 32] = [
        0xd7, 0x5a, 0x98, 0x01, 0x82, 0xb1, 0x0a, 0xb7, 0xd5, 0x4b, 0xfe, 0xd3, 0xc9, 0x64, 0x07, 0x3a,
        0x0e, 0xe1, 0x72, 0xf3, 0xda, 0xa6, 0x23, 0x25, 0xaf, 0x02, 0x1a, 0x68, 0xf7, 0x07, 0x51, 0x1a,
    ];
    let keypair = IdentityKeypair::from_signing_key(secret);
    assert_eq!(keypair.public_key(), public);
    assert_eq!(keypair.secret_key(), secret);
}
