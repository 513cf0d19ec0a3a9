use base64::Engine;
use chattor::crypto::session_manager::{encrypt_for, wire_text_message};
use chattor::crypto::signal::{EncodedPreKeyBundle, PreKeyBundle, PreKeyPrivateMaterial, SignalSession};

/// Helper: generate an X25519 Signal identity keypair for tests.
fn gen_signal_identity() -> ([u8; 32], [u8; 32]) {
    let kp = libsignal_dezire::vxeddsa::gen_keypair();
    let raw_pub = libsignal_dezire::utils::decode_public_key(&kp.public).unwrap();
    (kp.secret, raw_pub)
}

/// Helper: the encoded bundle as the X3DH module of `libsignal-dezire` takes it.
fn outside_bundle(b: &EncodedPreKeyBundle) -> libsignal_dezire::x3dh::PreKeyBundle {
    libsignal_dezire::x3dh::PreKeyBundle {
        identity_key: b.identity_key,
        signed_prekey: libsignal_dezire::x3dh::SignedPreKey {
            id: b.signed_prekey.id,
            public_key: b.signed_prekey.public_key,
            signature: b.signed_prekey.signature,
        },
        one_time_prekey: b.one_time_prekey.map(|o| libsignal_dezire::x3dh::OneTimePreKey {
            id: o.id,
            public_key: o.public_key,
        }),
    }
}

/// Helper: set up a complete Alice-Bob session pair using real X3DH + Double Ratchet.
fn setup_session_pair() -> (SignalSession, SignalSession) {
    let (alice_signal_secret, _alice_signal_public) = gen_signal_identity();
    let (bob_signal_secret, bob_signal_public) = gen_signal_identity();

    let (bob_bundle, bob_private) =
        PreKeyBundle::generate_real(&bob_signal_secret, &bob_signal_public).unwrap();

    let (alice_session, _ad, ephemeral_public) = SignalSession::from_prekey_bundle_real(
        "bob.onion".into(),
        &bob_bundle,
        &bob_private,
        &alice_signal_secret,
    )
    .unwrap();

    let alice_identity_encoded = libsignal_dezire::vxeddsa::gen_pubkey(&alice_signal_secret);
    let (bob_session, _bob_ad) = SignalSession::from_prekey_message_real(
        "alice.onion".into(),
        &bob_private,
        &alice_identity_encoded,
        &ephemeral_public,
    )
    .unwrap();

    (alice_session, bob_session)
}

#[test]
fn test_generate_prekey_bundle() {
    let bundle = PreKeyBundle::generate().unwrap();

    assert!(!bundle.identity_key.is_empty());
    assert!(bundle.signed_prekey.key_id > 0);
    assert!(!bundle.signed_prekey.public_key.is_empty());
    assert!(!bundle.signed_prekey.signature.is_empty());
    assert!(bundle.prekey.is_some());
}

#[test]
fn test_generate_real_prekey_bundle() {
    let (signal_secret, signal_public) = gen_signal_identity();
    let (bundle, private_material) =
        PreKeyBundle::generate_real(&signal_secret, &signal_public).unwrap();

    assert_eq!(bundle.identity_key.len(), 32);
    assert_eq!(bundle.signed_prekey.public_key.len(), 32);
    assert_eq!(bundle.signed_prekey.signature.len(), 96);
    assert!(bundle.prekey.is_some());
    assert_eq!(bundle.prekey.as_ref().unwrap().public_key.len(), 32);

    assert_eq!(private_material.identity_secret.len(), 32);
    assert_eq!(private_material.signed_prekey_secret.len(), 32);
    assert!(private_material.prekey_secret.is_some());
    assert_eq!(private_material.prekey_secret.unwrap().len(), 32);
}

#[test]
fn test_vxeddsa_signature_roundtrip() {
    let (signal_secret, signal_public) = gen_signal_identity();
    let (bundle, _private_material) =
        PreKeyBundle::generate_real(&signal_secret, &signal_public).unwrap();

    assert!(bundle.verify_signature().unwrap(), "VXEdDSA signature should verify");
}

#[test]
fn test_vxeddsa_signature_rejects_tampered_key() {
    let (signal_secret, signal_public) = gen_signal_identity();
    let (mut bundle, _) = PreKeyBundle::generate_real(&signal_secret, &signal_public).unwrap();

    if let Some(byte) = bundle.signed_prekey.public_key.get_mut(0) {
        *byte ^= 0xFF;
    }

    assert!(!bundle.verify_signature().unwrap(), "Tampered bundle should fail verification");
}

#[test]
fn test_vxeddsa_signature_rejects_wrong_identity() {
    let (signal_secret, signal_public) = gen_signal_identity();
    let (mut bundle, _) = PreKeyBundle::generate_real(&signal_secret, &signal_public).unwrap();

    let (_, other_public) = gen_signal_identity();
    bundle.identity_key = other_public.to_vec();

    assert!(!bundle.verify_signature().unwrap(), "Wrong identity key should fail verification");
}

#[test]
fn test_to_libsignal_bundle_conversion() {
    let (signal_secret, signal_public) = gen_signal_identity();
    let (bundle, _) = PreKeyBundle::generate_real(&signal_secret, &signal_public).unwrap();

    let libsignal_bundle = bundle.to_libsignal_bundle().unwrap();

    assert_eq!(libsignal_bundle.identity_key[0], 0x05);
    assert_eq!(libsignal_bundle.identity_key.len(), 33);

    assert_eq!(libsignal_bundle.signed_prekey.public_key[0], 0x05);
    assert_eq!(libsignal_bundle.signed_prekey.public_key.len(), 33);

    assert_eq!(libsignal_bundle.signed_prekey.signature.len(), 96);

    assert!(libsignal_bundle.one_time_prekey.is_some());
    let otpk = libsignal_bundle.one_time_prekey.unwrap();
    assert_eq!(otpk.public_key[0], 0x05);
    assert_eq!(otpk.public_key.len(), 33);
}

#[test]
fn test_libsignal_bundle_x3dh_initiator_accepts() {
    let (bob_signal_secret, bob_signal_public) = gen_signal_identity();
    let (bob_bundle, _bob_private) =
        PreKeyBundle::generate_real(&bob_signal_secret, &bob_signal_public).unwrap();

    let libsignal_bundle = outside_bundle(&bob_bundle.to_libsignal_bundle().unwrap());

    let (alice_secret, _alice_public) = gen_signal_identity();
    let result = libsignal_dezire::x3dh::x3dh_initiator(&alice_secret, &libsignal_bundle);
    assert!(
        result.is_ok(),
        "X3DH initiator should succeed with a valid bundle: {:?}",
        result.err()
    );
}

#[test]
fn test_libsignal_x3dh_shared_secret_matches() {
    let (bob_signal_secret, bob_signal_public) = gen_signal_identity();
    let (bob_bundle, bob_private) =
        PreKeyBundle::generate_real(&bob_signal_secret, &bob_signal_public).unwrap();

    let libsignal_bundle = outside_bundle(&bob_bundle.to_libsignal_bundle().unwrap());

    let (alice_secret, _alice_public) = gen_signal_identity();
    let alice_result =
        libsignal_dezire::x3dh::x3dh_initiator(&alice_secret, &libsignal_bundle).unwrap();

    let alice_pub_encoded = libsignal_dezire::vxeddsa::gen_pubkey(&alice_secret);

    let bob_result = libsignal_dezire::x3dh::x3dh_responder(
        &bob_private.identity_secret,
        &bob_private.signed_prekey_secret,
        bob_private.prekey_secret.as_ref(),
        &alice_pub_encoded,
        &alice_result.ephemeral_public,
    );
    assert!(bob_result.is_ok(), "X3DH responder should succeed: {:?}", bob_result.err());

    assert_eq!(alice_result.shared_secret, bob_result.unwrap());
}

#[test]
fn test_real_session_encrypt_decrypt_roundtrip() {
    let (mut alice, mut bob) = setup_session_pair();

    let plaintext = b"Hello Bob!";
    let (header, ciphertext, is_prekey) = alice.encrypt(plaintext).unwrap();

    assert!(is_prekey, "First message should be PreKey type");
    assert_ne!(ciphertext, plaintext, "Ciphertext should differ from plaintext");

    let decrypted = bob.decrypt(&header, &ciphertext).unwrap();
    assert_eq!(decrypted, plaintext);
}

#[test]
fn test_bidirectional_messaging() {
    let (mut alice, mut bob) = setup_session_pair();

    let (h1, c1, _) = alice.encrypt(b"Hello Bob!").unwrap();
    let d1 = bob.decrypt(&h1, &c1).unwrap();
    assert_eq!(d1, b"Hello Bob!");

    let (h2, c2, _) = bob.encrypt(b"Hello Alice!").unwrap();
    let d2 = alice.decrypt(&h2, &c2).unwrap();
    assert_eq!(d2, b"Hello Alice!");

    let (h3, c3, is_prekey) = alice.encrypt(b"How are you?").unwrap();
    assert!(!is_prekey, "Not first message anymore");
    let d3 = bob.decrypt(&h3, &c3).unwrap();
    assert_eq!(d3, b"How are you?");
}

#[test]
fn test_multiple_messages_same_direction() {
    let (mut alice, mut bob) = setup_session_pair();

    let (h1, c1, _) = alice.encrypt(b"Message 1").unwrap();
    let (h2, c2, _) = alice.encrypt(b"Message 2").unwrap();
    let (h3, c3, _) = alice.encrypt(b"Message 3").unwrap();

    assert_eq!(bob.decrypt(&h1, &c1).unwrap(), b"Message 1");
    assert_eq!(bob.decrypt(&h2, &c2).unwrap(), b"Message 2");
    assert_eq!(bob.decrypt(&h3, &c3).unwrap(), b"Message 3");
}

#[test]
fn test_out_of_order_messages() {
    let (mut alice, mut bob) = setup_session_pair();

    let (h1, c1, _) = alice.encrypt(b"Message 1").unwrap();
    let (h2, c2, _) = alice.encrypt(b"Message 2").unwrap();
    let (h3, c3, _) = alice.encrypt(b"Message 3").unwrap();

    assert_eq!(bob.decrypt(&h1, &c1).unwrap(), b"Message 1");
    assert_eq!(bob.decrypt(&h3, &c3).unwrap(), b"Message 3");
    assert_eq!(bob.decrypt(&h2, &c2).unwrap(), b"Message 2");
}

#[test]
fn test_tampered_ciphertext_rejected() {
    let (mut alice, mut bob) = setup_session_pair();

    let (header, mut ciphertext, _) = alice.encrypt(b"Secret message").unwrap();

    if !ciphertext.is_empty() {
        ciphertext[0] ^= 0xFF;
    }

    let result = bob.decrypt(&header, &ciphertext);
    assert!(result.is_err(), "Tampered ciphertext should fail decryption");
}

#[test]
fn test_tampered_header_rejected() {
    let (mut alice, mut bob) = setup_session_pair();

    let (mut header, ciphertext, _) = alice.encrypt(b"Secret message").unwrap();

    if !header.is_empty() {
        header[0] ^= 0xFF;
    }

    let result = bob.decrypt(&header, &ciphertext);
    assert!(result.is_err(), "Tampered header should fail decryption");
}

#[test]
fn test_replay_detection() {
    let (mut alice, mut bob) = setup_session_pair();

    let (header, ciphertext, _) = alice.encrypt(b"Once only").unwrap();

    let d1 = bob.decrypt(&header, &ciphertext).unwrap();
    assert_eq!(d1, b"Once only");

    let result = bob.decrypt(&header, &ciphertext);
    assert!(result.is_err(), "Replayed message should be rejected");
}

#[test]
fn test_is_first_message_flag() {
    let (mut alice, _bob) = setup_session_pair();

    let (_, _, first) = alice.encrypt(b"First").unwrap();
    assert!(first, "First encrypt should set is_first_message=true");

    let (_, _, second) = alice.encrypt(b"Second").unwrap();
    assert!(!second, "Second encrypt should set is_first_message=false");
}

#[test]
fn test_associated_data_consistency() {
    let (alice, bob) = setup_session_pair();

    assert_eq!(alice.associated_data().len(), 66);
    assert_eq!(bob.associated_data().len(), 66);

    assert_eq!(
        alice.associated_data(),
        bob.associated_data(),
        "Both sides should compute identical associated data"
    );
}

#[test]
fn test_ephemeral_public_available_on_initiator() {
    let (alice_signal_secret, _) = gen_signal_identity();
    let (bob_signal_secret, bob_signal_public) = gen_signal_identity();
    let (bob_bundle, bob_private) =
        PreKeyBundle::generate_real(&bob_signal_secret, &bob_signal_public).unwrap();

    let (session, _, eph) = SignalSession::from_prekey_bundle_real(
        "bob.onion".into(),
        &bob_bundle,
        &bob_private,
        &alice_signal_secret,
    )
    .unwrap();

    assert_eq!(eph.len(), 33);
    assert_eq!(eph[0], 0x05);

    assert!(session.ephemeral_public().is_some());
}

// --- further cases -----------------------------------------------------------

fn sample_bundle() -> PreKeyBundle {
    let (secret, public) = gen_signal_identity();
    PreKeyBundle::generate_real(&secret, &public).unwrap().0
}

#[test]
fn encoding_prefixes_each_raw_key() {
    let bundle = sample_bundle();
    let enc = bundle.to_libsignal_bundle().unwrap();
    assert_eq!(&enc.identity_key[1..], &bundle.identity_key[..]);
    assert_eq!(&enc.signed_prekey.public_key[1..], &bundle.signed_prekey.public_key[..]);
    assert_eq!(&enc.signed_prekey.signature[..], &bundle.signed_prekey.signature[..]);
    assert_eq!(enc.signed_prekey.id, 1);
    assert_eq!(enc.one_time_prekey.unwrap().id, 1);
}

#[test]
fn bundle_with_short_identity_key_is_refused() {
    let mut bundle = sample_bundle();
    bundle.identity_key.truncate(31);
    let err = bundle.to_libsignal_bundle().unwrap_err();
    assert_eq!(err.to_string(), "Crypto error: Invalid identity key length: expected 32, got 31");
    let err = bundle.verify_signature().unwrap_err();
    assert_eq!(err.to_string(), "Crypto error: Invalid identity key length");
}

#[test]
fn bundle_with_long_signed_prekey_is_refused() {
    let mut bundle = sample_bundle();
    bundle.signed_prekey.public_key.push(0);
    let err = bundle.to_libsignal_bundle().unwrap_err();
    assert_eq!(err.to_string(), "Crypto error: Invalid signed prekey length: expected 32, got 33");
    let err = bundle.verify_signature().unwrap_err();
    assert_eq!(err.to_string(), "Crypto error: Invalid signed prekey length");
}

#[test]
fn bundle_with_short_signature_is_refused() {
    let mut bundle = sample_bundle();
    bundle.signed_prekey.signature.truncate(64);
    let err = bundle.to_libsignal_bundle().unwrap_err();
    assert_eq!(err.to_string(), "Crypto error: Invalid signature length: expected 96, got 64");
    let err = bundle.verify_signature().unwrap_err();
    assert_eq!(err.to_string(), "Crypto error: Invalid signature length");
}

#[test]
fn bundle_with_bad_one_time_prekey_is_refused() {
    let mut bundle = sample_bundle();
    bundle.prekey.as_mut().unwrap().public_key.clear();
    let err = bundle.to_libsignal_bundle().unwrap_err();
    assert_eq!(err.to_string(), "Crypto error: Invalid prekey length: expected 32, got 0");
    // The signature check does not look at the one-time prekey.
    assert!(bundle.verify_signature().unwrap());
}

#[test]
fn bundle_without_one_time_prekey_encodes() {
    let mut bundle = sample_bundle();
    bundle.prekey = None;
    assert!(bundle.to_libsignal_bundle().unwrap().one_time_prekey.is_none());
}

#[test]
fn initiator_refuses_forged_bundle() {
    let mut bundle = sample_bundle();
    bundle.signed_prekey.signature[40] ^= 1;
    let (alice_secret, _) = gen_signal_identity();
    let material = PreKeyPrivateMaterial {
        identity_secret: [0u8; 32],
        signed_prekey_secret: [0u8; 32],
        prekey_secret: None,
    };
    let err = SignalSession::from_prekey_bundle_real("bob.onion".into(), &bundle, &material, &alice_secret)
        .err()
        .unwrap();
    assert!(err.to_string().starts_with("Crypto error: X3DH initiator failed: "));
}

#[test]
fn associated_data_is_alice_then_bob() {
    let (alice_secret, _) = gen_signal_identity();
    let (bob_secret, bob_public) = gen_signal_identity();
    let (bundle, material) = PreKeyBundle::generate_real(&bob_secret, &bob_public).unwrap();
    let (session, ad, _) =
        SignalSession::from_prekey_bundle_real("bob.onion".into(), &bundle, &material, &alice_secret)
            .unwrap();
    assert_eq!(&ad[..33], &libsignal_dezire::vxeddsa::gen_pubkey(&alice_secret)[..]);
    assert_eq!(ad[33], 0x05);
    assert_eq!(&ad[34..], &bob_public[..]);
    assert_eq!(session.associated_data(), &ad[..]);
    assert!(session.is_first_message());
}

#[test]
fn responder_session_has_no_ephemeral_and_no_first_message() {
    let (_, bob) = setup_session_pair();
    assert!(bob.ephemeral_public().is_none());
    assert!(!bob.is_first_message());
    assert_eq!(bob.remote_onion, "alice.onion");
}

#[test]
fn responder_refuses_bad_alice_key() {
    let (bob_secret, bob_public) = gen_signal_identity();
    let (_, material) = PreKeyBundle::generate_real(&bob_secret, &bob_public).unwrap();
    let bad = [0u8; 33];
    let err = SignalSession::from_prekey_message_real("alice.onion".into(), &material, &bad, &bad)
        .err()
        .unwrap();
    assert!(err.to_string().starts_with("Crypto error: X3DH responder failed: "));
}

#[test]
fn stored_session_needs_a_33_byte_ephemeral_key() {
    let (alice, _) = setup_session_pair();
    let ad = alice.associated_data().to_vec();
    let state_bytes = serde_json::to_vec(alice.ratchet_state()).unwrap();

    let state: libsignal_dezire::ratchet::RatchetState = serde_json::from_slice(&state_bytes).unwrap();
    let err = SignalSession::from_stored("bob.onion".into(), state, ad.clone(), false, Some(vec![5u8; 32]))
        .err()
        .unwrap();
    assert_eq!(err.to_string(), "Crypto error: Invalid ephemeral_public length");

    let state: libsignal_dezire::ratchet::RatchetState = serde_json::from_slice(&state_bytes).unwrap();
    let restored =
        SignalSession::from_stored("bob.onion".into(), state, ad.clone(), true, Some(vec![5u8; 33])).unwrap();
    assert!(restored.is_first_message());
    assert_eq!(restored.associated_data(), &ad[..]);
    assert_eq!(restored.ephemeral_public(), Some(&[5u8; 33]));
}

#[test]
fn private_material_debug_is_redacted() {
    let with = PreKeyPrivateMaterial {
        identity_secret: [7u8; 32],
        signed_prekey_secret: [8u8; 32],
        prekey_secret: Some([9u8; 32]),
    };
    assert_eq!(
        with.redacted_debug(),
        "PreKeyPrivateMaterial { identity_secret: \"[REDACTED]\", signed_prekey_secret: \"[REDACTED]\", prekey_secret: Some(\"[REDACTED]\") }"
    );
    let without = PreKeyPrivateMaterial { prekey_secret: None, ..with };
    assert!(without.redacted_debug().ends_with("prekey_secret: None }"));
}

/// A text payload as its JSON bytes.
fn text_payload(content: &str, sent_at: i64) -> Vec<u8> {
    format!(
        "{{\"content\":\"{}\",\"sent_at\":{},\"message_type\":\"text\"}}",
        content, sent_at
    )
    .into_bytes()
}

fn payload_content(bytes: &[u8]) -> (String, i64) {
    let v: serde_json::Value = serde_json::from_slice(bytes).unwrap();
    (
        v["content"].as_str().unwrap().to_string(),
        v["sent_at"].as_i64().unwrap(),
    )
}

#[test]
fn test_decrypt_message() {
    let (mut alice_session, mut bob_session) = setup_session_pair();
    let (header, ciphertext, _is_prekey) = alice_session.encrypt(&text_payload("Hello!", 12345)).unwrap();
    let decrypted = bob_session.decrypt(&header, &ciphertext).unwrap();
    assert_eq!(payload_content(&decrypted).0, "Hello!");
}

#[test]
fn test_send_delivery_receipt() {
    let message_id: u128 = 0x0123_4567_89ab_cdef_0123_4567_89ab_cdef;
    let receipt = chattor::handlers::messaging::create_delivery_receipt(message_id);
    assert_eq!(receipt.message_id, message_id);
    assert!(receipt.timestamp > 0);
}

#[test]
fn test_encrypt_decrypt_roundtrip_real_signal() {
    let (mut alice_session, mut bob_session) = setup_session_pair();
    let plaintext_content = "Hello Bob from Alice!";
    let (header, ciphertext, is_prekey) =
        alice_session.encrypt(&text_payload(plaintext_content, 12345)).unwrap();
    assert!(is_prekey); // First message should be PreKey type
    let decrypted = bob_session.decrypt(&header, &ciphertext).unwrap();
    assert_eq!(payload_content(&decrypted), (plaintext_content.to_string(), 12345));
}

#[test]
fn test_regular_message_after_prekey() {
    let (mut alice_session, mut bob_session) = setup_session_pair();
    let (h1, c1, is_prekey1) = alice_session.encrypt(&text_payload("First message", 12345)).unwrap();
    assert!(is_prekey1);
    bob_session.decrypt(&h1, &c1).unwrap();

    let plaintext_content = "Second message";
    let (h2, c2, is_prekey2) = alice_session.encrypt(&text_payload(plaintext_content, 12346)).unwrap();
    assert!(!is_prekey2); // Second message should NOT be PreKey type
    let decrypted = bob_session.decrypt(&h2, &c2).unwrap();
    assert_eq!(payload_content(&decrypted).0, plaintext_content);
}

#[test]
fn test_prepare_message_with_real_signal() {
    let (alice_session, _bob_session) = setup_session_pair();
    let (_alice, out) = encrypt_for(Some(alice_session), &text_payload("Hello Bob!", 1)).unwrap().unwrap();
    let message = wire_text_message("alice.onion", "bob.onion", out, 1, 7);

    // 1. Ciphertext should not contain plaintext
    assert!(!message.signal_ciphertext.contains("Hello Bob!"));
    // 2. Decoded, it is not the plaintext bytes
    let decoded_ciphertext = base64::engine::general_purpose::STANDARD.decode(&message.signal_ciphertext).unwrap();
    assert_ne!(decoded_ciphertext, b"Hello Bob!");
    // 3. Longer than the plaintext due to encryption overhead
    assert!(decoded_ciphertext.len() > 12);
    // 4. PreKey message type for the first message
    assert_eq!(message.signal_type, chattor::protocol::message::SignalMessageType::PrekeyMessage);
}

/// A u-coordinate with no Edwards point (on the twist), which libsignal-dezire
/// would `expect` a point from.
fn twist_u() -> [u8; 32] {
    for b in 2u8..=255 {
        let mut u = [0u8; 32];
        u[0] = b;
        if curve25519_dalek::montgomery::MontgomeryPoint(u).to_edwards(0).is_none() {
            return u;
        }
    }
    panic!("no twist point found");
}

#[test]
fn keys_off_the_curve_are_refused_not_panicked_on() {
    let u = twist_u();
    let (secret, public) = gen_signal_identity();
    let (mut bundle, material) = PreKeyBundle::generate_real(&secret, &public).unwrap();
    assert!(bundle.verify_signature().unwrap());

    // A bundle whose identity key has no Edwards point does not verify.
    bundle.identity_key = u.to_vec();
    assert_eq!(bundle.verify_signature().unwrap(), false);
    let err = SignalSession::from_prekey_bundle_real("bob.onion".into(), &bundle, &material, &secret)
        .err()
        .unwrap();
    assert!(err.to_string().contains("X3DH initiator failed: InvalidKey"), "{}", err.to_string());

    // A PreKey message whose keys have no Edwards point is refused.
    let mut bad = [5u8; 33];
    bad[1..].copy_from_slice(&u);
    let err = SignalSession::from_prekey_message_real("alice.onion".into(), &material, &bad, &bad)
        .err()
        .unwrap();
    assert!(err.to_string().contains("X3DH responder failed: InvalidKey"), "{}", err.to_string());
}
