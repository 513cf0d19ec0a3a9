use base64::Engine;
use chattor::crypto::session_manager::{
    decode_ciphertext, decrypt_incoming, encrypt_for, establish_from_accept, handshake_keys,
    handshake_plaintext, create_accept_bundle, open_first_message, wire_text_message,
};
use chattor::protocol::message::{SignalMessageType, TextMessage, X3DHInitData};

fn base64_encode(data: &[u8]) -> String {
    base64::engine::general_purpose::STANDARD.encode(data)
}

fn text_message(header: &[u8], ciphertext: &[u8], init: Option<X3DHInitData>) -> TextMessage {
    TextMessage {
        from_onion: "alice.onion".to_string(),
        to_onion: "bob.onion".to_string(),
        signal_header: base64_encode(header),
        signal_ciphertext: base64_encode(ciphertext),
        signal_type: if init.is_some() { SignalMessageType::PrekeyMessage } else { SignalMessageType::Message },
        timestamp: 0,
        message_id: 1,
        x3dh_init: init,
    }
}

#[test]
fn handshake_payload_is_compact_json() {
    assert_eq!(
        handshake_plaintext(1_700_000_000),
        br#"{"content":"","sent_at":1700000000,"message_type":"handshake"}"#.to_vec()
    );
    assert_eq!(
        handshake_plaintext(-5),
        br#"{"content":"","sent_at":-5,"message_type":"handshake"}"#.to_vec()
    );
}

#[test]
fn test_full_handshake_through_facade() {
    // 1. Bob accepts: generates a bundle and keeps his material.
    let (bundle, material, _secret) = create_accept_bundle().unwrap();
    assert!(bundle.verify_signature().unwrap());

    // 2. Alice receives the accept bundle: establishes a session + handshake.
    let (alice, handshake) = establish_from_accept("bob.onion", &bundle, None, 42).unwrap();
    assert!(handshake.is_prekey);
    assert!(handshake.x3dh_init.is_some());
    assert!(!alice.is_first_message());

    // 3. Bob receives the handshake PreKey message: establishes his session
    //    from his material and gets the handshake payload.
    let hs_msg = text_message(&handshake.header, &handshake.ciphertext, handshake.x3dh_init.clone());
    let (bob, payload) = decrypt_incoming(None, Some(&material), &hs_msg).unwrap().unwrap();
    assert_eq!(payload, handshake_plaintext(42));
    assert_eq!(bob.associated_data(), alice.associated_data());

    // 4. Messaging now works without X3DH data.
    let (_alice, oc) = encrypt_for(Some(alice), b"hello bob").unwrap().unwrap();
    assert!(!oc.is_prekey);
    assert!(oc.x3dh_init.is_none());
    let msg = text_message(&oc.header, &oc.ciphertext, None);
    let (_bob, got) = decrypt_incoming(Some(bob), None, &msg).unwrap().unwrap();
    assert_eq!(got, b"hello bob");
}

#[test]
fn test_encrypt_for_no_session_returns_none() {
    assert!(encrypt_for(None, b"hi").unwrap().is_none());
}

#[test]
fn test_decrypt_incoming_no_session_not_prekey_returns_none() {
    let msg = TextMessage {
        from_onion: "stranger.onion".to_string(),
        to_onion: "me.onion".to_string(),
        signal_header: base64_encode(&[1u8, 2, 3]),
        signal_ciphertext: base64_encode(&[4u8, 5, 6]),
        signal_type: SignalMessageType::Message,
        timestamp: 0,
        message_id: 9,
        x3dh_init: None,
    };
    assert!(decrypt_incoming(None, None, &msg).unwrap().is_none());
}

#[test]
fn opening_a_handshake_by_hand_matches_the_facade() {
    let (bundle, material, _secret) = create_accept_bundle().unwrap();
    let (alice, out) = establish_from_accept("bob.onion", &bundle, None, 42).unwrap();
    let msg = text_message(&out.header, &out.ciphertext, out.x3dh_init.clone());
    let (header, ciphertext) = decode_ciphertext(&msg).unwrap();
    assert_eq!(header, out.header);
    let keys = handshake_keys(&msg).unwrap();
    let (bob, plaintext) =
        open_first_message("alice.onion", &keys, Some(&material), &header, &ciphertext).unwrap();
    assert_eq!(plaintext, handshake_plaintext(42));
    assert_eq!(bob.associated_data(), alice.associated_data());
}

#[test]
fn stored_identity_is_the_one_sent() {
    let (bundle, _, _) = create_accept_bundle().unwrap();
    let kp = libsignal_dezire::vxeddsa::gen_keypair();
    let (_, out) = establish_from_accept("bob.onion", &bundle, Some(kp.secret), 1).unwrap();
    assert_eq!(out.x3dh_init.unwrap().sender_identity_key, base64_encode(&kp.public));
}

#[test]
fn forged_bundle_is_refused() {
    let (mut bundle, _, _) = create_accept_bundle().unwrap();
    bundle.signed_prekey.public_key[3] ^= 0x10;
    let err = establish_from_accept("bob.onion", &bundle, None, 1).err().unwrap();
    assert_eq!(err.to_string(), "Crypto error: PreKeyBundle from bob.onion has invalid VXEdDSA signature");
}

#[test]
fn malformed_bundle_is_refused_by_its_length_check() {
    let (mut bundle, _, _) = create_accept_bundle().unwrap();
    bundle.identity_key.pop();
    let err = establish_from_accept("bob.onion", &bundle, None, 1).err().unwrap();
    assert_eq!(err.to_string(), "Crypto error: Invalid identity key length");
}

#[test]
fn bad_base64_header_is_reported() {
    let mut msg = text_message(b"h", b"c", None);
    msg.signal_header = "!!!!".to_string();
    let expected = base64::Engine::decode(&base64::engine::general_purpose::STANDARD, "!!!!")
        .unwrap_err()
        .to_string();
    let err = decode_ciphertext(&msg).unwrap_err();
    assert_eq!(err.to_string(), format!("Crypto error: Failed to decode header: {}", expected));
}

#[test]
fn bad_base64_ciphertext_is_reported() {
    let mut msg = text_message(b"h", b"c", None);
    msg.signal_ciphertext = "abc".to_string();
    let err = decode_ciphertext(&msg).unwrap_err();
    assert!(err.to_string().starts_with("Crypto error: Failed to decode ciphertext: "));
}

#[test]
fn prekey_message_without_x3dh_data_is_refused() {
    let msg = text_message(b"h", b"c", None);
    let err = handshake_keys(&msg).unwrap_err();
    assert_eq!(err.to_string(), "Crypto error: PreKey message from alice.onion missing X3DH init data");
}

#[test]
fn handshake_keys_must_be_33_bytes() {
    let init = X3DHInitData {
        sender_identity_key: base64_encode(&[5u8; 32]),
        sender_ephemeral_key: base64_encode(&[5u8; 33]),
    };
    let msg = text_message(b"h", b"c", Some(init));
    let err = handshake_keys(&msg).unwrap_err();
    assert_eq!(err.to_string(), "Crypto error: Sender identity key has wrong length (expected 33)");

    let init = X3DHInitData {
        sender_identity_key: base64_encode(&[5u8; 33]),
        sender_ephemeral_key: "not base64".to_string(),
    };
    let msg = text_message(b"h", b"c", Some(init));
    let err = handshake_keys(&msg).unwrap_err();
    assert!(err.to_string().starts_with("Crypto error: Failed to decode sender ephemeral key: "));
}

#[test]
fn first_message_needs_stored_material() {
    let keys = ([5u8; 33], [5u8; 33]);
    let err = open_first_message("alice.onion", &keys, None, b"h", b"c").err().unwrap();
    assert_eq!(err.to_string(), "Crypto error: No stored PreKey material for alice.onion");
}

#[test]
fn wire_message_round_trips_through_decoding() {
    let (bundle, material, _) = create_accept_bundle().unwrap();
    let (_alice, out) = establish_from_accept("bob.onion", &bundle, None, 7).unwrap();
    let header = out.header.clone();
    let ciphertext = out.ciphertext.clone();
    let msg = wire_text_message("alice.onion", "bob.onion", out, 7, 99);
    assert_eq!(msg.signal_type, SignalMessageType::PrekeyMessage);
    assert_eq!(msg.message_id, 99);
    assert_eq!(msg.timestamp, 7);
    assert_eq!(decode_ciphertext(&msg).unwrap(), (header.clone(), ciphertext.clone()));
    let keys = handshake_keys(&msg).unwrap();
    let (_bob, plaintext) =
        open_first_message("alice.onion", &keys, Some(&material), &header, &ciphertext).unwrap();
    assert_eq!(plaintext, handshake_plaintext(7));
}
