use base64::Engine;
use chattor::crypto::identity::IdentityKeypair;
use chattor::net::framing::{check_version, encode_frame, frame_payload_len};
use chattor::protocol::message::{
    ChannelPostMessage, ChannelType, DeliveryReceiptMessage, FriendRequestMessage, Message,
    MessageEnvelope, PresenceMessage, PresenceType, PROTOCOL_VERSION,
};

fn base64_encode(data: &[u8]) -> String {
    base64::engine::general_purpose::STANDARD.encode(data)
}

fn sign_post(identity: &IdentityKeypair, post: &mut ChannelPostMessage) {
    let data = post.signed_data();
    post.signature = base64_encode(&identity.sign(data.as_bytes()));
}

fn new_id() -> u128 {
    uuid::Uuid::new_v4().as_u128()
}

#[test]
fn test_channel_post_signature_verifies_real_publisher() {
    let identity = IdentityKeypair::generate().unwrap();
    let mut post = ChannelPostMessage {
        publisher_onion: identity.to_onion_address(),
        channel_type: ChannelType::Public,
        post_id: new_id(),
        content: "Hello!".into(),
        created_at: 1_700_000_000,
        signature: String::new(),
    };
    sign_post(&identity, &mut post);

    assert!(post.verify_signature(), "Genuine signature should verify");
}

#[test]
fn test_channel_post_signature_rejects_publisher_spoof() {
    let alice = IdentityKeypair::generate().unwrap();
    let bob = IdentityKeypair::generate().unwrap();

    let mut post = ChannelPostMessage {
        publisher_onion: alice.to_onion_address(),
        channel_type: ChannelType::Public,
        post_id: new_id(),
        content: "I am Bob, trust me".into(),
        created_at: 1_700_000_000,
        signature: String::new(),
    };
    sign_post(&alice, &mut post);
    post.publisher_onion = bob.to_onion_address();

    assert!(!post.verify_signature(), "Spoofed publisher_onion must not verify");
}

#[test]
fn test_channel_post_signature_rejects_tampered_content() {
    let identity = IdentityKeypair::generate().unwrap();
    let mut post = ChannelPostMessage {
        publisher_onion: identity.to_onion_address(),
        channel_type: ChannelType::Public,
        post_id: new_id(),
        content: "original".into(),
        created_at: 1_700_000_000,
        signature: String::new(),
    };
    sign_post(&identity, &mut post);
    post.content = "tampered".into();

    assert!(!post.verify_signature(), "Tampered content must invalidate signature");
}

#[test]
fn test_channel_post_signature_rejects_malformed_signature() {
    let identity = IdentityKeypair::generate().unwrap();
    let post = ChannelPostMessage {
        publisher_onion: identity.to_onion_address(),
        channel_type: ChannelType::Public,
        post_id: new_id(),
        content: "hello".into(),
        created_at: 1_700_000_000,
        signature: "not-base64!!!".into(),
    };
    assert!(!post.verify_signature(), "Garbage signature must not verify");
}

#[test]
fn signed_data_matches_uuid_text() {
    let id = 0x0123_4567_89ab_cdef_0011_2233_4455_6677u128;
    let post = ChannelPostMessage {
        publisher_onion: "x.onion".into(),
        channel_type: ChannelType::FriendsOnly,
        post_id: id,
        content: "hi".into(),
        created_at: -42,
        signature: String::new(),
    };
    assert_eq!(post.signed_data(), "01234567-89ab-cdef-0011-223344556677hi-42");
    assert_eq!(post.signed_data(), format!("{}{}{}", uuid::Uuid::from_u128(id), "hi", -42));
}

#[test]
fn test_message_envelope_serialization_roundtrip() {
    let inner = Message::FriendRequest(FriendRequestMessage {
        from_onion: "alice.onion".to_string(),
        from_friendcode: "happy-1234-tiger-5678".to_string(),
        timestamp: 1234567890,
        signature: "sig123".to_string(),
    });
    let envelope = MessageEnvelope::new(inner.clone());
    assert_eq!(envelope.version, PROTOCOL_VERSION);
    assert_eq!(envelope.payload, inner);
}

#[test]
fn sender_of_messages() {
    let m = Message::Presence(PresenceMessage {
        from_onion: "peer.onion".into(),
        presence_type: PresenceType::Heartbeat,
        timestamp: 1,
    });
    assert_eq!(m.sender_onion(), Some("peer.onion"));
    let r = Message::DeliveryReceipt(DeliveryReceiptMessage { message_id: 1, timestamp: 2 });
    assert_eq!(r.sender_onion(), None);
}

#[test]
fn frames_round_trip() {
    let frame = encode_frame(b"{\"a\":1}").unwrap();
    assert_eq!(&frame[..4], &[0, 0, 0, 7]);
    let prefix = [frame[0], frame[1], frame[2], frame[3]];
    assert_eq!(frame_payload_len(prefix).unwrap(), 7);
    assert_eq!(&frame[4..], b"{\"a\":1}");
}

#[test]
fn oversized_frames_are_refused() {
    let e = frame_payload_len([0x00, 0x98, 0x96, 0x81]).unwrap_err();
    assert_eq!(e.to_string(), "Network error: Message too large");
    assert_eq!(frame_payload_len([0x00, 0x98, 0x96, 0x80]).unwrap(), 10_000_000);
}

#[test]
fn test_receive_rejects_unsupported_version() {
    let env = MessageEnvelope {
        version: 99,
        payload: Message::Presence(PresenceMessage {
            from_onion: "test.onion".into(),
            presence_type: PresenceType::Heartbeat,
            timestamp: 1000,
        }),
    };
    let err_msg = check_version(env).unwrap_err().to_string();
    assert!(err_msg.contains("Unsupported protocol version 99"));
    assert_eq!(err_msg, "Network error: Unsupported protocol version 99 (expected 2)");
}
