//! The messages peers exchange, and the checks made on them.
//!
//! Message identifiers are UUIDs held as their 128-bit big-endian value.

use vstd::prelude::*;
use vstd::utf8::encode_utf8;

use crate::codec::{base64_decode, base64_decoding, is_b64_char, lemma_base64_rejects, uuid_text, uuid_to_text};
use crate::crypto::ed25519::{ed25519_accepts, ed25519_verify};
use crate::protocol::friend_code::{lemma_onion_roundtrip, onion_of, onion_to_pubkey, pubkey_of_onion};
use crate::text::{push_signed_decimal, signed_decimal};

verus! {

/// Current protocol version. Bumped whenever the wire format changes in a
/// backward-incompatible way.
pub const PROTOCOL_VERSION: u8 = 2;

/// Versioned envelope that wraps every `Message` on the wire.
#[derive(Debug, Clone, PartialEq)]
pub struct MessageEnvelope {
    pub version: u8,
    pub payload: Message,
}

impl MessageEnvelope {
    /// Create a new envelope stamped with the current protocol version.
    pub fn new(payload: Message) -> (r: Self)
        ensures
            r.version == PROTOCOL_VERSION,
            r.payload == payload,
    {
        MessageEnvelope { version: PROTOCOL_VERSION, payload }
    }
}

#[derive(Debug, Clone, PartialEq)]
pub enum Message {
    FriendRequest(FriendRequestMessage),
    FriendRequestAccept(FriendRequestAcceptMessage),
    FriendRequestReject(FriendRequestRejectMessage),
    TextMessage(TextMessage),
    DeliveryReceipt(DeliveryReceiptMessage),
    ReadReceipt(DeliveryReceiptMessage),
    ChannelSubscribe(ChannelSubscribeMessage),
    ChannelUnsubscribe(ChannelUnsubscribeMessage),
    ChannelPost(ChannelPostMessage),
    ChannelSyncRequest(ChannelSyncRequestMessage),
    ChannelSyncResponse(ChannelSyncResponseMessage),
    ChannelPostReceipt(ChannelPostReceiptMessage),
    Presence(PresenceMessage),
}

#[derive(Debug, Clone, PartialEq)]
pub struct FriendRequestMessage {
    pub from_onion: String,
    pub from_friendcode: String,
    pub timestamp: i64,
    /// base64 Ed25519 signature
    pub signature: String,
}

#[derive(Debug, Clone, PartialEq)]
pub struct FriendRequestAcceptMessage {
    pub from_onion: String,
    pub to_onion: String,
    /// Serialized PreKey bundle
    pub signal_prekey_bundle: String,
    pub timestamp: i64,
    pub signature: String,
}

#[derive(Debug, Clone, PartialEq)]
pub struct FriendRequestRejectMessage {
    pub from_onion: String,
    pub to_onion: String,
    pub timestamp: i64,
}

#[derive(Debug, Clone, PartialEq)]
pub struct TextMessage {
    pub from_onion: String,
    pub to_onion: String,
    /// base64-encoded encrypted Double Ratchet header
    pub signal_header: String,
    /// base64 encrypted payload
    pub signal_ciphertext: String,
    pub signal_type: SignalMessageType,
    pub timestamp: i64,
    pub message_id: u128,
    /// X3DH initiator data, only present on PreKey messages
    pub x3dh_init: Option<X3DHInitData>,
}

/// X3DH key exchange initiator data, sent with the first (PreKey) message.
#[derive(Debug, Clone, PartialEq)]
pub struct X3DHInitData {
    /// base64-encoded 33-byte (0x05-prefixed) X25519 identity public key
    pub sender_identity_key: String,
    /// base64-encoded 33-byte (0x05-prefixed) X25519 ephemeral public key
    pub sender_ephemeral_key: String,
}

#[derive(Debug, Clone, PartialEq, Eq)]
pub enum SignalMessageType {
    PrekeyMessage,
    Message,
}

#[derive(Debug, Clone, PartialEq)]
pub struct DeliveryReceiptMessage {
    pub message_id: u128,
    pub timestamp: i64,
}

/// Plaintext payload before encryption
#[derive(Debug, Clone, PartialEq)]
pub struct PlaintextPayload {
    pub content: String,
    pub sent_at: i64,
    /// "text", "typing_indicator", etc.
    pub message_type: String,
    /// seconds until deletion after read
    pub ephemeral_ttl: Option<i64>,
}

#[derive(Debug, Clone, PartialEq, Eq)]
pub enum ChannelType {
    Public,
    FriendsOnly,
}

#[derive(Debug, Clone, PartialEq)]
pub struct ChannelPostMessage {
    pub publisher_onion: String,
    pub channel_type: ChannelType,
    pub post_id: u128,
    pub content: String,
    pub created_at: i64,
    pub signature: String,
}

#[derive(Debug, Clone, PartialEq)]
pub struct ChannelSubscribeMessage {
    pub subscriber_onion: String,
    pub channel_type: ChannelType,
    pub timestamp: i64,
}

#[derive(Debug, Clone, PartialEq)]
pub struct ChannelUnsubscribeMessage {
    pub subscriber_onion: String,
    pub channel_type: ChannelType,
    pub timestamp: i64,
}

#[derive(Debug, Clone, PartialEq)]
pub struct ChannelSyncRequestMessage {
    pub subscriber_onion: String,
    pub channel_type: ChannelType,
    pub since_timestamp: i64,
}

#[derive(Debug, Clone, PartialEq)]
pub struct ChannelSyncResponseMessage {
    pub publisher_onion: String,
    pub channel_type: ChannelType,
    pub posts: Vec<ChannelPostMessage>,
}

#[derive(Debug, Clone, PartialEq)]
pub struct ChannelPostReceiptMessage {
    pub post_id: u128,
    pub reader_onion: String,
    pub timestamp: i64,
}

/// Type of presence update
#[derive(Debug, Clone, PartialEq, Eq)]
pub enum PresenceType {
    Heartbeat,
    TypingStarted,
    TypingStopped,
}

/// Lightweight presence message (not encrypted; Tor provides transport security)
#[derive(Debug, Clone, PartialEq)]
pub struct PresenceMessage {
    pub from_onion: String,
    pub presence_type: PresenceType,
    pub timestamp: i64,
}

/// The peer a message claims to come from, for the messages that name one.
/// Receipts name no sender.
pub open spec fn sender_of(m: Message) -> Option<Seq<char>> {
    match m {
        Message::FriendRequest(r) => Some(r.from_onion@),
        Message::FriendRequestAccept(a) => Some(a.from_onion@),
        Message::TextMessage(t) => Some(t.from_onion@),
        Message::Presence(p) => Some(p.from_onion@),
        Message::ChannelSubscribe(s) => Some(s.subscriber_onion@),
        Message::ChannelUnsubscribe(u) => Some(u.subscriber_onion@),
        Message::ChannelPost(p) => Some(p.publisher_onion@),
        Message::ChannelSyncRequest(r) => Some(r.subscriber_onion@),
        Message::ChannelSyncResponse(r) => Some(r.publisher_onion@),
        Message::ChannelPostReceipt(r) => Some(r.reader_onion@),
        _ => None,
    }
}

impl Message {
    /// The sender onion used to rate-limit an incoming message.
    pub fn sender_onion(&self) -> (r: Option<&str>)
        ensures
            match r {
                Some(s) => sender_of(*self) == Some(s@),
                None => sender_of(*self) is None,
            },
    {
        match self {
            Message::FriendRequest(req) => Some(req.from_onion.as_str()),
            Message::FriendRequestAccept(accept) => Some(accept.from_onion.as_str()),
            Message::TextMessage(msg) => Some(msg.from_onion.as_str()),
            Message::Presence(pres) => Some(pres.from_onion.as_str()),
            Message::ChannelSubscribe(sub) => Some(sub.subscriber_onion.as_str()),
            Message::ChannelUnsubscribe(unsub) => Some(unsub.subscriber_onion.as_str()),
            Message::ChannelPost(post) => Some(post.publisher_onion.as_str()),
            Message::ChannelSyncRequest(req) => Some(req.subscriber_onion.as_str()),
            Message::ChannelSyncResponse(resp) => Some(resp.publisher_onion.as_str()),
            Message::ChannelPostReceipt(receipt) => Some(receipt.reader_onion.as_str()),
            _ => None,
        }
    }
}

/// The text a post's publisher signs: post id, content, creation time.
pub open spec fn post_signed_text(post: ChannelPostMessage) -> Seq<char> {
    uuid_text(post.post_id) + post.content@ + signed_decimal(post.created_at as int)
}

/// Whether a post carries a valid signature by the key of its publisher's address.
pub open spec fn post_signature_valid(post: ChannelPostMessage) -> bool {
    match pubkey_of_onion(post.publisher_onion@) {
        Err(_) => false,
        Ok(pk) => match base64_decoding(post.signature@) {
            None => false,
            Some(sig) => sig.len() == 64 && ed25519_accepts(pk, encode_utf8(post_signed_text(post)), sig),
        },
    }
}

impl ChannelPostMessage {
    /// The text that was signed when this post was published.
    pub fn signed_data(&self) -> (r: String)
        ensures
            r@ == post_signed_text(*self),
    {
        let mut s = uuid_to_text(self.post_id);
        s.append(self.content.as_str());
        push_signed_decimal(&mut s, self.created_at);
        s
    }

    /// Verify the Ed25519 signature on this post against the publisher's
    /// v3 `.onion` address (which encodes their Ed25519 verifying key).
    /// Every decode or length failure yields `false`.
    pub fn verify_signature(&self) -> (ok: bool)
        ensures
            ok == post_signature_valid(*self),
    {
        let pubkey = match onion_to_pubkey(self.publisher_onion.as_str()) {
            Ok(b) => b,
            Err(_) => return false,
        };
        let sig_bytes = match base64_decode(self.signature.as_str()) {
            Ok(b) => b,
            Err(_) => return false,
        };
        if sig_bytes.len() != 64 {
            return false;
        }
        let mut sig = [0u8; 64];
        let mut i: usize = 0;
        while i < 64
            invariant
                sig_bytes@.len() == 64,
                i <= 64,
                forall|k: int| 0 <= k < i ==> sig@[k] == sig_bytes@[k],
            decreases 64 - i,
        {
            sig[i] = sig_bytes[i];
            i = i + 1;
        }
        assert(sig@ =~= sig_bytes@);
        let data = self.signed_data();
        ed25519_verify(&pubkey, data.as_str().as_bytes(), &sig).is_ok()
    }
}

/// A post whose signature text holds a character that is neither in the
/// base64 alphabet nor `=` does not verify (and checking it does not panic).
pub proof fn lemma_bad_signature_text_fails(post: ChannelPostMessage, k: int)
    requires
        0 <= k < post.signature@.len(),
        !is_b64_char(post.signature@[k]),
        post.signature@[k] != '=',
    ensures
        !post_signature_valid(post),
{
    lemma_base64_rejects(post.signature@, k);
}

/// What a post's signature covers: a post published under the address of a
/// key verifies once its signature text decodes to a signature, by that
/// key, of the post id (as UUID text), then the content, then the creation
/// time in decimal.
pub proof fn lemma_post_signature_covers(post: ChannelPostMessage, public: [u8; 32], sig: Seq<u8>)
    requires
        post.publisher_onion@ == onion_of(public@),
        base64_decoding(post.signature@) == Some(sig),
        sig.len() == 64,
        ed25519_accepts(
            public@,
            encode_utf8(uuid_text(post.post_id) + post.content@ + signed_decimal(post.created_at as int)),
            sig,
        ),
    ensures
        post_signature_valid(post),
{
    assert(post_signed_text(post) == uuid_text(post.post_id) + post.content@ + signed_decimal(post.created_at as int));
    lemma_onion_roundtrip(public@);
}

/// A post published under the address of a key verifies, once its
/// signature text decodes to a signature of the post by that key.
pub proof fn lemma_signed_post_verifies(post: ChannelPostMessage, public: [u8; 32], sig: Seq<u8>)
    requires
        post.publisher_onion@ == onion_of(public@),
        base64_decoding(post.signature@) == Some(sig),
        sig.len() == 64,
        ed25519_accepts(public@, encode_utf8(post_signed_text(post)), sig),
    ensures
        post_signature_valid(post),
{
    lemma_onion_roundtrip(public@);
}

} // verus!
