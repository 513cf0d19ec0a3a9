//! Decisions on incoming channel messages: which subscriptions are accepted,
//! what a synchronisation request is answered, and how far a
//! synchronisation response brings a subscription.

use vstd::prelude::*;

use crate::codec::{new_uuid, uuid_parse, uuid_parsing};
use crate::crypto::session_manager::now_secs;
use crate::db::queries::ChannelPost;
use crate::net::rate_limit::{buckets_after_check, check_allows, RateLimiter};
use crate::presence::{record_heartbeat, record_typing_started, record_typing_stopped, PeerPresence, PresenceMap};
use crate::crypto::primitives::{ratchet_after_encryption, ratchet_encryption};
use crate::crypto::session_manager::{encrypt_for, OutgoingCrypto};
use crate::crypto::signal::SignalSession;
use crate::daemon::rpc::RpcError;
use crate::protocol::friend_code::{friend_code_to_onion, onion_of_code};
use crate::protocol::friend_request::{request_authentic, request_fresh, FriendRequestHandler};
use crate::protocol::message::{
    sender_of, ChannelPostMessage, ChannelPostReceiptMessage, ChannelSubscribeMessage, ChannelSyncRequestMessage,
    ChannelSyncResponseMessage, ChannelType, DeliveryReceiptMessage, Message, PresenceMessage, PresenceType,
};
use crate::text::{ends_with, str_to_string};

verus! {

/// Whether an incoming message is handled at all, at `now` on the
/// limiter's clock: a message that names its sender passes only while that
/// sender's bucket has a token, and spends it; one that names no sender
/// passes and leaves the limiter as it was.
pub fn admit_incoming_at(limiter: &mut RateLimiter, msg: &Message, now: u128) -> (admitted: bool)
    requires
        old(limiter).wf(),
    ensures
        final(limiter).wf(),
        final(limiter).rate() == old(limiter).rate(),
        final(limiter).burst() == old(limiter).burst(),
        match sender_of(*msg) {
            Some(peer) => {
                &&& admitted == check_allows(old(limiter).buckets(), peer, now, old(limiter).rate(), old(limiter).burst())
                &&& final(limiter).buckets() == buckets_after_check(
                    old(limiter).buckets(),
                    peer,
                    now,
                    old(limiter).rate(),
                    old(limiter).burst(),
                )
            },
            None => admitted && final(limiter).buckets() == old(limiter).buckets(),
        },
{
    match msg.sender_onion() {
        Some(peer) => limiter.check_at(peer, now),
        None => true,
    }
}

/// Whether an incoming message is handled at all, read against the
/// limiter's clock now (a reading that no clause fixes).
pub fn admit_incoming(limiter: &mut RateLimiter, msg: &Message) -> (admitted: bool)
    requires
        old(limiter).wf(),
    ensures
        final(limiter).wf(),
        final(limiter).rate() == old(limiter).rate(),
        final(limiter).burst() == old(limiter).burst(),
        sender_of(*msg) matches Some(peer) ==> exists|now: u128|
            admitted == check_allows(old(limiter).buckets(), peer, now, old(limiter).rate(), old(limiter).burst())
            && final(limiter).buckets() == buckets_after_check(
                old(limiter).buckets(),
                peer,
                now,
                old(limiter).rate(),
                old(limiter).burst(),
            ),
        sender_of(*msg) is None ==> admitted && final(limiter).buckets() == old(limiter).buckets(),
{
    let now = limiter.clock();
    admit_incoming_at(limiter, msg, now)
}

/// The delivery receipt for a received message: its id, stamped with the
/// current time in seconds since the Unix epoch (a reading of the clock
/// that no clause fixes).
pub fn create_delivery_receipt(message_id: u128) -> (r: DeliveryReceiptMessage)
    ensures
        r.message_id == message_id,
{
    DeliveryReceiptMessage { message_id, timestamp: now_secs() }
}

/// Applies a presence message to the presence map: a heartbeat marks the
/// sender seen, typing started marks it seen and typing, typing stopped
/// clears its typing mark (and leaves a peer never heard from unknown).
pub fn apply_presence(map: &mut PresenceMap, pres: &PresenceMessage)
    requires
        old(map).wf(),
    ensures
        final(map).wf(),
        pres.presence_type !is TypingStopped ==> {
            &&& final(map).peers().dom() == old(map).peers().dom().insert(pres.from_onion@)
            &&& forall|k: Seq<char>|
                k != pres.from_onion@ && #[trigger] old(map).peers().contains_key(k) ==> final(map).peers()[k]
                    == old(map).peers()[k]
        },
        pres.presence_type is Heartbeat ==> final(map).peers()[pres.from_onion@].typing_started == (
        if old(map).peers().contains_key(pres.from_onion@) {
            old(map).peers()[pres.from_onion@].typing_started
        } else {
            None
        }),
        pres.presence_type is TypingStarted ==> final(map).peers()[pres.from_onion@].typing_started is Some,
        pres.presence_type is TypingStopped ==> final(map).peers() == if old(map).peers().contains_key(
            pres.from_onion@,
        ) {
            old(map).peers().insert(
                pres.from_onion@,
                PeerPresence { last_seen: old(map).peers()[pres.from_onion@].last_seen, typing_started: None },
            )
        } else {
            old(map).peers()
        },
{
    match pres.presence_type {
        PresenceType::Heartbeat => record_heartbeat(map, pres.from_onion.as_str()),
        PresenceType::TypingStarted => record_typing_started(map, pres.from_onion.as_str()),
        PresenceType::TypingStopped => record_typing_stopped(map, pres.from_onion.as_str()),
    }
}

/// The name under which a channel type is stored.
pub open spec fn channel_type_name(t: ChannelType) -> Seq<char> {
    match t {
        ChannelType::Public => "public"@,
        ChannelType::FriendsOnly => "friends_only"@,
    }
}

/// The stored name of a channel type.
pub fn channel_type_str(t: &ChannelType) -> (r: &'static str)
    ensures
        r@ == channel_type_name(*t),
{
    match t {
        ChannelType::Public => "public",
        ChannelType::FriendsOnly => "friends_only",
    }
}

/// The channel whose subscriber list a subscription request joins, if it
/// is accepted: never from a blocked onion, and to the friends-only
/// channel only from a friend.
pub fn accepted_subscription(sub: &ChannelSubscribeMessage, blocked: bool, is_friend: bool) -> (r: Option<
    &'static str,
>)
    ensures
        r is Some <==> (!blocked && (sub.channel_type is Public || is_friend)),
        r matches Some(name) ==> name@ == channel_type_name(sub.channel_type),
{
    if blocked {
        return None;
    }
    let name = channel_type_str(&sub.channel_type);
    match sub.channel_type {
        ChannelType::FriendsOnly => if !is_friend {
            return None;
        },
        ChannelType::Public => {},
    }
    Some(name)
}

/// The local channel whose posts answer a sync request: the public channel
/// (1) for anyone, the friends-only channel (2) only for a friend.
pub fn sync_channel(req: &ChannelSyncRequestMessage, is_friend: bool) -> (r: Option<i64>)
    ensures
        match req.channel_type {
            ChannelType::Public => r == Some(1i64),
            ChannelType::FriendsOnly => r == if is_friend { Some(2i64) } else { None },
        },
{
    match req.channel_type {
        ChannelType::Public => Some(1),
        ChannelType::FriendsOnly => if is_friend {
            Some(2)
        } else {
            None
        },
    }
}

/// `m` is stored post `p` sent by `publisher` on a channel of type `t`:
/// same content, time and signature, and the post id it stores (a fresh
/// one when the stored id does not parse).
pub open spec fn post_message_of(m: ChannelPostMessage, p: ChannelPost, publisher: Seq<char>, t: ChannelType) -> bool {
    &&& m.publisher_onion@ == publisher
    &&& m.channel_type == t
    &&& m.content@ == p.content@
    &&& m.created_at == p.created_at
    &&& m.signature@ == p.signature@
    &&& (uuid_parsing(p.post_id@) matches Some(id) ==> m.post_id == id)
}

/// The response to a sync request: our stored posts as post messages from
/// `own_onion`, or nothing when there are no posts to send.
pub fn sync_response(own_onion: &str, channel_type: &ChannelType, posts: Vec<ChannelPost>) -> (r: Option<Message>)
    ensures
        posts@.len() == 0 <==> r is None,
        r matches Some(msg) ==> msg matches Message::ChannelSyncResponse(resp) && {
            &&& resp.publisher_onion@ == own_onion@
            &&& resp.channel_type == *channel_type
            &&& resp.posts@.len() == posts@.len()
            &&& forall|i: int|
                0 <= i < posts@.len() ==> post_message_of(#[trigger] resp.posts@[i], posts@[i], own_onion@, *channel_type)
        },
{
    if posts.len() == 0 {
        return None;
    }
    let mut out: Vec<ChannelPostMessage> = Vec::new();
    let mut i: usize = 0;
    while i < posts.len()
        invariant
            i <= posts@.len(),
            out@.len() == i,
            forall|k: int| 0 <= k < i ==> post_message_of(#[trigger] out@[k], posts@[k], own_onion@, *channel_type),
        decreases posts@.len() - i,
    {
        let p = &posts[i];
        let post_id = match uuid_parse(p.post_id.as_str()) {
            Some(id) => id,
            None => new_uuid(),
        };
        let channel = match channel_type {
            ChannelType::Public => ChannelType::Public,
            ChannelType::FriendsOnly => ChannelType::FriendsOnly,
        };
        out.push(ChannelPostMessage {
            publisher_onion: str_to_string(own_onion),
            channel_type: channel,
            post_id,
            content: p.content.clone(),
            created_at: p.created_at,
            signature: p.signature.clone(),
        });
        i = i + 1;
    }
    let channel = match channel_type {
        ChannelType::Public => ChannelType::Public,
        ChannelType::FriendsOnly => ChannelType::FriendsOnly,
    };
    Some(
        Message::ChannelSyncResponse(
            ChannelSyncResponseMessage { publisher_onion: str_to_string(own_onion), channel_type: channel, posts: out },
        ),
    )
}

/// The newest creation time among posts, or 0 when there are none.
pub open spec fn newest_post_time(posts: Seq<ChannelPostMessage>) -> i64
    decreases posts.len(),
{
    if posts.len() == 0 {
        0
    } else {
        let rest = newest_post_time(posts.drop_last());
        if posts.len() == 1 || posts.last().created_at > rest {
            posts.last().created_at
        } else {
            rest
        }
    }
}

/// The newest creation time is the largest one: no post is newer, and
/// some post has it (0 when there are none).
pub proof fn lemma_newest_post_time_is_max(posts: Seq<ChannelPostMessage>)
    ensures
        forall|i: int| 0 <= i < posts.len() ==> #[trigger] posts[i].created_at <= newest_post_time(posts),
        posts.len() > 0 ==> exists|i: int| 0 <= i < posts.len() && #[trigger] posts[i].created_at == newest_post_time(posts),
        posts.len() == 0 ==> newest_post_time(posts) == 0,
    decreases posts.len(),
{
    if posts.len() > 0 {
        let rest = posts.drop_last();
        lemma_newest_post_time_is_max(rest);
        assert forall|i: int| 0 <= i < posts.len() implies #[trigger] posts[i].created_at <= newest_post_time(posts) by {
            if i < posts.len() - 1 {
                assert(posts[i] == rest[i]);
            }
        }
        if posts.len() == 1 || posts.last().created_at > newest_post_time(rest) {
            assert(posts[posts.len() - 1].created_at == newest_post_time(posts));
        } else {
            let j = choose|j: int| 0 <= j < rest.len() && #[trigger] rest[j].created_at == newest_post_time(rest);
            assert(posts[j] == rest[j]);
        }
    }
}

/// The sync time of a response is the newest post time: when it is `Some`,
/// no post of the response is newer and some post has exactly that time;
/// it is `None` exactly when every post is at or before the epoch.
pub proof fn lemma_sync_time_is_newest(resp: ChannelSyncResponseMessage, r: Option<i64>)
    requires
        r == if newest_post_time(resp.posts@) > 0 {
            Some(newest_post_time(resp.posts@))
        } else {
            None
        },
    ensures
        r matches Some(t) ==> (forall|i: int| 0 <= i < resp.posts@.len() ==> #[trigger] resp.posts@[i].created_at <= t)
            && (exists|i: int| 0 <= i < resp.posts@.len() && #[trigger] resp.posts@[i].created_at == t),
        r is None <==> (forall|i: int| 0 <= i < resp.posts@.len() ==> #[trigger] resp.posts@[i].created_at <= 0),
{
    lemma_newest_post_time_is_max(resp.posts@);
    if newest_post_time(resp.posts@) > 0 && resp.posts@.len() == 0 {
        assert(false);
    }
    if r is Some && resp.posts@.len() > 0 {
        let j = choose|j: int| 0 <= j < resp.posts@.len() && #[trigger] resp.posts@[j].created_at == newest_post_time(
            resp.posts@,
        );
        assert(resp.posts@[j].created_at > 0);
    }
}

/// How far a sync response brings the subscription: the newest post time,
/// when it is after the epoch.
pub fn sync_time(resp: &ChannelSyncResponseMessage) -> (r: Option<i64>)
    ensures
        r == if newest_post_time(resp.posts@) > 0 {
            Some(newest_post_time(resp.posts@))
        } else {
            None
        },
        r matches Some(t) ==> (forall|i: int| 0 <= i < resp.posts@.len() ==> #[trigger] resp.posts@[i].created_at <= t)
            && (exists|i: int| 0 <= i < resp.posts@.len() && #[trigger] resp.posts@[i].created_at == t),
        r is None <==> (forall|i: int| 0 <= i < resp.posts@.len() ==> #[trigger] resp.posts@[i].created_at <= 0),
{
    let mut newest: i64 = 0;
    let mut i: usize = 0;
    while i < resp.posts.len()
        invariant
            i <= resp.posts@.len(),
            newest == newest_post_time(resp.posts@.take(i as int)),
        decreases resp.posts@.len() - i,
    {
        let t = resp.posts[i].created_at;
        assert(resp.posts@.take(i + 1).drop_last() =~= resp.posts@.take(i as int));
        if i == 0 || t > newest {
            newest = t;
        }
        i = i + 1;
    }
    assert(resp.posts@.take(resp.posts@.len() as int) =~= resp.posts@);
    let r = if newest > 0 {
        Some(newest)
    } else {
        None
    };
    proof {
        lemma_sync_time_is_newest(*resp, r);
    }
    r
}

/// What the node knows about the sender of an incoming message when it
/// decides what to do with it.
pub struct IncomingFacts {
    /// The rate limiter let the message through (see `admit_incoming`).
    pub admitted: bool,
    /// The sender is on the block list.
    pub sender_blocked: bool,
    /// The sender is a friend.
    pub sender_is_friend: bool,
    /// Our own onion address (empty before Tor is up).
    pub own_onion: String,
}

/// What is done with an incoming message; the caller carries it out on its
/// stores and queue, with the message itself at hand.
#[derive(Debug)]
pub enum IncomingAction {
    /// Nothing: rate limited, or nothing to do.
    Ignore,
    /// A friend request that fails verification (forged or stale).
    Refused,
    /// Store the verified friend request as pending, received at this time.
    StoreFriendRequest { received_at: i64 },
    /// Verify the accept and establish the session (`verify_accept`,
    /// `establish_from_accept`).
    HandleAccept,
    /// Decrypt the text message (`decrypt_incoming`) and store it.
    DecryptText,
    /// Set the status of one of our sent messages.
    SetStatus { message_id: u128, status: &'static str },
    /// Add the sender to the subscribers of our channel of this type.
    AddSubscriber { channel: &'static str },
    /// Remove the sender from the subscribers of our channel of this type.
    RemoveSubscriber { channel: &'static str },
    /// Store the remote post and queue this read receipt to its publisher.
    StorePost { receipt: ChannelPostReceiptMessage },
    /// Answer the sync request with our posts of this local channel since
    /// the time it asks for (`sync_response`).
    AnswerSync { channel_id: i64 },
    /// Store the posts of the sync response and, when given, move the
    /// subscription's sync time forward to it.
    StoreSyncPosts { sync_time: Option<i64> },
    /// Store the read receipt of one of our posts.
    StoreReceipt,
    /// Apply the presence update (`apply_presence`).
    ApplyPresence,
}

/// The decision on an incoming message at `now` (seconds since the Unix
/// epoch): a message whose sender the rate limiter refused is dropped;
/// otherwise each kind of message gets its handling.
pub fn incoming_step(msg: &Message, facts: &IncomingFacts, now: i64) -> (r: IncomingAction)
    ensures
        sender_of(*msg) is Some && !facts.admitted ==> r is Ignore,
        sender_of(*msg) is None || facts.admitted ==> match *msg {
            Message::FriendRequest(req) => if request_fresh(req, now) && request_authentic(req) {
                r == (IncomingAction::StoreFriendRequest { received_at: now })
            } else {
                r is Refused
            },
            Message::FriendRequestAccept(_) => r is HandleAccept,
            Message::FriendRequestReject(_) => r is Ignore,
            Message::TextMessage(_) => r is DecryptText,
            Message::DeliveryReceipt(d) => r matches IncomingAction::SetStatus { message_id, status }
                && message_id == d.message_id && status@ == "delivered"@,
            Message::ReadReceipt(d) => r matches IncomingAction::SetStatus { message_id, status }
                && message_id == d.message_id && status@ == "read"@,
            Message::ChannelSubscribe(sub) => if !facts.sender_blocked && (sub.channel_type is Public
                || facts.sender_is_friend) {
                r matches IncomingAction::AddSubscriber { channel } && channel@ == channel_type_name(sub.channel_type)
            } else {
                r is Ignore
            },
            Message::ChannelUnsubscribe(u) => r matches IncomingAction::RemoveSubscriber { channel } && channel@
                == channel_type_name(u.channel_type),
            Message::ChannelPost(p) => r matches IncomingAction::StorePost { receipt } && receipt.post_id
                == p.post_id && receipt.reader_onion@ == facts.own_onion@ && receipt.timestamp == now,
            Message::ChannelSyncRequest(req) => match req.channel_type {
                ChannelType::Public => r == (IncomingAction::AnswerSync { channel_id: 1 }),
                ChannelType::FriendsOnly => if facts.sender_is_friend {
                    r == (IncomingAction::AnswerSync { channel_id: 2 })
                } else {
                    r is Ignore
                },
            },
            Message::ChannelSyncResponse(resp) => r == (IncomingAction::StoreSyncPosts {
                sync_time: if newest_post_time(resp.posts@) > 0 {
                    Some(newest_post_time(resp.posts@))
                } else {
                    None
                },
            }),
            Message::ChannelPostReceipt(_) => r is StoreReceipt,
            Message::Presence(_) => r is ApplyPresence,
        },
{
    if msg.sender_onion().is_some() && !facts.admitted {
        return IncomingAction::Ignore;
    }
    match msg {
        Message::FriendRequest(req) => {
            let in_range = if req.timestamp >= 0 {
                now >= i64::MIN + req.timestamp + 1
            } else {
                now <= i64::MAX + req.timestamp
            };
            if in_range && FriendRequestHandler::validate_request_at(req, now) {
                IncomingAction::StoreFriendRequest { received_at: now }
            } else {
                IncomingAction::Refused
            }
        },
        Message::FriendRequestAccept(_) => IncomingAction::HandleAccept,
        Message::FriendRequestReject(_) => IncomingAction::Ignore,
        Message::TextMessage(_) => IncomingAction::DecryptText,
        Message::DeliveryReceipt(d) => IncomingAction::SetStatus { message_id: d.message_id, status: "delivered" },
        Message::ReadReceipt(d) => IncomingAction::SetStatus { message_id: d.message_id, status: "read" },
        Message::ChannelSubscribe(sub) => match accepted_subscription(sub, facts.sender_blocked, facts.sender_is_friend) {
            Some(channel) => IncomingAction::AddSubscriber { channel },
            None => IncomingAction::Ignore,
        },
        Message::ChannelUnsubscribe(u) => IncomingAction::RemoveSubscriber { channel: channel_type_str(&u.channel_type) },
        Message::ChannelPost(p) => IncomingAction::StorePost {
            receipt: ChannelPostReceiptMessage {
                post_id: p.post_id,
                reader_onion: facts.own_onion.clone(),
                timestamp: now,
            },
        },
        Message::ChannelSyncRequest(req) => match sync_channel(req, facts.sender_is_friend) {
            Some(channel_id) => IncomingAction::AnswerSync { channel_id },
            None => IncomingAction::Ignore,
        },
        Message::ChannelSyncResponse(resp) => IncomingAction::StoreSyncPosts { sync_time: sync_time(resp) },
        Message::ChannelPostReceipt(_) => IncomingAction::StoreReceipt,
        Message::Presence(_) => IncomingAction::ApplyPresence,
    }
}

/// The address a send request names: an address ending in `.onion` as it
/// is, anything else decoded as a friend code.
pub open spec fn requested_peer(input: Seq<char>) -> Option<Seq<char>> {
    if ".onion"@.len() <= input.len() && input.skip(input.len() - ".onion"@.len()) == ".onion"@ {
        Some(input)
    } else {
        match onion_of_code(input) {
            Ok(o) => Some(o),
            Err(_) => None,
        }
    }
}

/// The decision on a request to send `plaintext` (the serialized payload)
/// to the peer that `peer_input` names. `is_friend` and `session` are what
/// the stores hold for that peer. Returns the peer's address, the session
/// to store and the encrypted fields of the message, or the JSON-RPC error
/// that answers the request.
pub fn send_decision(peer_input: &str, is_friend: bool, session: Option<SignalSession>, plaintext: &[u8]) -> (r: Result<
    (String, SignalSession, OutgoingCrypto),
    RpcError,
>)
    ensures
        requested_peer(peer_input@) is None ==> (r matches Err(e) && e.code == -32602 && e.message@
            == "Invalid peer address or friend code"@),
        requested_peer(peer_input@) matches Some(onion) ==> {
            &&& !is_friend ==> (r matches Err(e) && e.code == -32000 && e.message@ == "Peer is not a friend"@)
            &&& (is_friend && session is None) ==> (r matches Err(e) && e.code == -32000 && e.message@
                == "No encryption session with "@ + onion)
            &&& (is_friend && session is Some) ==> {
                let s = session->0;
                &&& r is Ok <==> ratchet_encryption(s.ratchet(), plaintext@, s.ad()) is Some
                &&& r matches Ok((peer, s2, out)) ==> {
                    &&& peer@ == onion
                    &&& s2.onion() == s.onion()
                    &&& s2.ad() == s.ad()
                    &&& !s2.first_pending()
                    &&& out.is_prekey == s.first_pending()
                    &&& out.x3dh_init is None
                    &&& ratchet_encryption(s.ratchet(), plaintext@, s.ad()) == Some((out.header@, out.ciphertext@))
                    &&& s2.ratchet() == ratchet_after_encryption(s.ratchet(), plaintext@, s.ad())
                }
                &&& r matches Err(e) ==> e.code == -32000 && "Encrypt error: "@.is_prefix_of(e.message@)
            }
        },
{
    let peer_onion = if ends_with(peer_input, ".onion") {
        str_to_string(peer_input)
    } else {
        match friend_code_to_onion(peer_input) {
            Ok(onion) => onion,
            Err(_) => {
                return Err(RpcError { code: -32602, message: str_to_string("Invalid peer address or friend code") });
            },
        }
    };
    if !is_friend {
        return Err(RpcError { code: -32000, message: str_to_string("Peer is not a friend") });
    }
    let has_session = session.is_some();
    if !has_session {
        let mut m = str_to_string("No encryption session with ");
        m.append(peer_onion.as_str());
        return Err(RpcError { code: -32000, message: m });
    }
    match encrypt_for(session, plaintext) {
        Ok(Some((s, out))) => Ok((peer_onion, s, out)),
        Ok(None) => {
            let mut m = str_to_string("No encryption session with ");
            m.append(peer_onion.as_str());
            Err(RpcError { code: -32000, message: m })
        },
        Err(e) => {
            let mut m = str_to_string("Encrypt error: ");
            let text = e.to_string();
            let ghost head = m@;
            m.append(text.as_str());
            assert(m@.subrange(0, head.len() as int) =~= head);
            Err(RpcError { code: -32000, message: m })
        },
    }
}

} // verus!
