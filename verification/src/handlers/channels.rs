//! Publishing channel posts, and channel synchronisation requests.

use vstd::prelude::*;

use crate::db::queries::ChannelSubscription;
use vstd::utf8::encode_utf8;

use crate::codec::{base64_decoding, base64_encode, base64_encoding};
use crate::crypto::ed25519::{ed25519_accepts, ed25519_signature};
use crate::crypto::identity::IdentityKeypair;
use crate::protocol::friend_code::onion_of;
use crate::protocol::message::{
    lemma_signed_post_verifies, post_signature_valid, post_signed_text, ChannelPostMessage,
    ChannelSyncRequestMessage, ChannelType, Message,
};
use crate::text::{str_equals, str_to_string};

verus! {

/// The channel type a subscription's stored type names: `public`, else
/// friends-only.
pub open spec fn channel_type_of(stored: Seq<char>) -> ChannelType {
    if stored == "public"@ {
        ChannelType::Public
    } else {
        ChannelType::FriendsOnly
    }
}

/// `req` asks the publisher of `sub`, on behalf of `own_onion`, for the
/// posts of that channel since the last synchronisation (or since the start).
pub open spec fn is_sync_request_for(req: (String, Message), sub: ChannelSubscription, own_onion: Seq<char>) -> bool {
    &&& req.0@ == sub.publisher_onion@
    &&& req.1 matches Message::ChannelSyncRequest(m) && {
        &&& m.subscriber_onion@ == own_onion
        &&& m.channel_type == channel_type_of(sub.channel_type@)
        &&& m.since_timestamp == match sub.last_sync_at {
            Some(t) => t,
            None => 0,
        }
    }
}

/// One sync request per subscription, addressed to its publisher.
pub fn sync_requests(subscriptions: &Vec<ChannelSubscription>, own_onion: &str) -> (r: Vec<(String, Message)>)
    ensures
        r@.len() == subscriptions@.len(),
        forall|i: int| 0 <= i < r@.len() ==> is_sync_request_for(#[trigger] r@[i], subscriptions@[i], own_onion@),
{
    let mut requests: Vec<(String, Message)> = Vec::new();
    let mut i: usize = 0;
    while i < subscriptions.len()
        invariant
            i <= subscriptions@.len(),
            requests@.len() == i,
            forall|k: int| 0 <= k < i ==> is_sync_request_for(#[trigger] requests@[k], subscriptions@[k], own_onion@),
        decreases subscriptions@.len() - i,
    {
        let sub = &subscriptions[i];
        let since = match sub.last_sync_at {
            Some(t) => t,
            None => 0,
        };
        let channel_type = if str_equals(sub.channel_type.as_str(), "public") {
            ChannelType::Public
        } else {
            ChannelType::FriendsOnly
        };
        let sync_req = Message::ChannelSyncRequest(ChannelSyncRequestMessage {
            subscriber_onion: str_to_string(own_onion),
            channel_type,
            since_timestamp: since,
        });
        requests.push((sub.publisher_onion.clone(), sync_req));
        i = i + 1;
    }
    requests
}

/// The local channel a post is published to: 1 for `public`, 2 for
/// `friends_only`; any other name is not a channel.
pub fn publish_channel(channel: &str) -> (r: Option<i64>)
    ensures
        r == if channel@ == "public"@ {
            Some(1i64)
        } else if channel@ == "friends_only"@ {
            Some(2i64)
        } else {
            None
        },
{
    if str_equals(channel, "public") {
        Some(1)
    } else if str_equals(channel, "friends_only") {
        Some(2)
    } else {
        None
    }
}

/// A new post by `identity` from `own_onion` on the channel named
/// `channel`, created at `now` with id `post_id`, signed over
/// `post_id || content || created_at`. Sent from the identity's own
/// address, the post passes `verify_signature`.
pub fn publish_post(
    identity: &IdentityKeypair,
    own_onion: &str,
    channel: &str,
    content: String,
    now: i64,
    post_id: u128,
) -> (r: ChannelPostMessage)
    ensures
        r.publisher_onion@ == own_onion@,
        r.channel_type == channel_type_of(channel@),
        r.post_id == post_id,
        r.content@ == content@,
        r.created_at == now,
        r.signature@ == base64_encoding(
            ed25519_signature(identity.secret_bytes(), encode_utf8(post_signed_text(r)))@,
        ),
        own_onion@ == onion_of(identity.public_bytes()) ==> post_signature_valid(r),
{
    let channel_type = if str_equals(channel, "public") {
        ChannelType::Public
    } else {
        ChannelType::FriendsOnly
    };
    let mut post = ChannelPostMessage {
        publisher_onion: str_to_string(own_onion),
        channel_type,
        post_id,
        content,
        created_at: now,
        signature: String::new(),
    };
    let data = post.signed_data();
    let sig = identity.sign(data.as_str().as_bytes());
    post.signature = base64_encode(&sig);
    proof {
        if own_onion@ == onion_of(identity.public_bytes()) {
            let pk = crate::crypto::ed25519::ed25519_public_key(identity.secret_bytes());
            lemma_signed_post_verifies(post, pk, sig@);
        }
    }
    post
}

} // verus!
