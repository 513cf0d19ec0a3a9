//! JSON-RPC error objects and codes used by the daemon, and the methods it
//! serves.

use vstd::prelude::*;

use crate::text::{str_equals, str_to_string};

verus! {

/// Invalid JSON was received.
pub const PARSE_ERROR: i32 = -32700;

/// The method does not exist.
pub const METHOD_NOT_FOUND: i32 = -32601;

/// The error member of a JSON-RPC response.
#[derive(Debug, Clone)]
pub struct RpcError {
    pub code: i32,
    pub message: String,
}

/// The methods the daemon serves.
#[derive(Debug, Clone, Copy, PartialEq, Eq)]
pub enum RpcMethod {
    Status,
    Identity,
    FriendsList,
    FriendsAdd,
    FriendsRequests,
    FriendsAccept,
    FriendsReject,
    SendMessage,
    RecvMessages,
    ChannelsList,
    ChannelsPublish,
    ChannelsSubscribe,
    ChannelsFeed,
    EphemeralSet,
    NotificationsToggle,
}

/// The method a request names, if the daemon serves it.
pub open spec fn method_named(name: Seq<char>) -> Option<RpcMethod> {
    if name == "status"@ {
        Some(RpcMethod::Status)
    } else if name == "identity"@ {
        Some(RpcMethod::Identity)
    } else if name == "friends_list"@ {
        Some(RpcMethod::FriendsList)
    } else if name == "friends_add"@ {
        Some(RpcMethod::FriendsAdd)
    } else if name == "friends_requests"@ {
        Some(RpcMethod::FriendsRequests)
    } else if name == "friends_accept"@ {
        Some(RpcMethod::FriendsAccept)
    } else if name == "friends_reject"@ {
        Some(RpcMethod::FriendsReject)
    } else if name == "send_message"@ {
        Some(RpcMethod::SendMessage)
    } else if name == "recv_messages"@ {
        Some(RpcMethod::RecvMessages)
    } else if name == "channels_list"@ {
        Some(RpcMethod::ChannelsList)
    } else if name == "channels_publish"@ {
        Some(RpcMethod::ChannelsPublish)
    } else if name == "channels_subscribe"@ {
        Some(RpcMethod::ChannelsSubscribe)
    } else if name == "channels_feed"@ {
        Some(RpcMethod::ChannelsFeed)
    } else if name == "ephemeral_set"@ {
        Some(RpcMethod::EphemeralSet)
    } else if name == "notifications_toggle"@ {
        Some(RpcMethod::NotificationsToggle)
    } else {
        None
    }
}

/// The name under which the daemon serves each method.
pub open spec fn name_of_method(m: RpcMethod) -> Seq<char> {
    match m {
        RpcMethod::Status => "status"@,
        RpcMethod::Identity => "identity"@,
        RpcMethod::FriendsList => "friends_list"@,
        RpcMethod::FriendsAdd => "friends_add"@,
        RpcMethod::FriendsRequests => "friends_requests"@,
        RpcMethod::FriendsAccept => "friends_accept"@,
        RpcMethod::FriendsReject => "friends_reject"@,
        RpcMethod::SendMessage => "send_message"@,
        RpcMethod::RecvMessages => "recv_messages"@,
        RpcMethod::ChannelsList => "channels_list"@,
        RpcMethod::ChannelsPublish => "channels_publish"@,
        RpcMethod::ChannelsSubscribe => "channels_subscribe"@,
        RpcMethod::ChannelsFeed => "channels_feed"@,
        RpcMethod::EphemeralSet => "ephemeral_set"@,
        RpcMethod::NotificationsToggle => "notifications_toggle"@,
    }
}

/// Routing goes by name: a request names a method exactly when the name is
/// that method's own, so every method is reached under its name and two
/// different names never reach the same method.
pub proof fn lemma_routing_by_name(name: Seq<char>, m: RpcMethod)
    ensures
        method_named(name) == Some(m) <==> name == name_of_method(m),
{
    reveal_strlit("status");
    reveal_strlit("identity");
    reveal_strlit("friends_list");
    reveal_strlit("friends_add");
    reveal_strlit("friends_requests");
    reveal_strlit("friends_accept");
    reveal_strlit("friends_reject");
    reveal_strlit("send_message");
    reveal_strlit("recv_messages");
    reveal_strlit("channels_list");
    reveal_strlit("channels_publish");
    reveal_strlit("channels_subscribe");
    reveal_strlit("channels_feed");
    reveal_strlit("ephemeral_set");
    reveal_strlit("notifications_toggle");
    // Names of equal length differ at one of these places.
    assert("friends_list"@[0] != "send_message"@[0]);
    assert("recv_messages"@[0] != "channels_list"@[0]);
    assert("recv_messages"@[0] != "channels_feed"@[0]);
    assert("recv_messages"@[0] != "ephemeral_set"@[0]);
    assert("channels_list"@[9] != "channels_feed"@[9]);
    assert("channels_list"@[0] != "ephemeral_set"@[0]);
    assert("channels_feed"@[0] != "ephemeral_set"@[0]);
    assert("friends_accept"@[8] != "friends_reject"@[8]);
    assert("friends_requests"@[0] != "channels_publish"@[0]);
    assert("status"@.len() == 6);
    assert("identity"@.len() == 8);
    assert("friends_list"@.len() == 12);
    assert("friends_add"@.len() == 11);
    assert("friends_requests"@.len() == 16);
    assert("friends_accept"@.len() == 14);
    assert("friends_reject"@.len() == 14);
    assert("send_message"@.len() == 12);
    assert("recv_messages"@.len() == 13);
    assert("channels_list"@.len() == 13);
    assert("channels_publish"@.len() == 16);
    assert("channels_subscribe"@.len() == 18);
    assert("channels_feed"@.len() == 13);
    assert("ephemeral_set"@.len() == 13);
    assert("notifications_toggle"@.len() == 20);
    if name == name_of_method(m) {
        match m {
            RpcMethod::Status => assert(method_named(name) == Some(m)),
            RpcMethod::Identity => assert(method_named(name) == Some(m)),
            RpcMethod::FriendsList => assert(method_named(name) == Some(m)),
            RpcMethod::FriendsAdd => assert(method_named(name) == Some(m)),
            RpcMethod::FriendsRequests => assert(method_named(name) == Some(m)),
            RpcMethod::FriendsAccept => assert(method_named(name) == Some(m)),
            RpcMethod::FriendsReject => assert(method_named(name) == Some(m)),
            RpcMethod::SendMessage => assert(method_named(name) == Some(m)),
            RpcMethod::RecvMessages => assert(method_named(name) == Some(m)),
            RpcMethod::ChannelsList => assert(method_named(name) == Some(m)),
            RpcMethod::ChannelsPublish => assert(method_named(name) == Some(m)),
            RpcMethod::ChannelsSubscribe => assert(method_named(name) == Some(m)),
            RpcMethod::ChannelsFeed => assert(method_named(name) == Some(m)),
            RpcMethod::EphemeralSet => assert(method_named(name) == Some(m)),
            RpcMethod::NotificationsToggle => assert(method_named(name) == Some(m)),
        }
    }
}

/// Routing is one to one: two names that reach the same method are equal.
pub proof fn lemma_routing_injective(a: Seq<char>, b: Seq<char>)
    requires
        method_named(a) is Some,
        method_named(a) == method_named(b),
    ensures
        a == b,
{
    lemma_routing_by_name(a, method_named(a)->0);
    lemma_routing_by_name(b, method_named(a)->0);
}

/// The handler a request goes to, or the "method not found" error that
/// answers it.
pub fn route_method(name: &str) -> (r: Result<RpcMethod, RpcError>)
    ensures
        match method_named(name@) {
            Some(m) => r == Ok::<RpcMethod, RpcError>(m),
            None => r matches Err(e) && e.code == METHOD_NOT_FOUND && e.message@ == "Method not found: "@ + name@,
        },
        r matches Ok(m) ==> name_of_method(m) == name@,
{
    proof {
        if method_named(name@) is Some {
            lemma_routing_by_name(name@, method_named(name@)->0);
        }
    }
    if str_equals(name, "status") {
        Ok(RpcMethod::Status)
    } else if str_equals(name, "identity") {
        Ok(RpcMethod::Identity)
    } else if str_equals(name, "friends_list") {
        Ok(RpcMethod::FriendsList)
    } else if str_equals(name, "friends_add") {
        Ok(RpcMethod::FriendsAdd)
    } else if str_equals(name, "friends_requests") {
        Ok(RpcMethod::FriendsRequests)
    } else if str_equals(name, "friends_accept") {
        Ok(RpcMethod::FriendsAccept)
    } else if str_equals(name, "friends_reject") {
        Ok(RpcMethod::FriendsReject)
    } else if str_equals(name, "send_message") {
        Ok(RpcMethod::SendMessage)
    } else if str_equals(name, "recv_messages") {
        Ok(RpcMethod::RecvMessages)
    } else if str_equals(name, "channels_list") {
        Ok(RpcMethod::ChannelsList)
    } else if str_equals(name, "channels_publish") {
        Ok(RpcMethod::ChannelsPublish)
    } else if str_equals(name, "channels_subscribe") {
        Ok(RpcMethod::ChannelsSubscribe)
    } else if str_equals(name, "channels_feed") {
        Ok(RpcMethod::ChannelsFeed)
    } else if str_equals(name, "ephemeral_set") {
        Ok(RpcMethod::EphemeralSet)
    } else if str_equals(name, "notifications_toggle") {
        Ok(RpcMethod::NotificationsToggle)
    } else {
        let mut message = str_to_string("Method not found: ");
        message.append(name);
        Err(RpcError { code: METHOD_NOT_FOUND, message })
    }
}

} // verus!
