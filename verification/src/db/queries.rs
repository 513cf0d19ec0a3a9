//! Records read from the database for display.

use vstd::prelude::*;

use crate::ui::text::{ellipsized, truncate_with_ellipsis};

pub mod channels;
pub mod friends;

verus! {

/// A friend entry for the sidebar
#[derive(Debug, Clone)]
pub struct FriendEntry {
    pub friend_id: i64,
    pub onion_address: String,
    pub display_name: Option<String>,
    pub conversation_id: Option<i64>,
    pub unread_count: i64,
}

/// The width, in characters, an address is shortened to in the sidebar.
pub const SIDEBAR_ADDRESS_WIDTH: usize = 13;

impl FriendEntry {
    /// Display name, or the onion address shortened by characters (not
    /// bytes) to the sidebar width.
    pub fn display(&self) -> (r: String)
        ensures
            r@ == match self.display_name {
                Some(name) => name@,
                None => ellipsized(self.onion_address@, SIDEBAR_ADDRESS_WIDTH as nat),
            },
    {
        match &self.display_name {
            Some(name) => name.clone(),
            None => truncate_with_ellipsis(self.onion_address.as_str(), SIDEBAR_ADDRESS_WIDTH),
        }
    }
}

/// A pending friend request entry
#[derive(Debug, Clone)]
pub struct PendingFriendRequest {
    pub id: i64,
    pub from_onion: String,
    pub friend_code: String,
    pub received_at: i64,
}

/// A message for the conversation view
#[derive(Debug, Clone)]
pub struct ChatMessage {
    pub id: i64,
    pub message_id: String,
    pub sender_onion: String,
    pub content: String,
    pub timestamp: i64,
    pub status: String,
    pub ephemeral_ttl: Option<i64>,
}

/// A channel post for display. A post belongs to the `(publisher_onion,
/// channel_type)` pair: local posts have the own address as publisher.
#[derive(Debug, Clone)]
pub struct ChannelPost {
    pub id: i64,
    pub publisher_onion: String,
    pub channel_type: String,
    pub content: String,
    pub post_id: String,
    pub created_at: i64,
    pub signature: String,
}

/// A channel subscription entry (subscriber side)
#[derive(Debug, Clone)]
pub struct ChannelSubscription {
    pub id: i64,
    pub publisher_onion: String,
    pub channel_type: String,
    pub subscribed_at: i64,
    pub last_sync_at: Option<i64>,
}

} // verus!
