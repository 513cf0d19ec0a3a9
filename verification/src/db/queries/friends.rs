//! Friend records read from the database.

use vstd::prelude::*;

use crate::ui::input::{dotted, truncate_display_dots};

verus! {

/// A friend entry for the sidebar
#[derive(Debug, Clone)]
pub struct FriendEntry {
    pub friend_id: i64,
    pub onion_address: String,
    pub display_name: Option<String>,
    pub conversation_id: Option<i64>,
    pub unread_count: i64,
}

/// How many characters of an address are shown before `...`.
pub const ADDRESS_DISPLAY_CHARS: usize = 12;

impl FriendEntry {
    /// Display name or truncated onion address
    pub fn display(&self) -> (r: String)
        ensures
            r@ == match self.display_name {
                Some(name) => name@,
                None => dotted(self.onion_address@, ADDRESS_DISPLAY_CHARS as nat),
            },
    {
        match &self.display_name {
            Some(name) => name.clone(),
            None => truncate_display_dots(self.onion_address.as_str(), ADDRESS_DISPLAY_CHARS),
        }
    }
}

/// A pending friend request entry
#[derive(Debug, Clone)]
pub struct PendingFriendRequest {
    pub id: i64,
    pub from_onion: String,
    pub friend_code: String,
    pub received_at: i64,
}

} // verus!
