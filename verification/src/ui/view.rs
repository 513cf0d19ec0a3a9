//! Choices the conversation and channel views make from stored settings.

use vstd::prelude::*;

use crate::text::str_equals;

verus! {

/// The time-to-live choices offered for ephemeral messages, in seconds,
/// after "off": five minutes, an hour, a day and a week.
pub open spec fn ttl_choice(idx: nat) -> Option<i64> {
    if idx == 1 {
        Some(300)
    } else if idx == 2 {
        Some(3600)
    } else if idx == 3 {
        Some(86400)
    } else if idx == 4 {
        Some(604800)
    } else {
        None
    }
}

/// The entry of the time-to-live menu highlighted for a conversation's
/// current setting: the matching choice, or "off" (0) for no setting and
/// for a value the menu does not offer.
pub open spec fn ttl_menu_entry(ttl: Option<i64>) -> nat {
    match ttl {
        Some(300) => 1,
        Some(3600) => 2,
        Some(86400) => 3,
        Some(604800) => 4,
        _ => 0,
    }
}

/// The menu entry to highlight for a conversation's current setting.
pub fn ttl_menu_index(ttl: Option<i64>) -> (idx: usize)
    ensures
        idx == ttl_menu_entry(ttl),
{
    match ttl {
        None => 0,
        Some(300) => 1,
        Some(3600) => 2,
        Some(86400) => 3,
        Some(604800) => 4,
        Some(_) => 0,
    }
}

/// Each choice the menu offers is highlighted at its own entry, and an
/// entry other than "off" is highlighted only for the choice it offers.
pub proof fn lemma_ttl_menu_roundtrip(idx: nat, ttl: Option<i64>)
    ensures
        1 <= idx <= 4 ==> ttl_menu_entry(ttl_choice(idx)) == idx,
        ttl_menu_entry(ttl) != 0 ==> ttl_choice(ttl_menu_entry(ttl)) == ttl,
{
}

/// The channel whose posts a channel view lists: our public channel (1) or
/// friends-only channel (2) when it is our own, else the remote posts (0).
pub open spec fn viewed_channel(channel_type: Seq<char>, is_own: bool) -> i64 {
    if !is_own {
        0
    } else if channel_type == "public"@ {
        1
    } else {
        2
    }
}

/// The local channel id for a channel view.
pub fn viewed_channel_id(channel_type: &str, is_own: bool) -> (id: i64)
    ensures
        id == viewed_channel(channel_type@, is_own),
{
    if !is_own {
        0
    } else if str_equals(channel_type, "public") {
        1
    } else {
        2
    }
}

} // verus!
