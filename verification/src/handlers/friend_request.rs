//! Decisions made when the user sends a friend request.

use vstd::prelude::*;

use crate::error::{ChattorError, Result};
use crate::protocol::friend_code::{friend_code_of_onion, friend_code_to_onion, onion_of_code, onion_to_friend_code};
use crate::text::{ends_with, str_to_string, trim_str, trimmed};

verus! {

/// Result of attempting to send a message
pub enum SendResult {
    SentImmediately,
    Queued,
}

/// The message shown when the input is neither an address nor a friend code.
pub open spec fn bad_peer_message() -> Seq<char> {
    "Enter a .onion address or friend code (word sequence from their Identity)"@
}

/// The address a user typed: an `.onion` address is taken as it is (once
/// trimmed), anything else is decoded as a friend code.
pub open spec fn peer_of_input(input: Seq<char>) -> core::result::Result<Seq<char>, Seq<char>> {
    let t = trimmed(input);
    if ".onion"@.len() <= t.len() && t.skip(t.len() - ".onion"@.len()) == ".onion"@ {
        Ok(t)
    } else {
        match onion_of_code(t) {
            Ok(o) => Ok(o),
            Err(_) => Err(bad_peer_message()),
        }
    }
}

/// Resolve what the user typed as the peer of a friend request.
pub fn resolve_peer_input(peer_input: &str) -> (r: Result<String>)
    ensures
        match r {
            Ok(s) => peer_of_input(peer_input@) == Ok::<Seq<char>, Seq<char>>(s@),
            Err(e) => peer_of_input(peer_input@) == Err::<Seq<char>, Seq<char>>(bad_peer_message())
                && (e matches ChattorError::Tor(m) && m@ == bad_peer_message()),
        },
{
    let t = trim_str(peer_input);
    if ends_with(t, ".onion") {
        return Ok(str_to_string(t));
    }
    match friend_code_to_onion(t) {
        Ok(onion) => Ok(onion),
        Err(_) => Err(ChattorError::Tor(str_to_string(
            "Enter a .onion address or friend code (word sequence from their Identity)",
        ))),
    }
}

/// The friend code that goes into our own request: the code of our address,
/// or `unknown` if the address has none.
pub fn own_friend_code(own_onion: &str) -> (r: String)
    ensures
        r@ == match friend_code_of_onion(own_onion@) {
            Ok(code) => code,
            Err(_) => "unknown"@,
        },
{
    match onion_to_friend_code(own_onion) {
        Ok(code) => code,
        Err(_) => str_to_string("unknown"),
    }
}

} // verus!
