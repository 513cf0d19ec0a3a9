//! Address conversions offered next to the Tor plumbing.

use vstd::prelude::*;

use crate::error::Result;
use crate::protocol::friend_code::{friend_code_of_onion, onion_of_code, reports};

verus! {

/// Convert a `.onion` address to its friend code (reversible word encoding).
pub fn onion_to_friend_code(onion: &str) -> (r: Result<String>)
    ensures
        reports(r, friend_code_of_onion(onion@)),
{
    crate::protocol::friend_code::onion_to_friend_code(onion)
}

/// Convert a friend code back to its `.onion` address.
pub fn friend_code_to_onion(friend_code: &str) -> (r: Result<String>)
    ensures
        reports(r, onion_of_code(friend_code@)),
{
    crate::protocol::friend_code::friend_code_to_onion(friend_code)
}

} // verus!
