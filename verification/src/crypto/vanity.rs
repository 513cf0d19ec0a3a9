//! Vanity `.onion` mining: what a prefix may be, how hard it is to find,
//! and how a candidate address is scored against it. The worker threads
//! that generate candidates live with the application.

use vstd::prelude::*;
use vstd::arithmetic::power::pow;
use vstd::utf8::{encode_utf8, is_ascii_chars, is_ascii_chars_encode_utf8};

use crate::error::{is_crypto_error, ChattorError, Result};
use crate::codec::b32_char;
use crate::protocol::friend_code::{is_onion_char, lemma_onion_shape, onion_of};
use crate::text::{ascii_lower, chars_of, push_char, str_to_string};

verus! {

/// Whether a character is a valid base32 address character: `a`-`z` or
/// `2`-`7`.
pub open spec fn char_allowed(c: char) -> bool {
    ('a' <= c <= 'z') || ('2' <= c <= '7')
}

/// The first character of `p` that is not allowed.
pub open spec fn first_disallowed_from(p: Seq<char>, i: nat) -> Option<char>
    decreases p.len() - i,
{
    if i >= p.len() {
        None
    } else if !char_allowed(p[i as int]) {
        Some(p[i as int])
    } else {
        first_disallowed_from(p, i + 1)
    }
}

/// The verdict on a prefix: accepted, or the message that rejects it.
pub open spec fn prefix_verdict(p: Seq<char>) -> core::result::Result<(), Seq<char>> {
    if p.len() == 0 {
        Err("Prefix cannot be empty"@)
    } else if encode_utf8(p).len() > 7 {
        Err("Prefix too long (max 7 characters)"@)
    } else {
        match first_disallowed_from(p, 0) {
            Some(c) => Err("Invalid character '"@ + seq![c] + "' \u{2014} only a-z and 2-7 are valid"@),
            None => Ok(()),
        }
    }
}

/// The allowed characters are exactly the lower-case base32 alphabet of
/// onion addresses: a character is allowed when, and only when, it is the
/// lower-case form of the character for some 5-bit value.
pub proof fn lemma_allowed_is_base32_alphabet(c: char)
    ensures
        char_allowed(c) <==> exists|v: u8| v < 32 && #[trigger] ascii_lower(b32_char(v)) == c,
{
    if char_allowed(c) {
        if 'a' <= c <= 'z' {
            let v = (c as int - 97) as u8;
            assert(ascii_lower(b32_char(v)) == c);
        } else {
            let v = (c as int - 50 + 26) as u8;
            assert(ascii_lower(b32_char(v)) == c);
        }
    }
    assert forall|v: u8| v < 32 && #[trigger] ascii_lower(b32_char(v)) == c implies char_allowed(c) by {
    }
}

/// Every prefix of 1 to 7 characters of a real v3 address is accepted:
/// whatever the key, the start of its address is a prefix one can mine for.
pub proof fn lemma_address_prefixes_accepted(pk: Seq<u8>, n: nat)
    requires
        pk.len() == 32,
        1 <= n <= 7,
    ensures
        prefix_verdict(onion_of(pk).take(n as int)) is Ok,
{
    lemma_onion_shape(pk);
    let p = onion_of(pk).take(n as int);
    assert forall|k: int| 0 <= k < p.len() implies char_allowed(#[trigger] p[k]) by {
        assert(p[k] == onion_of(pk)[k]);
        assert(is_onion_char(onion_of(pk)[k]));
    }
    assert(is_ascii_chars(p)) by {
        assert forall|k: int| 0 <= k < p.len() implies '\0' <= #[trigger] p[k] <= '\u{7f}' by {
            assert(char_allowed(p[k]));
        }
    }
    is_ascii_chars_encode_utf8(p);
    lemma_none_disallowed(p, 0);
}

proof fn lemma_none_disallowed(p: Seq<char>, i: nat)
    requires
        forall|k: int| 0 <= k < p.len() ==> char_allowed(#[trigger] p[k]),
    ensures
        first_disallowed_from(p, i) is None,
    decreases p.len() - i,
{
    if i < p.len() {
        lemma_none_disallowed(p, i + 1);
    }
}

/// Validate that a prefix contains only valid base32 characters.
pub fn validate_prefix(prefix: &str) -> (r: Result<()>)
    ensures
        r is Ok <==> prefix_verdict(prefix@) is Ok,
        r matches Err(e) ==> (prefix_verdict(prefix@) matches Err(m) && is_crypto_error(e, m)),
{
    if prefix.is_empty() {
        return Err(ChattorError::Crypto(str_to_string("Prefix cannot be empty")));
    }
    if prefix.as_bytes().len() > 7 {
        return Err(ChattorError::Crypto(str_to_string("Prefix too long (max 7 characters)")));
    }
    let cs = chars_of(prefix);
    let mut i: usize = 0;
    while i < cs.len()
        invariant
            cs@ == prefix@,
            prefix@.len() > 0,
            encode_utf8(prefix@).len() <= 7,
            i <= cs@.len(),
            first_disallowed_from(prefix@, 0) == first_disallowed_from(prefix@, i as nat),
        decreases cs@.len() - i,
    {
        let ch = cs[i];
        if !(('a' <= ch && ch <= 'z') || ('2' <= ch && ch <= '7')) {
            assert(first_disallowed_from(prefix@, i as nat) == Some(ch));
            let mut m = str_to_string("Invalid character '");
            push_char(&mut m, ch);
            m.append("' \u{2014} only a-z and 2-7 are valid");
            assert(m@ =~= "Invalid character '"@ + seq![ch] + "' \u{2014} only a-z and 2-7 are valid"@);
            return Err(ChattorError::Crypto(m));
        }
        i = i + 1;
    }
    Ok(())
}

/// Estimate the number of attempts needed for a given prefix length.
/// Each base32 character has 32 possibilities, so expected attempts = 32^len.
pub fn estimate_attempts(prefix_len: usize) -> (r: u64)
    requires
        prefix_len <= 12,
    ensures
        r as int == pow(32, prefix_len as nat),
{
    let mut r: u64 = 1;
    let mut i: usize = 0;
    proof {
        vstd::arithmetic::power::lemma_pow0(32);
    }
    while i < prefix_len
        invariant
            i <= prefix_len <= 12,
            r as int == pow(32, i as nat),
        decreases prefix_len - i,
    {
        proof {
            vstd::arithmetic::power::lemma_pow_strictly_increases(32, i as nat, 12);
            vstd::arithmetic::power::lemma_pow_adds(32, i as nat, 1);
            vstd::arithmetic::power::lemma_pow1(32);
            reveal_with_fuel(pow, 13);
            assert(pow(32, 12) == 0x1000_0000_0000_0000int);
        }
        r = r * 32;
        i = i + 1;
    }
    r
}

/// How many leading bytes of `onion` agree with `prefix`, comparing at most
/// the first `prefix.len()` bytes of the address.
pub open spec fn match_len_spec(prefix: Seq<u8>, onion: Seq<u8>) -> nat
    decreases prefix.len(),
{
    if prefix.len() == 0 || onion.len() == 0 || prefix[0] != onion[0] {
        0
    } else {
        1 + match_len_spec(prefix.drop_first(), onion.drop_first())
    }
}

/// Whether `onion` begins with `prefix`, byte for byte.
pub open spec fn has_prefix(prefix: Seq<u8>, onion: Seq<u8>) -> bool {
    prefix.len() <= onion.len() && onion.take(prefix.len() as int) == prefix
}

/// Score a mined address: how many of its first bytes match the wanted
/// prefix, and whether it starts with the whole prefix.
pub fn score_candidate(prefix: &str, onion: &str) -> (r: (usize, bool))
    ensures
        r.0 == match_len_spec(encode_utf8(prefix@), encode_utf8(onion@)),
        r.1 == has_prefix(encode_utf8(prefix@), encode_utf8(onion@)),
{
    let p = prefix.as_bytes();
    let o = onion.as_bytes();
    let mut n: usize = 0;
    assert(p@.skip(0) =~= p@);
    assert(o@.skip(0) =~= o@);
    while n < p.len() && n < o.len() && p[n] == o[n]
        invariant
            n <= p@.len(),
            n <= o@.len(),
            p@.take(n as int) == o@.take(n as int),
            match_len_spec(p@, o@) == n + match_len_spec(p@.skip(n as int), o@.skip(n as int)),
        decreases p@.len() - n,
    {
        assert(p@.skip(n as int).drop_first() =~= p@.skip(n + 1));
        assert(o@.skip(n as int).drop_first() =~= o@.skip(n + 1));
        n = n + 1;
        assert(p@.take(n as int) =~= o@.take(n as int)) by {
            assert(p@.take(n as int) =~= p@.take(n - 1).push(p@[n - 1]));
            assert(o@.take(n as int) =~= o@.take(n - 1).push(o@[n - 1]));
        }
    }
    let whole = n == p.len();
    proof {
        assert(p@.skip(n as int).len() == 0 || o@.skip(n as int).len() == 0 || p@.skip(n as int)[0] != o@.skip(n as int)[0]);
        assert(p@.take(p@.len() as int) =~= p@);
        if has_prefix(p@, o@) && n < p@.len() {
            assert(o@.take(p@.len() as int)[n as int] == p@[n as int]);
        }
    }
    (n, whole)
}

/// Handle to a running mining operation.
pub struct MiningHandle {
    cancel: std::sync::Arc<std::sync::atomic::AtomicBool>,
}

impl MiningHandle {
    /// The flag the mining threads watch, which `cancel` sets.
    pub closed spec fn flag(&self) -> std::sync::Arc<std::sync::atomic::AtomicBool> {
        self.cancel
    }

    /// A handle that cancels through `flag`.
    pub fn new(flag: std::sync::Arc<std::sync::atomic::AtomicBool>) -> (r: Self)
        ensures
            r.flag() == flag,
    {
        MiningHandle { cancel: flag }
    }

    /// Cancel the mining operation.
    pub fn cancel(&self) {
        self.cancel.store(true, std::sync::atomic::Ordering::Relaxed);
    }
}

} // verus!
