//! Friend request construction and validation.

use vstd::prelude::*;
use vstd::utf8::encode_utf8;

use crate::codec::{
    base64_decode, base64_decoding, base64_encode, base64_encoding, base64_error_text, is_b64_char, lemma_base64_rejects,
};
use crate::crypto::ed25519::{
    ed25519_accepts, ed25519_key_valid, ed25519_public_key, ed25519_public_key_valid, ed25519_signature, ed25519_verify,
};
use crate::crypto::identity::IdentityKeypair;
use crate::crypto::session_manager::now_secs;
use crate::error::{is_crypto_error, ChattorError, Result};
use crate::protocol::friend_code::{lemma_onion_roundtrip, onion_of, onion_to_pubkey, pubkey_of_onion};
use crate::protocol::message::{FriendRequestAcceptMessage, FriendRequestMessage};
use crate::text::{push_signed_decimal, signed_decimal, str_to_string};

verus! {

/// Requests older or newer than this many seconds are refused.
pub const MAX_REQUEST_AGE_SECS: i64 = 300;

/// The text a friend request's sender signs: their onion, the friend code
/// and the timestamp.
pub open spec fn request_text(from_onion: Seq<char>, friend_code: Seq<char>, timestamp: i64) -> Seq<char> {
    from_onion + friend_code + signed_decimal(timestamp as int)
}

/// A request is authentic when its signature is a valid Ed25519 signature of
/// its text under the key of its sender's address.
pub open spec fn request_authentic(r: FriendRequestMessage) -> bool {
    match pubkey_of_onion(r.from_onion@) {
        Err(_) => false,
        Ok(pk) => match base64_decoding(r.signature@) {
            None => false,
            Some(sig) => sig.len() == 64 && ed25519_accepts(
                pk,
                encode_utf8(request_text(r.from_onion@, r.from_friendcode@, r.timestamp)),
                sig,
            ),
        },
    }
}

/// What a request's signature covers: a request whose signature is a
/// valid Ed25519 signature, under the key of its sender's address, of the
/// sender's onion, then its friend code, then its timestamp in decimal, is
/// authentic.
pub proof fn lemma_signed_request_is_authentic(r: FriendRequestMessage, pk: Seq<u8>, sig: Seq<u8>)
    requires
        pubkey_of_onion(r.from_onion@) == Ok::<Seq<u8>, Seq<char>>(pk),
        base64_decoding(r.signature@) == Some(sig),
        sig.len() == 64,
        ed25519_accepts(pk, encode_utf8(r.from_onion@ + r.from_friendcode@ + signed_decimal(r.timestamp as int)), sig),
    ensures
        request_authentic(r),
{
    assert(request_text(r.from_onion@, r.from_friendcode@, r.timestamp) == r.from_onion@ + r.from_friendcode@
        + signed_decimal(r.timestamp as int));
}

/// What an accept's signature covers: an accept whose signature is a valid
/// Ed25519 signature, under the key its sender announced, of the sender's
/// onion, then the recipient's onion, then its timestamp in decimal, is
/// not refused.
pub proof fn lemma_signed_accept_is_accepted(
    a: FriendRequestAcceptMessage,
    key_text: Seq<char>,
    pk: Seq<u8>,
    sig: Seq<u8>,
)
    requires
        base64_decoding(key_text) == Some(pk),
        pk.len() == 32,
        base64_decoding(a.signature@) == Some(sig),
        sig.len() == 64,
        ed25519_accepts(pk, encode_utf8(a.from_onion@ + a.to_onion@ + signed_decimal(a.timestamp as int)), sig),
    ensures
        accept_problem(a, Some(key_text)) is None,
{
    assert(accept_text(a.from_onion@, a.to_onion@, a.timestamp) == a.from_onion@ + a.to_onion@ + signed_decimal(
        a.timestamp as int,
    ));
}

/// The signed text covers the friend code: two requests from one address
/// at one time whose friend codes differ (at the same length) sign
/// different texts, and the text begins with the sender's onion.
pub proof fn lemma_request_text_covers_friend_code(
    onion: Seq<char>,
    code: Seq<char>,
    other: Seq<char>,
    timestamp: i64,
)
    requires
        code.len() == other.len(),
        code != other,
    ensures
        request_text(onion, code, timestamp) != request_text(onion, other, timestamp),
        onion.is_prefix_of(request_text(onion, code, timestamp)),
{
    let k = choose|k: int| 0 <= k < code.len() && code[k] != other[k];
    assert(exists|k: int| 0 <= k < code.len() && code[k] != other[k]) by {
        if forall|k: int| 0 <= k < code.len() ==> code[k] == other[k] {
            assert(code =~= other);
        }
    }
    assert(request_text(onion, code, timestamp)[onion.len() + k] == code[k]);
    assert(request_text(onion, other, timestamp)[onion.len() + k] == other[k]);
    assert(request_text(onion, code, timestamp).subrange(0, onion.len() as int) =~= onion);
}

/// A request whose signature text holds a character that is neither in
/// the base64 alphabet nor `=` is not authentic.
pub proof fn lemma_bad_request_signature_text(r: FriendRequestMessage, k: int)
    requires
        0 <= k < r.signature@.len(),
        !is_b64_char(r.signature@[k]),
        r.signature@[k] != '=',
    ensures
        !request_authentic(r),
{
    lemma_base64_rejects(r.signature@, k);
}

/// A request is fresh at time `now` when its timestamp is within five
/// minutes of `now`, either way.
pub open spec fn request_fresh(r: FriendRequestMessage, now: i64) -> bool {
    -(MAX_REQUEST_AGE_SECS as int) <= now - r.timestamp <= MAX_REQUEST_AGE_SECS as int
}

/// The signature check as a function of the request alone.
fn signature_checks(request: &FriendRequestMessage) -> (ok: bool)
    ensures
        ok == request_authentic(*request),
{
    let pubkey = match onion_to_pubkey(request.from_onion.as_str()) {
        Ok(b) => b,
        Err(_) => return false,
    };
    let mut data = str_to_string(request.from_onion.as_str());
    data.append(request.from_friendcode.as_str());
    push_signed_decimal(&mut data, request.timestamp);
    let sig_bytes = match base64_decode(request.signature.as_str()) {
        Ok(b) => b,
        Err(_) => return false,
    };
    if sig_bytes.len() != 64 {
        return false;
    }
    let mut sig = [0u8; 64];
    let mut i: usize = 0;
    while i < 64
        invariant
            sig_bytes@.len() == 64,
            i <= 64,
            forall|k: int| 0 <= k < i ==> sig@[k] == sig_bytes@[k],
        decreases 64 - i,
    {
        sig[i] = sig_bytes[i];
        i = i + 1;
    }
    assert(sig@ =~= sig_bytes@);
    ed25519_verify(&pubkey, data.as_str().as_bytes(), &sig).is_ok()
}

/// Friend request protocol helpers (message construction and signature validation).
pub struct FriendRequestHandler;

impl FriendRequestHandler {
    /// Create a friend request, signed by `identity` over
    /// `own_onion || friend_code || timestamp`, stamped with the current time.
    pub fn create_request(identity: &IdentityKeypair, own_onion: &str, friend_code: &str) -> (r: Result<FriendRequestMessage>)
        ensures
            r matches Ok(m) && {
                &&& m.from_onion@ == own_onion@
                &&& m.from_friendcode@ == friend_code@
                &&& m.signature@ == base64_encoding(ed25519_signature(
                    identity.secret_bytes(),
                    encode_utf8(request_text(own_onion@, friend_code@, m.timestamp)),
                )@)
                // The signed text is the onion, the friend code and the
                // timestamp in decimal, in that order.
                &&& m.signature@ == base64_encoding(ed25519_signature(
                    identity.secret_bytes(),
                    encode_utf8(own_onion@ + friend_code@ + signed_decimal(m.timestamp as int)),
                )@)
                // Sent from the identity's own address, the request is authentic.
                &&& own_onion@ == onion_of(identity.public_bytes()) ==> request_authentic(m)
            },
    {
        let timestamp = now_secs();
        let mut data = str_to_string(own_onion);
        data.append(friend_code);
        push_signed_decimal(&mut data, timestamp);
        let signature = identity.sign(data.as_str().as_bytes());
        let signature_base64 = base64_encode(&signature);
        let m = FriendRequestMessage {
            from_onion: str_to_string(own_onion),
            from_friendcode: str_to_string(friend_code),
            timestamp,
            signature: signature_base64,
        };
        proof {
            if own_onion@ == onion_of(identity.public_bytes()) {
                lemma_onion_roundtrip(identity.public_bytes());
            }
        }
        Ok(m)
    }

    /// Validate a received request at time `now`: the timestamp must be
    /// within five minutes of `now`, and the signature must check against
    /// the key in the sender's v3 address.
    pub fn validate_request_at(request: &FriendRequestMessage, now: i64) -> (ok: bool)
        requires
            -(i64::MAX as int) <= now - request.timestamp <= i64::MAX,
        ensures
            ok == (request_fresh(*request, now) && request_authentic(*request)),
    {
        let diff = now - request.timestamp;
        let age = if diff < 0 { -diff } else { diff };
        if age > MAX_REQUEST_AGE_SECS {
            return false;
        }
        signature_checks(request)
    }

    /// Validate a received friend request against the current time.
    /// Returns `Ok(true)` exactly for authentic requests within five
    /// minutes of now; forged, stale or malformed requests give
    /// `Ok(false)`. The reading of the clock is the one input that no
    /// clause fixes.
    pub fn validate_request(request: &FriendRequestMessage) -> (r: Result<bool>)
        ensures
            r matches Ok(ok) && exists|now: i64|
                ok == (#[trigger] request_fresh(*request, now) && request_authentic(*request)),
    {
        let now = now_secs();
        let in_range = if request.timestamp >= 0 {
            now >= i64::MIN + request.timestamp + 1
        } else {
            now <= i64::MAX + request.timestamp
        };
        if !in_range {
            assert(!request_fresh(*request, now));
            return Ok(false);
        }
        let ok = Self::validate_request_at(request, now);
        assert(ok == (request_fresh(*request, now) && request_authentic(*request)));
        Ok(ok)
    }
}

/// The text the accepting peer signs: its onion, the requester's onion and
/// the timestamp.
pub open spec fn accept_text(from_onion: Seq<char>, to_onion: Seq<char>, timestamp: i64) -> Seq<char> {
    from_onion + to_onion + signed_decimal(timestamp as int)
}

/// Why an accept message is refused, given the base64 Ed25519 key its
/// sender announced (if any): no key, a key or signature that does not
/// decode or has the wrong length, a key off the curve, or a signature that
/// does not verify. `None` when it is authentic.
pub open spec fn accept_problem(a: FriendRequestAcceptMessage, pubkey_b64: Option<Seq<char>>) -> Option<Seq<char>> {
    match pubkey_b64 {
        None => Some("Accept message from "@ + a.from_onion@ + " missing Ed25519 pubkey, rejecting"@),
        Some(k) => match base64_decoding(k) {
            None => Some("Failed to decode accept pubkey: "@ + base64_error_text(k)),
            Some(pk) => if pk.len() != 32 {
                Some("Accept pubkey has wrong length"@)
            } else {
                match base64_decoding(a.signature@) {
                    None => Some("Failed to decode accept signature: "@ + base64_error_text(a.signature@)),
                    Some(sig) => if sig.len() != 64 {
                        Some("Accept signature has wrong length"@)
                    } else if ed25519_accepts(
                        pk,
                        encode_utf8(accept_text(a.from_onion@, a.to_onion@, a.timestamp)),
                        sig,
                    ) {
                        None
                    } else if !ed25519_key_valid(pk) {
                        Some("Invalid Ed25519 pubkey in accept"@)
                    } else {
                        Some("Accept message from "@ + a.from_onion@ + " has invalid Ed25519 signature"@)
                    },
                }
            },
        },
    }
}

/// A copy of a vector of known length as an array of 32 bytes.
fn bytes32(v: &Vec<u8>) -> (a: [u8; 32])
    requires
        v@.len() == 32,
    ensures
        a@ == v@,
{
    let mut a = [0u8; 32];
    let mut i: usize = 0;
    while i < 32
        invariant
            v@.len() == 32,
            i <= 32,
            forall|k: int| 0 <= k < i ==> a@[k] == v@[k],
        decreases 32 - i,
    {
        a[i] = v[i];
        i = i + 1;
    }
    assert(a@ =~= v@);
    a
}

/// A copy of a vector of known length as an array of 64 bytes.
fn bytes64(v: &Vec<u8>) -> (a: [u8; 64])
    requires
        v@.len() == 64,
    ensures
        a@ == v@,
{
    let mut a = [0u8; 64];
    let mut i: usize = 0;
    while i < 64
        invariant
            v@.len() == 64,
            i <= 64,
            forall|k: int| 0 <= k < i ==> a@[k] == v@[k],
        decreases 64 - i,
    {
        a[i] = v[i];
        i = i + 1;
    }
    assert(a@ =~= v@);
    a
}

/// A `Crypto` error whose message is `a` followed by `b`.
fn crypto_error2(a: &str, b: &str) -> (e: ChattorError)
    ensures
        is_crypto_error(e, a@ + b@),
{
    let mut m = str_to_string(a);
    m.append(b);
    ChattorError::Crypto(m)
}

/// A `Crypto` error whose message is `a`, then `b`, then `c`.
fn crypto_error3(a: &str, b: &str, c: &str) -> (e: ChattorError)
    ensures
        is_crypto_error(e, a@ + b@ + c@),
{
    let mut m = str_to_string(a);
    m.append(b);
    m.append(c);
    ChattorError::Crypto(m)
}

/// Check the Ed25519 signature of an accept message against the key its
/// sender announced (trust on first use). Returns that key, to be stored
/// as the friend's key.
pub fn verify_accept(accept: &FriendRequestAcceptMessage, pubkey_b64: Option<&str>) -> (r: Result<[u8; 32]>)
    ensures
        match accept_problem(
            *accept,
            match pubkey_b64 {
                Some(k) => Some(k@),
                None => None,
            },
        ) {
            None => r matches Ok(key) && pubkey_b64 matches Some(k) && base64_decoding(k@) == Some(key@),
            Some(m) => r matches Err(e) && is_crypto_error(e, m),
        },
{
    let key_text = match pubkey_b64 {
        Some(k) => k,
        None => {
            return Err(crypto_error3("Accept message from ", accept.from_onion.as_str(), " missing Ed25519 pubkey, rejecting"));
        },
    };
    let key_bytes = match base64_decode(key_text) {
        Ok(b) => b,
        Err(t) => return Err(crypto_error2("Failed to decode accept pubkey: ", t.as_str())),
    };
    if key_bytes.len() != 32 {
        return Err(ChattorError::Crypto(str_to_string("Accept pubkey has wrong length")));
    }
    let key = bytes32(&key_bytes);
    let sig_bytes = match base64_decode(accept.signature.as_str()) {
        Ok(b) => b,
        Err(t) => return Err(crypto_error2("Failed to decode accept signature: ", t.as_str())),
    };
    if sig_bytes.len() != 64 {
        return Err(ChattorError::Crypto(str_to_string("Accept signature has wrong length")));
    }
    let sig = bytes64(&sig_bytes);
    let mut data = str_to_string(accept.from_onion.as_str());
    data.append(accept.to_onion.as_str());
    push_signed_decimal(&mut data, accept.timestamp);
    match ed25519_verify(&key, data.as_str().as_bytes(), &sig) {
        Ok(()) => Ok(key),
        Err(_) => {
            if !ed25519_public_key_valid(&key) {
                Err(ChattorError::Crypto(str_to_string("Invalid Ed25519 pubkey in accept")))
            } else {
                Err(crypto_error3("Accept message from ", accept.from_onion.as_str(), " has invalid Ed25519 signature"))
            }
        },
    }
}

/// The accept message with which `identity` (at `own_onion`) answers the
/// friend request of `requester_onion` at `timestamp`, carrying our PreKey
/// bundle (serialised) and a signature over `own_onion || requester ||
/// timestamp`.
pub fn create_accept(
    identity: &IdentityKeypair,
    own_onion: &str,
    requester_onion: &str,
    prekey_bundle: String,
    timestamp: i64,
) -> (r: FriendRequestAcceptMessage)
    ensures
        r.from_onion@ == own_onion@,
        r.to_onion@ == requester_onion@,
        r.signal_prekey_bundle@ == prekey_bundle@,
        r.timestamp == timestamp,
        r.signature@ == base64_encoding(
            ed25519_signature(identity.secret_bytes(), encode_utf8(accept_text(own_onion@, requester_onion@, timestamp)))@,
        ),
        base64_decoding(r.signature@) == Some(
            ed25519_signature(identity.secret_bytes(), encode_utf8(accept_text(own_onion@, requester_onion@, timestamp)))@,
        ),
        ed25519_accepts(
            identity.public_bytes(),
            encode_utf8(accept_text(own_onion@, requester_onion@, timestamp)),
            ed25519_signature(identity.secret_bytes(), encode_utf8(accept_text(own_onion@, requester_onion@, timestamp)))@,
        ),
{
    let mut data = str_to_string(own_onion);
    data.append(requester_onion);
    push_signed_decimal(&mut data, timestamp);
    let signature = identity.sign(data.as_str().as_bytes());
    FriendRequestAcceptMessage {
        from_onion: str_to_string(own_onion),
        to_onion: str_to_string(requester_onion),
        signal_prekey_bundle: prekey_bundle,
        timestamp,
        signature: base64_encode(&signature),
    }
}

/// An accept message made by `create_accept` passes `verify_accept` with
/// the key its identity announces.
pub proof fn lemma_created_accept_verifies(
    accept: FriendRequestAcceptMessage,
    identity: IdentityKeypair,
    key_text: Seq<char>,
)
    requires
        base64_decoding(key_text) == Some(identity.public_bytes()),
        base64_decoding(accept.signature@) == Some(
            ed25519_signature(
                identity.secret_bytes(),
                encode_utf8(accept_text(accept.from_onion@, accept.to_onion@, accept.timestamp)),
            )@,
        ),
        ed25519_accepts(
            identity.public_bytes(),
            encode_utf8(accept_text(accept.from_onion@, accept.to_onion@, accept.timestamp)),
            ed25519_signature(
                identity.secret_bytes(),
                encode_utf8(accept_text(accept.from_onion@, accept.to_onion@, accept.timestamp)),
            )@,
        ),
    ensures
        accept_problem(accept, Some(key_text)) is None,
{
}

} // verus!
