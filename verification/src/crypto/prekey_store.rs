//! The rows of the settings table that hold a peer's X3DH establishment
//! material, and the material read back from them. This module owns the
//! key-string format, so that it lives in exactly one place; reading and
//! writing the table is up to the caller.

use vstd::prelude::*;

use crate::codec::{base64_decode, base64_decoding, base64_encode, base64_encoding, base64_error_text};
use crate::crypto::signal::PreKeyPrivateMaterial;
use crate::error::{is_crypto_error, ChattorError, Result};
use crate::text::{decimal, parse_u64, push_signed_decimal, signed_decimal, str_to_string, u64_parsing};

verus! {

/// The settings key of one kind of material of a peer: `kind:peer`.
pub open spec fn material_key(kind: Seq<char>, peer: Seq<char>) -> Seq<char> {
    kind + ":"@ + peer
}

/// The settings key of one kind of material of a peer.
pub fn setting_key(kind: &str, peer: &str) -> (r: String)
    ensures
        r@ == material_key(kind@, peer@),
{
    let mut r = str_to_string(kind);
    r.append(":");
    r.append(peer);
    r
}

/// A row of the settings table: key and value.
pub open spec fn row_is(row: (String, String), key: Seq<char>, value: Seq<char>) -> bool {
    row.0@ == key && row.1@ == value
}

/// The settings rows that store the material, the Signal identity secret
/// and the creation time of a peer's establishment material, in the order
/// they are written: identity, signed prekey, one-time prekey (if any),
/// Signal identity secret, creation time. Each secret is in base64.
pub fn material_rows(
    peer: &str,
    material: &PreKeyPrivateMaterial,
    signal_identity_secret: &[u8; 32],
    created_at: i64,
) -> (r: Vec<(String, String)>)
    ensures
        r@.len() == if material.prekey_secret is Some { 5int } else { 4int },
        row_is(r@[0], material_key("prekey_identity"@, peer@), base64_encoding(material.identity_secret@)),
        row_is(r@[1], material_key("prekey_spk"@, peer@), base64_encoding(material.signed_prekey_secret@)),
        base64_decoding(r@[0].1@) == Some(material.identity_secret@),
        base64_decoding(r@[1].1@) == Some(material.signed_prekey_secret@),
        match material.prekey_secret {
            Some(opk) => {
                &&& row_is(r@[2], material_key("prekey_opk"@, peer@), base64_encoding(opk@))
                &&& base64_decoding(r@[2].1@) == Some(opk@)
            },
            None => true,
        },
        row_is(
            r@[r@.len() - 2],
            material_key("signal_identity_secret"@, peer@),
            base64_encoding(signal_identity_secret@),
        ),
        base64_decoding(r@[r@.len() - 2].1@) == Some(signal_identity_secret@),
        row_is(r@[r@.len() - 1], material_key("prekey_created_at"@, peer@), signed_decimal(created_at as int)),
{
    let mut rows: Vec<(String, String)> = Vec::new();
    rows.push((setting_key("prekey_identity", peer), base64_encode(&material.identity_secret)));
    rows.push((setting_key("prekey_spk", peer), base64_encode(&material.signed_prekey_secret)));
    if let Some(opk) = &material.prekey_secret {
        rows.push((setting_key("prekey_opk", peer), base64_encode(opk)));
    }
    rows.push((setting_key("signal_identity_secret", peer), base64_encode(signal_identity_secret)));
    let mut created = String::new();
    push_signed_decimal(&mut created, created_at);
    rows.push((setting_key("prekey_created_at", peer), created));
    rows
}

/// What decoding a stored 32-byte secret gives: the secret, or the message
/// of the error (`what` names the secret).
pub open spec fn decoded32(b64: Seq<char>, what: Seq<char>) -> core::result::Result<Seq<u8>, Seq<char>> {
    match base64_decoding(b64) {
        None => Err("Failed to decode "@ + what + ": "@ + base64_error_text(b64)),
        Some(b) => if b.len() == 32 {
            Ok(b)
        } else {
            Err(what + " has wrong length"@)
        },
    }
}

/// Decode a stored 32-byte secret from base64.
pub fn decode32(b64: &str, what: &str) -> (r: Result<[u8; 32]>)
    ensures
        match decoded32(b64@, what@) {
            Ok(b) => r matches Ok(a) && a@ == b,
            Err(m) => r matches Err(e) && is_crypto_error(e, m),
        },
{
    let bytes = match base64_decode(b64) {
        Ok(b) => b,
        Err(t) => {
            let mut m = str_to_string("Failed to decode ");
            m.append(what);
            m.append(": ");
            m.append(t.as_str());
            return Err(ChattorError::Crypto(m));
        },
    };
    if bytes.len() != 32 {
        let mut m = str_to_string(what);
        m.append(" has wrong length");
        return Err(ChattorError::Crypto(m));
    }
    let mut a = [0u8; 32];
    let mut i: usize = 0;
    while i < 32
        invariant
            bytes@.len() == 32,
            i <= 32,
            forall|k: int| 0 <= k < i ==> a@[k] == bytes@[k],
        decreases 32 - i,
    {
        a[i] = bytes[i];
        i = i + 1;
    }
    assert(a@ =~= bytes@);
    Ok(a)
}

/// What the material of `peer` reads back as, from the values of its
/// identity, signed-prekey and one-time-prekey rows (each if present):
/// nothing without the identity row, an error without the signed-prekey
/// row or when a secret does not decode; else the three secrets.
pub open spec fn material_of_rows(
    peer: Seq<char>,
    identity: Option<Seq<char>>,
    spk: Option<Seq<char>>,
    opk: Option<Seq<char>>,
) -> core::result::Result<Option<(Seq<u8>, Seq<u8>, Option<Seq<u8>>)>, Seq<char>> {
    match identity {
        None => Ok(None),
        Some(id) => match spk {
            None => Err("Missing PreKey SPK for "@ + peer),
            Some(sp) => {
                let one_time = match opk {
                    None => Ok(None),
                    Some(o) => match decoded32(o, "PreKey OPK"@) {
                        Ok(k) => Ok(Some(k)),
                        Err(m) => Err(m),
                    },
                };
                match one_time {
                    Err(m) => Err(m),
                    Ok(ot) => match decoded32(id, "PreKey identity"@) {
                        Err(m) => Err(m),
                        Ok(i) => match decoded32(sp, "PreKey SPK"@) {
                            Err(m) => Err(m),
                            Ok(s) => Ok(Some((i, s, ot))),
                        },
                    },
                }
            },
        },
    }
}

/// The material of `peer` from the values of its identity, signed-prekey
/// and one-time-prekey rows, each if present.
pub fn material_from_rows(peer: &str, identity: Option<&str>, spk: Option<&str>, opk: Option<&str>) -> (r: Result<
    Option<PreKeyPrivateMaterial>,
>)
    ensures
        match material_of_rows(
            peer@,
            match identity { Some(s) => Some(s@), None => None },
            match spk { Some(s) => Some(s@), None => None },
            match opk { Some(s) => Some(s@), None => None },
        ) {
            Ok(None) => r matches Ok(None),
            Ok(Some((i, s, o))) => r matches Ok(Some(m)) && m.identity_secret@ == i && m.signed_prekey_secret@ == s
                && match (o, m.prekey_secret) {
                    (None, None) => true,
                    (Some(k), Some(mk)) => mk@ == k,
                    _ => false,
                },
            Err(msg) => r matches Err(e) && is_crypto_error(e, msg),
        },
{
    let identity_b64 = match identity {
        Some(v) => v,
        None => return Ok(None),
    };
    let spk_b64 = match spk {
        Some(v) => v,
        None => {
            let mut m = str_to_string("Missing PreKey SPK for ");
            m.append(peer);
            return Err(ChattorError::Crypto(m));
        },
    };
    let one_time = match opk {
        Some(b64) => match decode32(b64, "PreKey OPK") {
            Ok(k) => Some(k),
            Err(e) => return Err(e),
        },
        None => None,
    };
    let identity_secret = match decode32(identity_b64, "PreKey identity") {
        Ok(k) => k,
        Err(e) => return Err(e),
    };
    let signed_prekey_secret = match decode32(spk_b64, "PreKey SPK") {
        Ok(k) => k,
        Err(e) => return Err(e),
    };
    Ok(Some(PreKeyPrivateMaterial { identity_secret, signed_prekey_secret, prekey_secret: one_time }))
}

/// The Signal identity secret of a peer from the value of its row, if present.
pub fn identity_secret_from_row(row: Option<&str>) -> (r: Result<Option<[u8; 32]>>)
    ensures
        match row {
            None => r matches Ok(None),
            Some(v) => match decoded32(v@, "signal identity secret"@) {
                Ok(b) => r matches Ok(Some(a)) && a@ == b,
                Err(m) => r matches Err(e) && is_crypto_error(e, m),
            },
        },
{
    match row {
        Some(b64) => match decode32(b64, "signal identity secret") {
            Ok(k) => Ok(Some(k)),
            Err(e) => Err(e),
        },
        None => Ok(None),
    }
}

/// What store writes, load reads back: the rows of a peer's material give
/// the same secrets again.
pub proof fn lemma_rows_read_back(
    peer: Seq<char>,
    identity: Seq<u8>,
    spk: Seq<u8>,
    opk: Option<Seq<u8>>,
    identity_text: Seq<char>,
    spk_text: Seq<char>,
    opk_text: Option<Seq<char>>,
)
    requires
        identity.len() == 32,
        spk.len() == 32,
        base64_decoding(identity_text) == Some(identity),
        base64_decoding(spk_text) == Some(spk),
        match (opk, opk_text) {
            (None, None) => true,
            (Some(k), Some(t)) => k.len() == 32 && base64_decoding(t) == Some(k),
            _ => false,
        },
    ensures
        material_of_rows(peer, Some(identity_text), Some(spk_text), opk_text) == Ok::<
            Option<(Seq<u8>, Seq<u8>, Option<Seq<u8>>)>,
            Seq<char>,
        >(Some((identity, spk, opk))),
{
}

/// The prefix of the keys of creation-time rows.
pub open spec fn created_at_prefix() -> Seq<char> {
    "prekey_created_at:"@
}

/// The peer whose material a creation-time row (`key`, `value`) records,
/// when that material is more than `max_age_secs` old at `now`; rows whose
/// value is not a number, or whose key is not a creation-time key, name no
/// one.
pub open spec fn stale_peer_of(key: Seq<char>, value: Seq<char>, now: u64, max_age_secs: u64) -> Option<Seq<char>> {
    match u64_parsing(value) {
        None => None,
        Some(ts) => if (if now >= ts { now - ts } else { 0 }) > max_age_secs && created_at_prefix().is_prefix_of(key) {
            Some(key.skip(created_at_prefix().len() as int))
        } else {
            None
        },
    }
}

/// The peer whose establishment material is stale, from one creation-time row.
pub fn stale_peer(key: &str, value: &str, now: u64, max_age_secs: u64) -> (r: Option<String>)
    ensures
        match stale_peer_of(key@, value@, now, max_age_secs) {
            Some(p) => r matches Some(s) && s@ == p,
            None => r is None,
        },
{
    let ts = match parse_u64(value) {
        Some(t) => t,
        None => return None,
    };
    let age = now.saturating_sub(ts);
    if age <= max_age_secs {
        return None;
    }
    let prefix = "prekey_created_at:";
    proof {
        reveal_strlit("prekey_created_at:");
    }
    let n = prefix.unicode_len();
    let k = key.unicode_len();
    if k < n {
        return None;
    }
    let head = key.substring_char(0, n);
    if !crate::text::str_equals(head, prefix) {
        return None;
    }
    assert(created_at_prefix().is_prefix_of(key@)) by {
        assert(key@.subrange(0, n as int) == prefix@);
    }
    let rest = key.substring_char(n, k);
    Some(str_to_string(rest))
}

} // verus!
