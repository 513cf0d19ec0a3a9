//! Ed25519 keys and signatures, computed by `ed25519-dalek`.
//!
//! Keys and signatures cross this boundary as plain bytes: a 32-byte secret
//! key, a 32-byte public key and a 64-byte signature.

use vstd::prelude::*;
use ed25519_dalek::{Signer, Verifier};

verus! {

/// The public key that belongs to a secret key.
pub uninterp spec fn ed25519_public_key(secret: Seq<u8>) -> [u8; 32];

/// The (deterministic) Ed25519 signature of `msg` under a secret key.
pub uninterp spec fn ed25519_signature(secret: Seq<u8>, msg: Seq<u8>) -> [u8; 64];

/// Whether `sig` is a valid signature of `msg` under the public key `public`
/// (false when `public` is not a valid curve point).
pub uninterp spec fn ed25519_accepts(public: Seq<u8>, msg: Seq<u8>, sig: Seq<u8>) -> bool;

/// `SigningKey::generate` with the operating system's randomness; returns the
/// secret key bytes. Nothing is claimed of them.
#[verifier::external_body]
pub(crate) fn ed25519_generate_secret() -> (secret: [u8; 32]) {
    ed25519_dalek::SigningKey::generate(&mut rand::rngs::OsRng).to_bytes()
}

/// `SigningKey::from_bytes(secret).verifying_key().to_bytes()`: the public key
/// of a secret key.
#[verifier::external_body]
pub(crate) fn ed25519_public(secret: &[u8; 32]) -> (public: [u8; 32])
    ensures
        public == ed25519_public_key(secret@),
{
    ed25519_dalek::SigningKey::from_bytes(secret).verifying_key().to_bytes()
}

/// `SigningKey::sign`: the signature of `msg`. Claims that it is a function
/// of key and message, and that it verifies under the key's public key.
#[verifier::external_body]
pub(crate) fn ed25519_sign(secret: &[u8; 32], msg: &[u8]) -> (sig: [u8; 64])
    ensures
        sig == ed25519_signature(secret@, msg@),
        ed25519_accepts(ed25519_public_key(secret@)@, msg@, sig@),
{
    ed25519_dalek::SigningKey::from_bytes(secret).sign(msg).to_bytes()
}

/// Whether `VerifyingKey::from_bytes` accepts `public` as a point of the curve.
pub uninterp spec fn ed25519_key_valid(public: Seq<u8>) -> bool;

/// `VerifyingKey::from_bytes(public)` succeeds.
#[verifier::external_body]
pub(crate) fn ed25519_public_key_valid(public: &[u8; 32]) -> (r: bool)
    ensures
        r == ed25519_key_valid(public@),
{
    ed25519_dalek::VerifyingKey::from_bytes(public).is_ok()
}

/// The text of the `SignatureError` with which verification refuses a signature.
pub uninterp spec fn ed25519_rejection_text(public: Seq<u8>, msg: Seq<u8>, sig: Seq<u8>) -> Seq<char>;

/// `VerifyingKey::from_bytes(public)` followed by `verify(msg, sig)`: `Ok`
/// when the key is a valid point and the signature checks, else the text of
/// the `SignatureError` that refused it.
#[verifier::external_body]
pub(crate) fn ed25519_verify(public: &[u8; 32], msg: &[u8], sig: &[u8; 64]) -> (r: core::result::Result<(), String>)
    ensures
        r is Ok == ed25519_accepts(public@, msg@, sig@),
        r is Ok ==> ed25519_key_valid(public@),
        r matches Err(t) ==> t@ == ed25519_rejection_text(public@, msg@, sig@),
{
    let key = match ed25519_dalek::VerifyingKey::from_bytes(public) {
        Ok(key) => key,
        Err(e) => return Err(e.to_string()),
    };
    key.verify(msg, &ed25519_dalek::Signature::from_bytes(sig)).map_err(|e| e.to_string())
}

} // verus!
