//! Signal Protocol sessions: PreKey bundles for X3DH key agreement and
//! Double Ratchet sessions.
//!
//! Bundles keep their public keys as raw 32-byte X25519 keys; the encoded
//! 33-byte form (with its `0x05` prefix) is produced when a bundle is handed
//! to X3DH.

use vstd::prelude::*;

use crate::crypto::primitives::{
    decode_public_key, encode_public_key, check_key, encoded, gen_keypair, gen_pubkey, init_receiver_state, key_usable,
    init_sender_state, random_byte, ratchet_decrypt, ratchet_after_encryption, ratchet_decryption, ratchet_encrypt, ratchet_encryption, receiver_decryption,
    signal_public_key, vxeddsa_sign, vxeddsa_verification, vxeddsa_verify,
    opk_holds, x3dh_initiator, x3dh_responder, x3dh_responder_secret,
};
use crate::error::{is_crypto_error, ChattorError, Result};
use crate::text::{decimal, push_decimal, str_to_string};
use vstd::slice::slice_to_vec;

verus! {

/// A signed prekey with a VXEdDSA signature (96 bytes).
#[derive(Debug, Clone)]
pub struct SignedPreKey {
    pub key_id: u32,
    pub public_key: Vec<u8>,
    pub signature: Vec<u8>,
}

/// A one-time prekey.
#[derive(Debug, Clone)]
pub struct PreKey {
    pub key_id: u32,
    pub public_key: Vec<u8>,
}

/// PreKey bundle for Signal Protocol session initialization, with raw
/// 32-byte X25519 public keys.
#[derive(Debug, Clone)]
pub struct PreKeyBundle {
    pub identity_key: Vec<u8>,
    pub signed_prekey: SignedPreKey,
    pub prekey: Option<PreKey>,
}

/// Private key material for X3DH key agreement: raw 32-byte X25519 secrets.
pub struct PreKeyPrivateMaterial {
    pub identity_secret: [u8; 32],
    pub signed_prekey_secret: [u8; 32],
    pub prekey_secret: Option<[u8; 32]>,
}

/// The signed prekey of a bundle in the form X3DH takes.
#[derive(Debug, Clone, Copy)]
pub struct EncodedSignedPreKey {
    pub id: u32,
    pub public_key: [u8; 33],
    pub signature: [u8; 96],
}

/// The one-time prekey of a bundle in the form X3DH takes.
#[derive(Debug, Clone, Copy)]
pub struct EncodedOneTimePreKey {
    pub id: u32,
    pub public_key: [u8; 33],
}

/// A bundle in the form X3DH takes: every public key encoded (33 bytes).
#[derive(Debug, Clone, Copy)]
pub struct EncodedPreKeyBundle {
    pub identity_key: [u8; 33],
    pub signed_prekey: EncodedSignedPreKey,
    pub one_time_prekey: Option<EncodedOneTimePreKey>,
}

/// Why a bundle cannot be encoded for X3DH, if it cannot: the first key or
/// signature of the wrong length.
pub open spec fn bundle_error(b: PreKeyBundle) -> Option<Seq<char>> {
    if b.identity_key@.len() != 32 {
        Some("Invalid identity key length: expected 32, got "@ + decimal(b.identity_key@.len()))
    } else if b.signed_prekey.public_key@.len() != 32 {
        Some(
            "Invalid signed prekey length: expected 32, got "@ + decimal(
                b.signed_prekey.public_key@.len(),
            ),
        )
    } else if b.signed_prekey.signature@.len() != 96 {
        Some("Invalid signature length: expected 96, got "@ + decimal(b.signed_prekey.signature@.len()))
    } else {
        match b.prekey {
            Some(p) => if p.public_key@.len() != 32 {
                Some("Invalid prekey length: expected 32, got "@ + decimal(p.public_key@.len()))
            } else {
                None
            },
            None => None,
        }
    }
}

/// `enc` is bundle `b` with every public key encoded.
pub open spec fn encodes(enc: EncodedPreKeyBundle, b: PreKeyBundle) -> bool {
    &&& enc.identity_key@ == encoded(b.identity_key@)
    &&& enc.signed_prekey.id == b.signed_prekey.key_id
    &&& enc.signed_prekey.public_key@ == encoded(b.signed_prekey.public_key@)
    &&& enc.signed_prekey.signature@ == b.signed_prekey.signature@
    &&& match (b.prekey, enc.one_time_prekey) {
        (None, None) => true,
        (Some(p), Some(o)) => o.id == p.key_id && o.public_key@ == encoded(p.public_key@),
        _ => false,
    }
}

/// Why a bundle's signature cannot be checked, if it cannot.
pub open spec fn signature_check_error(b: PreKeyBundle) -> Option<Seq<char>> {
    if b.identity_key@.len() != 32 {
        Some("Invalid identity key length"@)
    } else if b.signed_prekey.public_key@.len() != 32 {
        Some("Invalid signed prekey length"@)
    } else if b.signed_prekey.signature@.len() != 96 {
        Some("Invalid signature length"@)
    } else {
        None
    }
}

/// The bundle's signed prekey carries a valid VXEdDSA signature by its
/// identity key (a key whose point can be read).
pub open spec fn bundle_signature_valid(b: PreKeyBundle) -> bool {
    key_usable(encoded(b.identity_key@)) && vxeddsa_verification(
        encoded(b.identity_key@),
        encoded(b.signed_prekey.public_key@),
        b.signed_prekey.signature@,
    ) is Some
}

/// `b` and `m` are a bundle and its private material generated for the
/// Signal identity (`secret`, `public`): fresh signed and one-time prekeys
/// with id 1, the signed prekey signed by the identity secret.
pub open spec fn generated_for(
    b: PreKeyBundle,
    m: PreKeyPrivateMaterial,
    secret: Seq<u8>,
    public: Seq<u8>,
) -> bool {
    &&& b.identity_key@ == public
    &&& public.len() == 32
    &&& m.identity_secret@ == secret
    &&& b.signed_prekey.key_id == 1
    &&& b.signed_prekey.public_key@.len() == 32
    &&& encoded(b.signed_prekey.public_key@) == signal_public_key(m.signed_prekey_secret@)
    &&& b.signed_prekey.signature@.len() == 96
    &&& vxeddsa_verification(
        signal_public_key(secret),
        encoded(b.signed_prekey.public_key@),
        b.signed_prekey.signature@,
    ) is Some
    &&& match (b.prekey, m.prekey_secret) {
        (Some(p), Some(ps)) => {
            &&& p.key_id == 1
            &&& p.public_key@.len() == 32
            &&& encoded(p.public_key@) == signal_public_key(ps@)
        },
        _ => false,
    }
}

/// `m` holds the secrets of the keys that `b` publishes: its identity key,
/// its signed prekey and its one-time prekey (present in both or in
/// neither).
pub open spec fn opens_bundle(m: PreKeyPrivateMaterial, b: PreKeyBundle) -> bool {
    &&& encoded(b.identity_key@) == signal_public_key(m.identity_secret@)
    &&& encoded(b.signed_prekey.public_key@) == signal_public_key(m.signed_prekey_secret@)
    &&& match (b.prekey, m.prekey_secret) {
        (Some(p), Some(ps)) => encoded(p.public_key@) == signal_public_key(ps@),
        (None, None) => true,
        _ => false,
    }
}

/// The first message of a session: the holder of the material `m` behind
/// the bundle, given the initiator's identity key and ephemeral key, opens
/// the message that the session's ratchet makes of `pt`, and gets `pt`.
pub open spec fn first_message_opens(
    m: PreKeyPrivateMaterial,
    alice_identity: Seq<u8>,
    ephemeral: Seq<u8>,
    ratchet: libsignal_dezire::ratchet::RatchetState,
    ad: Seq<u8>,
    pt: Seq<u8>,
) -> bool {
    ratchet_encryption(ratchet, pt, ad) matches Some((h, c)) ==> first_message_plaintext(
        m,
        alice_identity,
        ephemeral,
        h,
        c,
    ) == Some(pt)
}

/// `bob` is the responder's session made from the material `m` and the
/// initiator's identity and ephemeral keys: its associated data is her
/// identity then ours, and its ratchet decrypts as a receiving ratchet
/// started from the responder's X3DH secret on our signed prekey.
pub open spec fn responder_session(
    bob: SignalSession,
    m: PreKeyPrivateMaterial,
    alice_identity: Seq<u8>,
    ephemeral: Seq<u8>,
) -> bool {
    &&& bob.ad() == alice_identity + signal_public_key(m.identity_secret@)
    &&& forall|h: Seq<u8>, c: Seq<u8>, ad: Seq<u8>|
        #[trigger] ratchet_decryption(bob.ratchet(), h, c, ad) == receiver_decryption(
            responder_secret(m, alice_identity, ephemeral).unwrap(),
            m.signed_prekey_secret@,
            h,
            c,
            ad,
        )
}

/// Decryption gives back what encryption took: the initiator's session
/// encrypts its first message `pt` (with the ratchet it started from the
/// bundle), and the responder's session, made from the material behind the
/// bundle and her identity and ephemeral keys, decrypts it to `pt`.
pub proof fn lemma_first_message_roundtrip(
    m: PreKeyPrivateMaterial,
    alice_identity: Seq<u8>,
    ephemeral: Seq<u8>,
    alice: SignalSession,
    bob: SignalSession,
    pt: Seq<u8>,
)
    requires
        first_message_opens(m, alice_identity, ephemeral, alice.ratchet(), alice.ad(), pt),
        responder_session(bob, m, alice_identity, ephemeral),
        ratchet_encryption(alice.ratchet(), pt, alice.ad()) is Some,
    ensures
        ({
            let (h, c) = ratchet_encryption(alice.ratchet(), pt, alice.ad())->0;
            ratchet_decryption(bob.ratchet(), h, c, bob.ad()) == Some(pt)
        }),
{
    let (h, c) = ratchet_encryption(alice.ratchet(), pt, alice.ad())->0;
    assert(first_message_plaintext(m, alice_identity, ephemeral, h, c) == Some(pt));
    assert(ratchet_decryption(bob.ratchet(), h, c, bob.ad()) == receiver_decryption(
        responder_secret(m, alice_identity, ephemeral).unwrap(),
        m.signed_prekey_secret@,
        h,
        c,
        bob.ad(),
    ));
}

/// A bundle generated for a Signal identity whose (usable) public key
/// belongs to its secret passes its own signature check.
pub proof fn lemma_generated_bundle_verifies(
    b: PreKeyBundle,
    m: PreKeyPrivateMaterial,
    secret: Seq<u8>,
    public: Seq<u8>,
)
    requires
        generated_for(b, m, secret, public),
        encoded(public) == signal_public_key(secret),
        key_usable(encoded(public)),
    ensures
        signature_check_error(b) is None,
        bundle_error(b) is None,
        bundle_signature_valid(b),
{
}

/// The initiator and the responder of one handshake bind the same associated
/// data to their messages: the initiator's identity, then the responder's.
/// It holds when the responder's bundle was generated for a Signal identity
/// whose public key belongs to its secret, and the initiator sent its own
/// encoded identity key.
pub proof fn lemma_both_sides_share_associated_data(
    alice_secret: Seq<u8>,
    alice_identity_sent: Seq<u8>,
    bundle: PreKeyBundle,
    material: PreKeyPrivateMaterial,
    bob_secret: Seq<u8>,
    bob_public: Seq<u8>,
)
    requires
        generated_for(bundle, material, bob_secret, bob_public),
        encoded(bob_public) == signal_public_key(bob_secret),
        alice_identity_sent == signal_public_key(alice_secret),
    ensures
        signal_public_key(alice_secret) + encoded(bundle.identity_key@) == alice_identity_sent
            + signal_public_key(material.identity_secret@),
{
}

/// A copy of a 32-byte vector as an array.
fn array32(v: &Vec<u8>) -> (a: [u8; 32])
    requires
        v@.len() == 32,
    ensures
        a@ == v@,
{
    let mut a = [0u8; 32];
    let mut i: usize = 0;
    while i < 32
        invariant
            v@.len() == 32,
            i <= 32,
            forall|k: int| 0 <= k < i ==> a@[k] == v@[k],
        decreases 32 - i,
    {
        a[i] = v[i];
        i = i + 1;
    }
    assert(a@ =~= v@);
    a
}

/// A copy of a 96-byte vector as an array.
fn array96(v: &Vec<u8>) -> (a: [u8; 96])
    requires
        v@.len() == 96,
    ensures
        a@ == v@,
{
    let mut a = [0u8; 96];
    let mut i: usize = 0;
    while i < 96
        invariant
            v@.len() == 96,
            i <= 96,
            forall|k: int| 0 <= k < i ==> a@[k] == v@[k],
        decreases 96 - i,
    {
        a[i] = v[i];
        i = i + 1;
    }
    assert(a@ =~= v@);
    a
}

/// `n` random bytes.
fn random_bytes(n: usize) -> (v: Vec<u8>)
    ensures
        v@.len() == n,
{
    let mut v: Vec<u8> = Vec::new();
    let mut i: usize = 0;
    while i < n
        invariant
            i <= n,
            v@.len() == i,
        decreases n - i,
    {
        v.push(random_byte());
        i = i + 1;
    }
    v
}

/// A `Crypto` error whose message is `prefix` followed by the number `n`.
fn numbered_error(prefix: &str, n: usize) -> (e: ChattorError)
    ensures
        is_crypto_error(e, prefix@ + decimal(n as nat)),
{
    let mut m = str_to_string(prefix);
    push_decimal(&mut m, n as u64);
    ChattorError::Crypto(m)
}

/// A `Crypto` error whose message is `prefix` followed by `detail`.
fn detailed_error(prefix: &str, detail: String) -> (e: ChattorError)
    ensures
        is_crypto_error(e, prefix@ + detail@),
{
    let mut m = str_to_string(prefix);
    m.append(detail.as_str());
    ChattorError::Crypto(m)
}

/// A `Crypto` error with the message `msg`.
fn crypto_error(msg: &str) -> (e: ChattorError)
    ensures
        is_crypto_error(e, msg@),
{
    ChattorError::Crypto(str_to_string(msg))
}

/// The encoded 33-byte key of a raw 32-byte key held in a vector.
fn encode_vec(v: &Vec<u8>) -> (r: [u8; 33])
    requires
        v@.len() == 32,
    ensures
        r@ == encoded(v@),
{
    let raw = array32(v);
    encode_public_key(&raw)
}

impl PreKeyBundle {
    /// A bundle of random bytes in the shape of a real one (32-byte keys, a
    /// 96-byte signature, ids 1), for exercising error paths.
    pub fn generate() -> (r: Result<Self>)
        ensures
            r matches Ok(b) && {
                &&& b.identity_key@.len() == 32
                &&& b.signed_prekey.key_id == 1
                &&& b.signed_prekey.public_key@.len() == 32
                &&& b.signed_prekey.signature@.len() == 96
                &&& b.prekey matches Some(p) && p.key_id == 1 && p.public_key@.len() == 32
            },
    {
        let identity_key = random_bytes(32);
        let prekey_public = random_bytes(32);
        let signed_prekey_public = random_bytes(32);
        let signature = random_bytes(96);
        Ok(PreKeyBundle {
            identity_key,
            signed_prekey: SignedPreKey { key_id: 1, public_key: signed_prekey_public, signature },
            prekey: Some(PreKey { key_id: 1, public_key: prekey_public }),
        })
    }

    /// A new bundle for the Signal identity (`signal_identity_secret`,
    /// `signal_identity_public`): a fresh signed prekey, signed with VXEdDSA
    /// by the identity secret, and a fresh one-time prekey, both with id 1;
    /// with the private material that goes with it.
    pub fn generate_real(
        signal_identity_secret: &[u8; 32],
        signal_identity_public: &[u8; 32],
    ) -> (r: Result<(Self, PreKeyPrivateMaterial)>)
        ensures
            match r {
                Ok((b, m)) => generated_for(b, m, signal_identity_secret@, signal_identity_public@),
                Err(e) => is_crypto_error(e, "VXEdDSA signing failed"@),
            },
    {
        let (spk_secret, spk_public) = gen_keypair();
        let signature = match vxeddsa_sign(signal_identity_secret, &spk_public) {
            Ok(sig) => sig,
            Err(_) => return Err(crypto_error("VXEdDSA signing failed")),
        };
        let (prekey_secret, prekey_public) = gen_keypair();
        let spk_raw = match decode_public_key(&spk_public) {
            Ok(raw) => raw,
            Err(_) => return Err(crypto_error("Failed to decode signed prekey public key")),
        };
        let prekey_raw = match decode_public_key(&prekey_public) {
            Ok(raw) => raw,
            Err(_) => return Err(crypto_error("Failed to decode prekey public key")),
        };
        let private_material = PreKeyPrivateMaterial {
            identity_secret: *signal_identity_secret,
            signed_prekey_secret: spk_secret,
            prekey_secret: Some(prekey_secret),
        };
        let bundle = PreKeyBundle {
            identity_key: slice_to_vec(signal_identity_public.as_slice()),
            signed_prekey: SignedPreKey {
                key_id: 1,
                public_key: slice_to_vec(spk_raw.as_slice()),
                signature: slice_to_vec(signature.as_slice()),
            },
            prekey: Some(PreKey { key_id: 1, public_key: slice_to_vec(prekey_raw.as_slice()) }),
        };
        Ok((bundle, private_material))
    }

    /// This bundle in the form X3DH takes, every public key encoded with its
    /// `0x05` prefix; refused when a key or the signature has the wrong
    /// length.
    pub fn to_libsignal_bundle(&self) -> (r: Result<EncodedPreKeyBundle>)
        ensures
            match bundle_error(*self) {
                Some(m) => r matches Err(e) && is_crypto_error(e, m),
                None => r matches Ok(enc) && encodes(enc, *self),
            },
    {
        if self.identity_key.len() != 32 {
            return Err(
                numbered_error("Invalid identity key length: expected 32, got ", self.identity_key.len()),
            );
        }
        let identity_key = encode_vec(&self.identity_key);
        if self.signed_prekey.public_key.len() != 32 {
            return Err(
                numbered_error(
                    "Invalid signed prekey length: expected 32, got ",
                    self.signed_prekey.public_key.len(),
                ),
            );
        }
        let spk = encode_vec(&self.signed_prekey.public_key);
        if self.signed_prekey.signature.len() != 96 {
            return Err(
                numbered_error(
                    "Invalid signature length: expected 96, got ",
                    self.signed_prekey.signature.len(),
                ),
            );
        }
        let signature = array96(&self.signed_prekey.signature);
        let one_time_prekey = match &self.prekey {
            Some(pk) => {
                if pk.public_key.len() != 32 {
                    return Err(
                        numbered_error("Invalid prekey length: expected 32, got ", pk.public_key.len()),
                    );
                }
                Some(EncodedOneTimePreKey { id: pk.key_id, public_key: encode_vec(&pk.public_key) })
            },
            None => None,
        };
        Ok(EncodedPreKeyBundle {
            identity_key,
            signed_prekey: EncodedSignedPreKey {
                id: self.signed_prekey.key_id,
                public_key: spk,
                signature,
            },
            one_time_prekey,
        })
    }

    /// Whether the signed prekey's VXEdDSA signature was made by this
    /// bundle's identity key; an error when a key or the signature has the
    /// wrong length.
    pub fn verify_signature(&self) -> (r: Result<bool>)
        ensures
            match signature_check_error(*self) {
                Some(m) => r matches Err(e) && is_crypto_error(e, m),
                None => r matches Ok(v) && v == bundle_signature_valid(*self),
            },
    {
        if self.identity_key.len() != 32 {
            return Err(crypto_error("Invalid identity key length"));
        }
        let identity = encode_vec(&self.identity_key);
        if self.signed_prekey.public_key.len() != 32 {
            return Err(crypto_error("Invalid signed prekey length"));
        }
        let spk = encode_vec(&self.signed_prekey.public_key);
        if self.signed_prekey.signature.len() != 96 {
            return Err(crypto_error("Invalid signature length"));
        }
        let signature = array96(&self.signed_prekey.signature);
        if !check_key(&identity) {
            return Ok(false);
        }
        Ok(vxeddsa_verify(&identity, &spk, &signature).is_some())
    }
}

/// The shared secret that the responder side of X3DH computes from our
/// private material and Alice's two public keys.
pub open spec fn responder_secret(
    m: PreKeyPrivateMaterial,
    alice_identity: Seq<u8>,
    alice_ephemeral: Seq<u8>,
) -> Option<Seq<u8>> {
    if !key_usable(alice_identity) || !key_usable(alice_ephemeral) {
        None
    } else {
    x3dh_responder_secret(
        m.identity_secret@,
        m.signed_prekey_secret@,
        match m.prekey_secret {
            Some(k) => Some(k@),
            None => None,
        },
        alice_identity,
        alice_ephemeral,
    )
    }
}

/// The plaintext of the first message of a session the peer started,
/// opened with our stored material and the peer's identity and ephemeral
/// keys: the responder's X3DH secret starts a receiving ratchet on our
/// signed prekey, which decrypts the message under the associated data of
/// the session (her identity, then ours). `None` when X3DH or the ratchet
/// refuses.
pub open spec fn first_message_plaintext(
    m: PreKeyPrivateMaterial,
    identity: Seq<u8>,
    ephemeral: Seq<u8>,
    header: Seq<u8>,
    ciphertext: Seq<u8>,
) -> Option<Seq<u8>> {
    match responder_secret(m, identity, ephemeral) {
        None => None,
        Some(secret) => receiver_decryption(
            secret,
            m.signed_prekey_secret@,
            header,
            ciphertext,
            identity + signal_public_key(m.identity_secret@),
        ),
    }
}

/// `e` is a `Crypto` error whose message begins with `prefix`.
pub open spec fn is_crypto_error_after(e: ChattorError, prefix: Seq<char>) -> bool {
    e matches ChattorError::Crypto(s) && prefix.is_prefix_of(s@)
}

/// The concatenation of two encoded keys.
fn concat_keys(a: &[u8; 33], b: &[u8; 33]) -> (v: Vec<u8>)
    ensures
        v@ == a@ + b@,
{
    let mut v = slice_to_vec(a.as_slice());
    let mut tail = slice_to_vec(b.as_slice());
    v.append(&mut tail);
    v
}

/// Signal session for encryption and decryption with the Double Ratchet.
pub struct SignalSession {
    pub remote_onion: String,
    state: libsignal_dezire::ratchet::RatchetState,
    /// Associated data for encrypt/decrypt: alice_identity || bob_identity,
    /// both 33-byte encoded.
    associated_data: Vec<u8>,
    /// Set until the first message (the PreKey message) is encrypted.
    is_first_message: bool,
    /// The X3DH ephemeral public key, on the initiator's side.
    ephemeral_public: Option<[u8; 33]>,
}

impl SignalSession {
    /// The peer's onion address.
    pub closed spec fn onion(&self) -> Seq<char> {
        self.remote_onion@
    }

    /// The Double Ratchet state.
    pub closed spec fn ratchet(&self) -> libsignal_dezire::ratchet::RatchetState {
        self.state
    }

    /// The associated data bound to every message.
    pub closed spec fn ad(&self) -> Seq<u8> {
        self.associated_data@
    }

    /// Whether the next message encrypted is the session's first.
    pub closed spec fn first_pending(&self) -> bool {
        self.is_first_message
    }

    /// The X3DH ephemeral public key, if this side initiated.
    pub closed spec fn ephemeral(&self) -> Option<[u8; 33]> {
        self.ephemeral_public
    }

    /// The initiator's (Alice's) session from the peer's PreKey bundle: X3DH
    /// with our Signal identity secret, then a Double Ratchet sender state.
    /// Returns the session, its associated data (our encoded identity, then
    /// the peer's) and the X3DH ephemeral public key.
    pub fn from_prekey_bundle_real(
        remote_onion: String,
        bundle: &PreKeyBundle,
        _private_material: &PreKeyPrivateMaterial,
        signal_identity_secret: &[u8; 32],
    ) -> (r: Result<(Self, Vec<u8>, [u8; 33])>)
        ensures
            bundle_error(*bundle) matches Some(m) ==> r matches Err(e) && is_crypto_error(e, m),
            r matches Ok((s, ad, eph)) ==> {
                &&& bundle_error(*bundle) is None
                &&& bundle_signature_valid(*bundle)
                &&& s.onion() == remote_onion@
                &&& ad@ == signal_public_key(signal_identity_secret@) + encoded(bundle.identity_key@)
                &&& s.ad() == ad@
                &&& s.first_pending()
                &&& s.ephemeral() == Some(eph)
                &&& eph[0] == 5
                &&& forall|m: PreKeyPrivateMaterial, pt: Seq<u8>|
                    opens_bundle(m, *bundle) ==> #[trigger] first_message_opens(
                        m,
                        signal_public_key(signal_identity_secret@),
                        eph@,
                        s.ratchet(),
                        s.ad(),
                        pt,
                    )
            },
            (r is Err && bundle_error(*bundle) is None) ==> (r matches Err(e) && (is_crypto_error_after(
                e,
                "X3DH initiator failed: "@,
            ) || is_crypto_error_after(e, "Ratchet init_sender failed: "@))),
    {
        let ls = match bundle.to_libsignal_bundle() {
            Ok(b) => b,
            Err(e) => return Err(e),
        };
        let one_time = match ls.one_time_prekey {
            Some(o) => Some((o.id, o.public_key)),
            None => None,
        };
        let opk_usable = match ls.one_time_prekey {
            Some(o) => check_key(&o.public_key),
            None => true,
        };
        if !check_key(&ls.identity_key) || !check_key(&ls.signed_prekey.public_key) || !opk_usable {
            return Err(detailed_error("X3DH initiator failed: ", str_to_string("InvalidKey")));
        }
        let (shared_secret, ephemeral_public) = match x3dh_initiator(
            signal_identity_secret,
            ls.identity_key,
            ls.signed_prekey.id,
            ls.signed_prekey.public_key,
            ls.signed_prekey.signature,
            one_time,
        ) {
            Ok(res) => res,
            Err(t) => return Err(detailed_error("X3DH initiator failed: ", t)),
        };
        let bob_spk_raw = array32(&bundle.signed_prekey.public_key);
        let state = match init_sender_state(shared_secret, bob_spk_raw) {
            Ok(st) => st,
            Err(t) => return Err(detailed_error("Ratchet init_sender failed: ", t)),
        };
        let alice_identity = gen_pubkey(signal_identity_secret);
        let bob_identity = encode_vec(&bundle.identity_key);
        let associated_data = concat_keys(&alice_identity, &bob_identity);
        let returned = concat_keys(&alice_identity, &bob_identity);
        proof {
            let alice = signal_public_key(signal_identity_secret@);
            assert forall|m: PreKeyPrivateMaterial, pt: Seq<u8>| opens_bundle(m, *bundle) implies #[trigger] first_message_opens(
                m,
                alice,
                ephemeral_public@,
                state,
                associated_data@,
                pt,
            ) by {
                let opk: Option<Seq<u8>> = match m.prekey_secret {
                    Some(k) => Some(k@),
                    None => None,
                };
                assert(opk_holds(one_time, opk));
                assert(signal_public_key(m.identity_secret@) == ls.identity_key@);
                assert(signal_public_key(m.signed_prekey_secret@) == ls.signed_prekey.public_key@);
                assert(x3dh_responder_secret(m.identity_secret@, m.signed_prekey_secret@, opk, alice, ephemeral_public@)
                    == Some(shared_secret@));
                assert(responder_secret(m, alice, ephemeral_public@) == Some(shared_secret@));
                assert(associated_data@ == alice + signal_public_key(m.identity_secret@));
                if ratchet_encryption(state, pt, associated_data@) is Some {
                    assert(signal_public_key(m.signed_prekey_secret@) == encoded(bob_spk_raw@));
                }
            }
        }
        Ok((
            SignalSession {
                remote_onion,
                state,
                associated_data,
                is_first_message: true,
                ephemeral_public: Some(ephemeral_public),
            },
            returned,
            ephemeral_public,
        ))
    }

    /// The responder's (Bob's) session from Alice's PreKey message: X3DH
    /// with our private material and her identity and ephemeral keys (both
    /// encoded), then a Double Ratchet receiver state on our signed prekey.
    /// Returns the session and its associated data (her encoded identity,
    /// then ours).
    pub fn from_prekey_message_real(
        remote_onion: String,
        private_material: &PreKeyPrivateMaterial,
        alice_identity_public: &[u8; 33],
        alice_ephemeral_public: &[u8; 33],
    ) -> (r: Result<(Self, Vec<u8>)>)
        ensures
            r is Ok <==> responder_secret(*private_material, alice_identity_public@, alice_ephemeral_public@) is Some,
            r matches Ok((s, ad)) ==> {
                &&& s.onion() == remote_onion@
                &&& ad@ == alice_identity_public@ + signal_public_key(private_material.identity_secret@)
                &&& s.ad() == ad@
                &&& !s.first_pending()
                &&& s.ephemeral() is None
                &&& responder_session(s, *private_material, alice_identity_public@, alice_ephemeral_public@)
            },
            r matches Err(e) ==> is_crypto_error_after(e, "X3DH responder failed: "@),
    {
        let one_time = match &private_material.prekey_secret {
            Some(k) => Some(k),
            None => None,
        };
        if !check_key(alice_identity_public) || !check_key(alice_ephemeral_public) {
            return Err(detailed_error("X3DH responder failed: ", str_to_string("InvalidKey")));
        }
        let shared_secret = match x3dh_responder(
            &private_material.identity_secret,
            &private_material.signed_prekey_secret,
            one_time,
            alice_identity_public,
            alice_ephemeral_public,
        ) {
            Ok(s) => s,
            Err(t) => return Err(detailed_error("X3DH responder failed: ", t)),
        };
        let state = init_receiver_state(shared_secret, private_material.signed_prekey_secret);
        let bob_identity = gen_pubkey(&private_material.identity_secret);
        let associated_data = concat_keys(alice_identity_public, &bob_identity);
        let returned = concat_keys(alice_identity_public, &bob_identity);
        Ok((
            SignalSession {
                remote_onion,
                state,
                associated_data,
                is_first_message: false,
                ephemeral_public: None,
            },
            returned,
        ))
    }

    /// A session put back together from its stored parts; refused when the
    /// stored ephemeral key is not 33 bytes long.
    pub fn from_stored(
        remote_onion: String,
        state: libsignal_dezire::ratchet::RatchetState,
        associated_data: Vec<u8>,
        is_first_message: bool,
        ephemeral_public: Option<Vec<u8>>,
    ) -> (r: Result<Self>)
        ensures
            r is Ok <==> (ephemeral_public matches Some(v) ==> v@.len() == 33),
            r matches Ok(s) ==> {
                &&& s.onion() == remote_onion@
                &&& s.ratchet() == state
                &&& s.ad() == associated_data@
                &&& s.first_pending() == is_first_message
                &&& match ephemeral_public {
                    Some(v) => s.ephemeral() matches Some(k) && k@ == v@,
                    None => s.ephemeral() is None,
                }
            },
            r matches Err(e) ==> is_crypto_error(e, "Invalid ephemeral_public length"@),
    {
        let ephemeral = match ephemeral_public {
            Some(v) => {
                if v.len() != 33 {
                    return Err(crypto_error("Invalid ephemeral_public length"));
                }
                let mut a = [0u8; 33];
                let mut i: usize = 0;
                while i < 33
                    invariant
                        v@.len() == 33,
                        i <= 33,
                        forall|k: int| 0 <= k < i ==> a@[k] == v@[k],
                    decreases 33 - i,
                {
                    a[i] = v[i];
                    i = i + 1;
                }
                assert(a@ =~= v@);
                Some(a)
            },
            None => None,
        };
        Ok(SignalSession {
            remote_onion,
            state,
            associated_data,
            is_first_message,
            ephemeral_public: ephemeral,
        })
    }

    /// The associated data for this session.
    pub fn associated_data(&self) -> (r: &[u8])
        ensures
            r@ == self.ad(),
    {
        self.associated_data.as_slice()
    }

    /// The ephemeral public key (only on the initiator's side).
    pub fn ephemeral_public(&self) -> (r: Option<&[u8; 33]>)
        ensures
            match r {
                Some(k) => self.ephemeral() == Some(*k),
                None => self.ephemeral() is None,
            },
    {
        match &self.ephemeral_public {
            Some(k) => Some(k),
            None => None,
        }
    }

    /// Whether the next message encrypted is the session's first.
    pub fn is_first_message(&self) -> (r: bool)
        ensures
            r == self.first_pending(),
    {
        self.is_first_message
    }

    /// The Double Ratchet state, for storing the session.
    pub fn ratchet_state(&self) -> (r: &libsignal_dezire::ratchet::RatchetState)
        ensures
            *r == self.ratchet(),
    {
        &self.state
    }

    /// Encrypt `plaintext` with the Double Ratchet. Returns the encrypted
    /// header, the ciphertext, and whether this was the session's first
    /// message (a PreKey message); after it, no later message is.
    pub fn encrypt(&mut self, plaintext: &[u8]) -> (r: Result<(Vec<u8>, Vec<u8>, bool)>)
        ensures
            final(self).onion() == old(self).onion(),
            final(self).ad() == old(self).ad(),
            final(self).ephemeral() == old(self).ephemeral(),
            r matches Ok((_, _, first)) ==> first == old(self).first_pending() && !final(self).first_pending(),
            r matches Err(e) ==> final(self).first_pending() == old(self).first_pending()
                && is_crypto_error_after(e, "Ratchet encrypt failed: "@),
            match r {
                Ok((h, c, _)) => ratchet_encryption(old(self).ratchet(), plaintext@, old(self).ad()) == Some((h@, c@)),
                Err(_) => ratchet_encryption(old(self).ratchet(), plaintext@, old(self).ad()) is None,
            },
            final(self).ratchet() == ratchet_after_encryption(old(self).ratchet(), plaintext@, old(self).ad()),
    {
        let (header, ciphertext) = match ratchet_encrypt(
            &mut self.state,
            plaintext,
            self.associated_data.as_slice(),
        ) {
            Ok(res) => res,
            Err(t) => return Err(detailed_error("Ratchet encrypt failed: ", t)),
        };
        let was_first = self.is_first_message;
        self.is_first_message = false;
        Ok((header, ciphertext, was_first))
    }

    /// Decrypt a message with the Double Ratchet, given its encrypted
    /// header and ciphertext.
    pub fn decrypt(&mut self, header: &[u8], ciphertext: &[u8]) -> (r: Result<Vec<u8>>)
        ensures
            final(self).onion() == old(self).onion(),
            final(self).ad() == old(self).ad(),
            final(self).ephemeral() == old(self).ephemeral(),
            final(self).first_pending() == old(self).first_pending(),
            match r {
                Ok(pt) => ratchet_decryption(old(self).ratchet(), header@, ciphertext@, old(self).ad()) == Some(pt@),
                Err(e) => ratchet_decryption(old(self).ratchet(), header@, ciphertext@, old(self).ad()) is None
                    && is_crypto_error_after(e, "Ratchet decrypt failed: "@),
            },
    {
        match ratchet_decrypt(&mut self.state, header, ciphertext, self.associated_data.as_slice()) {
            Ok(pt) => Ok(pt),
            Err(t) => Err(detailed_error("Ratchet decrypt failed: ", t)),
        }
    }
}

impl PreKeyPrivateMaterial {
    /// What `{:?}` shows of the material: every secret redacted.
    pub fn redacted_debug(&self) -> (s: String)
        ensures
            s@ == "PreKeyPrivateMaterial { identity_secret: \"[REDACTED]\", signed_prekey_secret: \"[REDACTED]\", prekey_secret: "@
                + (if self.prekey_secret is Some { "Some(\"[REDACTED]\")"@ } else { "None"@ }) + " }"@,
    {
        let mut s = str_to_string(
            "PreKeyPrivateMaterial { identity_secret: \"[REDACTED]\", signed_prekey_secret: \"[REDACTED]\", prekey_secret: ",
        );
        if self.prekey_secret.is_some() {
            s.append("Some(\"[REDACTED]\")");
        } else {
            s.append("None");
        }
        s.append(" }");
        s
    }
}

} // verus!
