//! Signal Protocol primitives, computed by `libsignal-dezire` and
//! `x25519-dalek`: Curve25519 keys, VXEdDSA signatures, X3DH key agreement
//! and the Double Ratchet.
//!
//! Keys and signatures cross this boundary as plain byte arrays. Public keys
//! in their encoded form carry a leading `0x05` byte (33 bytes in all).

use vstd::prelude::*;

verus! {

#[verifier::external_type_specification]
#[verifier::external_body]
pub struct ExRatchetState(libsignal_dezire::ratchet::RatchetState);

#[verifier::external_type_specification]
#[verifier::external_body]
pub struct ExDecodeError(libsignal_dezire::utils::DecodeError);

/// A raw 32-byte key in its encoded form: `0x05` followed by the key.
pub open spec fn encoded(key: Seq<u8>) -> Seq<u8> {
    seq![5u8] + key
}

/// The encoded public key of a Curve25519 secret key.
pub uninterp spec fn signal_public_key(secret: Seq<u8>) -> Seq<u8>;

/// What VXEdDSA verification of `sig` over `msg` under the encoded key
/// `public` gives: the VRF output of a valid signature, `None` otherwise.
pub uninterp spec fn vxeddsa_verification(public: Seq<u8>, msg: Seq<u8>, sig: Seq<u8>) -> Option<
    Seq<u8>,
>;

/// The X3DH shared secret that the responder computes, or `None` when it
/// refuses the keys.
pub uninterp spec fn x3dh_responder_secret(
    identity: Seq<u8>,
    signed_prekey: Seq<u8>,
    one_time_prekey: Option<Seq<u8>>,
    alice_identity: Seq<u8>,
    alice_ephemeral: Seq<u8>,
) -> Option<Seq<u8>>;

/// What a receiving ratchet started from a shared secret on the signed
/// prekey with secret `signed_prekey_secret` gives when it decrypts a
/// message: the plaintext, or `None` when it refuses.
pub uninterp spec fn receiver_decryption(
    shared_secret: Seq<u8>,
    signed_prekey_secret: Seq<u8>,
    header: Seq<u8>,
    ciphertext: Seq<u8>,
    associated_data: Seq<u8>,
) -> Option<Seq<u8>>;

/// Whether `MontgomeryPoint(u).to_edwards(0)` finds an Edwards point: the
/// u-coordinate lies on Curve25519 itself (not on its twist) and is not -1.
pub uninterp spec fn montgomery_on_curve(u: Seq<u8>) -> bool;

/// `curve25519_dalek::montgomery::MontgomeryPoint::to_edwards` with sign 0,
/// asked only whether it finds a point.
#[verifier::external_body]
pub(crate) fn montgomery_to_edwards_exists(u: &[u8; 32]) -> (r: bool)
    ensures
        r == montgomery_on_curve(u@),
{
    curve25519_dalek::montgomery::MontgomeryPoint(*u).to_edwards(0).is_some()
}

/// The u-coordinate that libsignal-dezire reads from an encoded key: the 32
/// bytes after the prefix, with the top bit cleared.
pub open spec fn masked_u(key: Seq<u8>) -> Seq<u8> {
    key.subrange(1, 33).update(31, key[32] & 127u8)
}

/// Whether libsignal-dezire can take an encoded public key without
/// panicking: a key without the `0x05` prefix is refused before its point
/// is read; one with it must have a u-coordinate that maps to the Edwards
/// curve (its conversion `expect`s a point).
pub open spec fn key_usable(key: Seq<u8>) -> bool {
    key.len() == 33 && (key[0] == 5 ==> montgomery_on_curve(masked_u(key)))
}

/// Whether an encoded public key is usable by libsignal-dezire.
pub fn check_key(key: &[u8; 33]) -> (r: bool)
    ensures
        r == key_usable(key@),
{
    if key[0] != 5 {
        return true;
    }
    let mut u = [0u8; 32];
    let mut i: usize = 0;
    while i < 32
        invariant
            i <= 32,
            forall|k: int| 0 <= k < i ==> u@[k] == key@[k + 1],
        decreases 32 - i,
    {
        u[i] = key[i + 1];
        i = i + 1;
    }
    u[31] = key[32] & 127u8;
    assert(u@ =~= masked_u(key@));
    montgomery_to_edwards_exists(&u)
}

/// `utils::encode_public_key`: `0x05` followed by the key.
#[verifier::external_body]
pub(crate) fn encode_public_key(key: &[u8; 32]) -> (r: [u8; 33])
    ensures
        r@ == encoded(key@),
{
    libsignal_dezire::utils::encode_public_key(key)
}

/// `utils::decode_public_key`: the key after its `0x05` byte; refused when
/// the first byte is anything else.
#[verifier::external_body]
pub(crate) fn decode_public_key(key: &[u8; 33]) -> (r: Result<[u8; 32], libsignal_dezire::utils::DecodeError>)
    ensures
        r is Ok <==> key[0] == 5,
        r matches Ok(raw) ==> key@ == encoded(raw@),
{
    libsignal_dezire::utils::decode_public_key(key)
}

/// `vxeddsa::gen_keypair`: a random secret and its encoded public key.
/// Claims that the public key belongs to the secret and, being X25519's
/// public key (the u-coordinate of a multiple of the base point, so on the
/// curve and not -1), is usable.
#[verifier::external_body]
pub(crate) fn gen_keypair() -> (r: ([u8; 32], [u8; 33]))
    ensures
        r.1@ == signal_public_key(r.0@),
        r.1[0] == 5,
        key_usable(r.1@),
{
    let pair = libsignal_dezire::vxeddsa::gen_keypair();
    (pair.secret, pair.public)
}

/// `vxeddsa::gen_pubkey`: the encoded public key of a secret, X25519's
/// public key of it (on the curve and not -1, so usable).
#[verifier::external_body]
pub(crate) fn gen_pubkey(secret: &[u8; 32]) -> (r: [u8; 33])
    ensures
        r@ == signal_public_key(secret@),
        r[0] == 5,
        key_usable(r@),
{
    libsignal_dezire::vxeddsa::gen_pubkey(secret)
}

/// `vxeddsa::vxeddsa_sign`, keeping the 96-byte signature. Its nonce is
/// random, so no clause fixes the signature; claims that a signature it
/// returns verifies under the signer's public key. The error is its debug
/// text.
#[verifier::external_body]
pub(crate) fn vxeddsa_sign(secret: &[u8; 32], message: &[u8]) -> (r: Result<[u8; 96], String>)
    ensures
        r matches Ok(sig) ==> vxeddsa_verification(signal_public_key(secret@), message@, sig@) is Some,
{
    match libsignal_dezire::vxeddsa::vxeddsa_sign(secret, message) {
        Ok(out) => Ok(out.signature),
        Err(e) => Err(format!("{:?}", e)),
    }
}

/// `vxeddsa::vxeddsa_verify`: the VRF output of a valid signature. It
/// panics on a key whose point cannot be read, which `requires` leaves out.
#[verifier::external_body]
pub(crate) fn vxeddsa_verify(public: &[u8; 33], message: &[u8], sig: &[u8; 96]) -> (r: Option<[u8; 32]>)
    requires
        key_usable(public@),
    ensures
        r matches Some(v) ==> vxeddsa_verification(public@, message@, sig@) == Some(v@),
        r is None ==> vxeddsa_verification(public@, message@, sig@) is None,
{
    libsignal_dezire::vxeddsa::vxeddsa_verify(public, message, sig)
}

/// The one-time prekey secret `opk` goes with the one-time prekey of a
/// bundle: present with that public key, or absent with it.
pub open spec fn opk_holds(one_time_prekey: Option<(u32, [u8; 33])>, opk: Option<Seq<u8>>) -> bool {
    match one_time_prekey {
        Some((_, k)) => opk matches Some(s) && s.len() == 32 && signal_public_key(s) == k@,
        None => opk is None,
    }
}

/// `x3dh::x3dh_initiator` on a bundle given field by field; returns the
/// shared secret and the encoded ephemeral public key. The ephemeral key is
/// random, so no clause fixes the result; claims that the bundle's
/// signature verified, that the ephemeral key is a usable encoded key, and
/// (as the crate's README shows) that the responder holding the secrets of
/// the bundle's keys computes the same shared secret from our identity's
/// public key and the ephemeral key. The error is its debug text. It panics
/// on a key whose point cannot be read, which `requires` leaves out.
#[verifier::external_body]
pub(crate) fn x3dh_initiator(
    identity_secret: &[u8; 32],
    identity_key: [u8; 33],
    signed_prekey_id: u32,
    signed_prekey: [u8; 33],
    signature: [u8; 96],
    one_time_prekey: Option<(u32, [u8; 33])>,
) -> (r: Result<([u8; 32], [u8; 33]), String>)
    requires
        key_usable(identity_key@),
        key_usable(signed_prekey@),
        one_time_prekey matches Some((_, k)) ==> key_usable(k@),
    ensures
        r is Ok ==> vxeddsa_verification(identity_key@, signed_prekey@, signature@) is Some,
        r matches Ok((_, eph)) ==> eph[0] == 5 && key_usable(eph@),
        r matches Ok((secret, eph)) ==> forall|ik: Seq<u8>, spk: Seq<u8>, opk: Option<Seq<u8>>|
            #![trigger signal_public_key(ik), signal_public_key(spk), opk_holds(one_time_prekey, opk)]
            ik.len() == 32 && spk.len() == 32 && signal_public_key(ik) == identity_key@ && signal_public_key(spk)
                == signed_prekey@ && opk_holds(one_time_prekey, opk) ==> x3dh_responder_secret(
                ik,
                spk,
                opk,
                signal_public_key(identity_secret@),
                eph@,
            ) == Some(secret@),
{
    let bundle = libsignal_dezire::x3dh::PreKeyBundle {
        identity_key,
        signed_prekey: libsignal_dezire::x3dh::SignedPreKey { id: signed_prekey_id, public_key: signed_prekey, signature },
        one_time_prekey: one_time_prekey.map(|(id, public_key)| libsignal_dezire::x3dh::OneTimePreKey { id, public_key }),
    };
    match libsignal_dezire::x3dh::x3dh_initiator(identity_secret, &bundle) {
        Ok(res) => Ok((res.shared_secret, res.ephemeral_public)),
        Err(e) => Err(format!("{:?}", e)),
    }
}

/// `x3dh::x3dh_responder`: the shared secret, a function of the five keys.
/// The error is its debug text. It panics on a key of Alice's whose point
/// cannot be read, which `requires` leaves out.
#[verifier::external_body]
pub(crate) fn x3dh_responder(
    identity_secret: &[u8; 32],
    signed_prekey_secret: &[u8; 32],
    one_time_prekey_secret: Option<&[u8; 32]>,
    alice_identity: &[u8; 33],
    alice_ephemeral: &[u8; 33],
) -> (r: Result<[u8; 32], String>)
    requires
        key_usable(alice_identity@),
        key_usable(alice_ephemeral@),
    ensures
        r matches Ok(s) ==> x3dh_responder_secret(
            identity_secret@,
            signed_prekey_secret@,
            match one_time_prekey_secret { Some(k) => Some(k@), None => None },
            alice_identity@,
            alice_ephemeral@,
        ) == Some(s@),
        r is Err ==> x3dh_responder_secret(
            identity_secret@,
            signed_prekey_secret@,
            match one_time_prekey_secret { Some(k) => Some(k@), None => None },
            alice_identity@,
            alice_ephemeral@,
        ) is None,
{
    libsignal_dezire::x3dh::x3dh_responder(
        identity_secret,
        signed_prekey_secret,
        one_time_prekey_secret,
        alice_identity,
        alice_ephemeral,
    ).map_err(|e| format!("{:?}", e))
}

/// `ratchet::init_sender_state` towards the receiver's raw public key. Its
/// own DH key is random, so the state is not fixed; claims (as the crate's
/// README shows) that the first message it encrypts is decrypted by a
/// receiving ratchet started from the same shared secret on the secret of
/// that public key. The error is its debug text.
#[verifier::external_body]
pub(crate) fn init_sender_state(
    shared_secret: [u8; 32],
    receiver_public: [u8; 32],
) -> (r: Result<libsignal_dezire::ratchet::RatchetState, String>)
    ensures
        r matches Ok(st) ==> forall|spk: Seq<u8>, pt: Seq<u8>, ad: Seq<u8>|
            #![trigger signal_public_key(spk), ratchet_encryption(st, pt, ad)]
            spk.len() == 32 && signal_public_key(spk) == encoded(receiver_public@) && ratchet_encryption(st, pt, ad)
                is Some ==> receiver_decryption(
                shared_secret@,
                spk,
                (ratchet_encryption(st, pt, ad)->0).0,
                (ratchet_encryption(st, pt, ad)->0).1,
                ad,
            ) == Some(pt),
{
    libsignal_dezire::ratchet::init_sender_state(shared_secret, x25519_dalek::PublicKey::from(receiver_public))
        .map_err(|e| format!("{:?}", e))
}

/// `ratchet::init_receiver_state` on the X25519 key pair of the signed
/// prekey secret (`StaticSecret::from` and `PublicKey::from` turn the bytes
/// into the pair the call takes). The state holds maps with a hasher that
/// each call seeds, so nothing is claimed of the state itself; claims only
/// that its decryption of a message, as `ratchet::decrypt` gives it, is a
/// function of the two secrets and the message (the new state's maps are
/// empty, and its keys come from the secrets alone).
#[verifier::external_body]
pub(crate) fn init_receiver_state(
    shared_secret: [u8; 32],
    signed_prekey_secret: [u8; 32],
) -> (r: libsignal_dezire::ratchet::RatchetState)
    ensures
        forall|h: Seq<u8>, c: Seq<u8>, ad: Seq<u8>|
            #[trigger] ratchet_decryption(r, h, c, ad) == receiver_decryption(
                shared_secret@,
                signed_prekey_secret@,
                h,
                c,
                ad,
            ),
{
    let secret = x25519_dalek::StaticSecret::from(signed_prekey_secret);
    let public = x25519_dalek::PublicKey::from(&secret);
    libsignal_dezire::ratchet::init_receiver_state(shared_secret, (secret, public))
}

/// What `ratchet::encrypt` gives for a plaintext under a state: the
/// encrypted header and the ciphertext, or `None` when it refuses.
pub uninterp spec fn ratchet_encryption(
    state: libsignal_dezire::ratchet::RatchetState,
    plaintext: Seq<u8>,
    associated_data: Seq<u8>,
) -> Option<(Seq<u8>, Seq<u8>)>;

/// The state `ratchet::encrypt` leaves behind for a plaintext under a
/// state: the sending chain key, message counter and header nonce counter
/// advanced (or the state unchanged, when it refuses early).
pub uninterp spec fn ratchet_after_encryption(
    state: libsignal_dezire::ratchet::RatchetState,
    plaintext: Seq<u8>,
    associated_data: Seq<u8>,
) -> libsignal_dezire::ratchet::RatchetState;

/// `ratchet::encrypt`: draws nothing at random (the message key, the IV
/// and the header nonce all come from the state), so whether it succeeds,
/// what it returns and the state it leaves behind are claimed to be a
/// function of the state before the call, the plaintext and the associated
/// data. The error is its debug text.
#[verifier::external_body]
pub(crate) fn ratchet_encrypt(
    state: &mut libsignal_dezire::ratchet::RatchetState,
    plaintext: &[u8],
    associated_data: &[u8],
) -> (r: Result<(Vec<u8>, Vec<u8>), String>)
    ensures
        match r {
            Ok((h, c)) => ratchet_encryption(*old(state), plaintext@, associated_data@) == Some((h@, c@)),
            Err(_) => ratchet_encryption(*old(state), plaintext@, associated_data@) is None,
        },
        *final(state) == ratchet_after_encryption(*old(state), plaintext@, associated_data@),
{
    libsignal_dezire::ratchet::encrypt(state, plaintext, associated_data).map_err(|e| format!("{:?}", e))
}

/// What `ratchet::decrypt` gives for a message under a state: the
/// plaintext, or `None` when it refuses the message.
pub uninterp spec fn ratchet_decryption(
    state: libsignal_dezire::ratchet::RatchetState,
    header: Seq<u8>,
    ciphertext: Seq<u8>,
    associated_data: Seq<u8>,
) -> Option<Seq<u8>>;

/// `ratchet::decrypt`: claims that whether it succeeds, and the plaintext
/// it returns, are a function of the state before the call, the header,
/// the ciphertext and the associated data (the message key is derived from
/// these alone). A ratchet step draws a new random key, so nothing is
/// claimed of the new state. The error is its debug text.
#[verifier::external_body]
pub(crate) fn ratchet_decrypt(
    state: &mut libsignal_dezire::ratchet::RatchetState,
    header: &[u8],
    ciphertext: &[u8],
    associated_data: &[u8],
) -> (r: Result<Vec<u8>, String>)
    ensures
        match r {
            Ok(pt) => ratchet_decryption(*old(state), header@, ciphertext@, associated_data@) == Some(pt@),
            Err(_) => ratchet_decryption(*old(state), header@, ciphertext@, associated_data@) is None,
        },
{
    libsignal_dezire::ratchet::decrypt(state, header, ciphertext, associated_data)
        .map_err(|e| format!("{:?}", e))
}

/// `rand::thread_rng().gen::<u8>()`. Nothing is claimed of the byte.
#[verifier::external_body]
pub(crate) fn random_byte() -> (b: u8) {
    rand::Rng::gen::<u8>(&mut rand::thread_rng())
}

} // verus!
