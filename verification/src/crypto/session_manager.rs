//! Signal session orchestration: establishing sessions from PreKey bundles
//! and PreKey messages, and encrypting and decrypting the crypto fields of
//! text messages. Where sessions and PreKey material are kept is up to the
//! caller: these functions take what was loaded and return what is to be
//! stored.

use vstd::prelude::*;

use crate::codec::{base64_decode, base64_decoding, base64_encode, base64_encoding, base64_error_text};
use crate::crypto::primitives::{
    decode_public_key, encoded, gen_keypair, gen_pubkey, ratchet_after_encryption, ratchet_decryption, ratchet_encryption, receiver_decryption,
    signal_public_key,
};
use crate::crypto::signal::{
    bundle_error, bundle_signature_valid, first_message_opens, first_message_plaintext, generated_for, opens_bundle, is_crypto_error_after, responder_secret,
    signature_check_error, PreKeyBundle, PreKeyPrivateMaterial, SignalSession,
};
use crate::error::{is_crypto_error, ChattorError, Result};
use crate::protocol::message::{SignalMessageType, TextMessage, X3DHInitData};
use crate::text::{push_signed_decimal, signed_decimal, str_to_string};
use vstd::slice::slice_to_vec;
use vstd::utf8::encode_utf8;

verus! {

/// Crypto fields for an outgoing `TextMessage`. `x3dh_init` is present only
/// for the initiator handshake; absent for normal sends.
pub struct OutgoingCrypto {
    pub header: Vec<u8>,
    pub ciphertext: Vec<u8>,
    pub is_prekey: bool,
    pub x3dh_init: Option<X3DHInitData>,
}

/// Seconds since the Unix epoch, from the system clock (zero if the clock is
/// before the epoch). Nothing is claimed of the value.
#[verifier::external_body]
pub(crate) fn now_secs() -> i64 {
    std::time::SystemTime::now().duration_since(std::time::UNIX_EPOCH).unwrap_or_default().as_secs() as i64
}

/// The text of the plaintext payload of a handshake message sent at
/// `sent_at`: JSON with an empty content and no ephemeral time to live.
pub open spec fn handshake_json(sent_at: i64) -> Seq<char> {
    "{\"content\":\"\",\"sent_at\":"@ + signed_decimal(sent_at as int) + ",\"message_type\":\"handshake\"}"@
}

/// The plaintext payload of a handshake message sent at `sent_at`, as bytes.
pub fn handshake_plaintext(sent_at: i64) -> (r: Vec<u8>)
    ensures
        r@ == encode_utf8(handshake_json(sent_at)),
{
    let mut s = str_to_string("{\"content\":\"\",\"sent_at\":");
    push_signed_decimal(&mut s, sent_at);
    s.append(",\"message_type\":\"handshake\"}");
    slice_to_vec(s.as_str().as_bytes())
}

/// A `Crypto` error whose message is `prefix` followed by `detail`.
fn joined_error(prefix: &str, detail: &str) -> (e: ChattorError)
    ensures
        is_crypto_error(e, prefix@ + detail@),
{
    let mut m = str_to_string(prefix);
    m.append(detail);
    ChattorError::Crypto(m)
}

/// Encrypt `plaintext` for the session with a peer, if there is one (else
/// nothing is sent). Returns the session to store and the fields of the
/// outgoing message, which carry no X3DH data.
pub fn encrypt_for(session: Option<SignalSession>, plaintext: &[u8]) -> (r: Result<
    Option<(SignalSession, OutgoingCrypto)>,
>)
    ensures
        session is None ==> r matches Ok(None),
        session matches Some(s) ==> {
            &&& r matches Ok(sent) ==> (sent matches Some((s2, out)) && s2.onion() == s.onion() && s2.ad()
                == s.ad() && out.x3dh_init is None && out.is_prekey == s.first_pending() && !s2.first_pending())
            &&& r matches Err(e) ==> is_crypto_error_after(e, "Ratchet encrypt failed: "@)
            &&& r is Ok <==> ratchet_encryption(s.ratchet(), plaintext@, s.ad()) is Some
            &&& r matches Ok(Some((_, out))) ==> ratchet_encryption(s.ratchet(), plaintext@, s.ad()) == Some(
                (out.header@, out.ciphertext@),
            )
            &&& r matches Ok(Some((s2, _))) ==> s2.ratchet() == ratchet_after_encryption(
                s.ratchet(),
                plaintext@,
                s.ad(),
            )
        },
{
    let mut s = match session {
        Some(s) => s,
        None => return Ok(None),
    };
    let (header, ciphertext, is_prekey) = match s.encrypt(plaintext) {
        Ok(res) => res,
        Err(e) => return Err(e),
    };
    Ok(Some((s, OutgoingCrypto { header, ciphertext, is_prekey, x3dh_init: None })))
}

/// The encrypted header and the ciphertext of an incoming text message,
/// decoded from base64.
pub fn decode_ciphertext(msg: &TextMessage) -> (r: Result<(Vec<u8>, Vec<u8>)>)
    ensures
        match base64_decoding(msg.signal_header@) {
            None => r matches Err(e) && is_crypto_error(
                e,
                "Failed to decode header: "@ + base64_error_text(msg.signal_header@),
            ),
            Some(h) => match base64_decoding(msg.signal_ciphertext@) {
                None => r matches Err(e) && is_crypto_error(
                    e,
                    "Failed to decode ciphertext: "@ + base64_error_text(msg.signal_ciphertext@),
                ),
                Some(c) => r matches Ok((hh, cc)) && hh@ == h && cc@ == c,
            },
        },
{
    let header = match base64_decode(msg.signal_header.as_str()) {
        Ok(h) => h,
        Err(t) => return Err(joined_error("Failed to decode header: ", t.as_str())),
    };
    let ciphertext = match base64_decode(msg.signal_ciphertext.as_str()) {
        Ok(c) => c,
        Err(t) => return Err(joined_error("Failed to decode ciphertext: ", t.as_str())),
    };
    Ok((header, ciphertext))
}

/// What decoding one base64 key of `X3DHInitData` gives: the 33-byte key,
/// or the message of the error.
pub open spec fn decoded_key(text: Seq<char>, what: Seq<char>, name: Seq<char>) -> core::result::Result<
    Seq<u8>,
    Seq<char>,
> {
    match base64_decoding(text) {
        None => Err("Failed to decode "@ + what + ": "@ + base64_error_text(text)),
        Some(k) => if k.len() == 33 {
            Ok(k)
        } else {
            Err(name + " has wrong length (expected 33)"@)
        },
    }
}

/// A 33-byte key from its base64 text; `what` names it in a decoding error
/// and `name` in a length error.
fn decode_key33(text: &str, what: &str, name: &str) -> (r: Result<[u8; 33]>)
    ensures
        match decoded_key(text@, what@, name@) {
            Ok(k) => r matches Ok(a) && a@ == k,
            Err(m) => r matches Err(e) && is_crypto_error(e, m),
        },
{
    let bytes = match base64_decode(text) {
        Ok(b) => b,
        Err(t) => {
            let mut m = str_to_string("Failed to decode ");
            m.append(what);
            m.append(": ");
            m.append(t.as_str());
            return Err(ChattorError::Crypto(m));
        },
    };
    if bytes.len() != 33 {
        return Err(joined_error(name, " has wrong length (expected 33)"));
    }
    let mut a = [0u8; 33];
    let mut i: usize = 0;
    while i < 33
        invariant
            bytes@.len() == 33,
            i <= 33,
            forall|k: int| 0 <= k < i ==> a@[k] == bytes@[k],
        decreases 33 - i,
    {
        a[i] = bytes[i];
        i = i + 1;
    }
    assert(a@ =~= bytes@);
    Ok(a)
}

/// What the X3DH data of a PreKey message gives: the sender's identity and
/// ephemeral keys (33 bytes each), or the message of the error.
pub open spec fn handshake_keys_of(msg: TextMessage) -> core::result::Result<(Seq<u8>, Seq<u8>), Seq<char>> {
    match msg.x3dh_init {
        None => Err("PreKey message from "@ + msg.from_onion@ + " missing X3DH init data"@),
        Some(init) => match decoded_key(
            init.sender_identity_key@,
            "sender identity key"@,
            "Sender identity key"@,
        ) {
            Err(m) => Err(m),
            Ok(ik) => match decoded_key(
                init.sender_ephemeral_key@,
                "sender ephemeral key"@,
                "Sender ephemeral key"@,
            ) {
                Err(m) => Err(m),
                Ok(ek) => Ok((ik, ek)),
            },
        },
    }
}

/// The sender's identity and ephemeral keys from the X3DH data of a PreKey
/// message.
pub fn handshake_keys(msg: &TextMessage) -> (r: Result<([u8; 33], [u8; 33])>)
    ensures
        match handshake_keys_of(*msg) {
            Ok((ik, ek)) => r matches Ok((a, b)) && a@ == ik && b@ == ek,
            Err(m) => r matches Err(e) && is_crypto_error(e, m),
        },
{
    let init = match &msg.x3dh_init {
        Some(init) => init,
        None => {
            let mut m = str_to_string("PreKey message from ");
            m.append(msg.from_onion.as_str());
            m.append(" missing X3DH init data");
            return Err(ChattorError::Crypto(m));
        },
    };
    let identity = match decode_key33(init.sender_identity_key.as_str(), "sender identity key", "Sender identity key") {
        Ok(k) => k,
        Err(e) => return Err(e),
    };
    let ephemeral = match decode_key33(init.sender_ephemeral_key.as_str(), "sender ephemeral key", "Sender ephemeral key") {
        Ok(k) => k,
        Err(e) => return Err(e),
    };
    Ok((identity, ephemeral))
}


/// Open the first message of a session that the peer started: the
/// responder's session from our stored PreKey material and the peer's
/// handshake keys, and the message decrypted with it. Returns the session
/// (to be stored; the material is then spent) and the plaintext.
pub fn open_first_message(
    peer: &str,
    keys: &([u8; 33], [u8; 33]),
    material: Option<&PreKeyPrivateMaterial>,
    header: &[u8],
    ciphertext: &[u8],
) -> (r: Result<(SignalSession, Vec<u8>)>)
    ensures
        material is None ==> (r matches Err(e) && is_crypto_error(e, "No stored PreKey material for "@ + peer@)),
        (material matches Some(m) && responder_secret(*m, keys.0@, keys.1@) is None)
            ==> (r matches Err(e) && is_crypto_error_after(e, "X3DH responder failed: "@)),
        r matches Ok((s, _)) ==> material matches Some(m) && {
            &&& s.onion() == peer@
            &&& s.ad() == keys.0@ + signal_public_key(m.identity_secret@)
            &&& !s.first_pending()
            &&& s.ephemeral() is None
        },
        (r is Err && (material matches Some(m) && responder_secret(*m, keys.0@, keys.1@) is Some))
            ==> (r matches Err(e) && is_crypto_error_after(e, "Ratchet decrypt failed: "@)),
        material matches Some(m) ==> {
            &&& r is Ok <==> first_message_plaintext(*m, keys.0@, keys.1@, header@, ciphertext@) is Some
            &&& r matches Ok((_, pt)) ==> first_message_plaintext(*m, keys.0@, keys.1@, header@, ciphertext@)
                == Some(pt@)
        },
{
    let m = match material {
        Some(m) => m,
        None => return Err(joined_error("No stored PreKey material for ", peer)),
    };
    let (mut session, _ad) = match SignalSession::from_prekey_message_real(str_to_string(peer), m, &keys.0, &keys.1) {
        Ok(res) => res,
        Err(e) => return Err(e),
    };
    let plaintext = match session.decrypt(header, ciphertext) {
        Ok(pt) => pt,
        Err(e) => return Err(e),
    };
    Ok((session, plaintext))
}

/// Decrypt the crypto fields of an incoming text message. `session` is the
/// stored session with the sender, if any; `material` is the PreKey
/// material stored for the sender, used only to open a PreKey message when
/// there is no session. Returns the session to store and the plaintext, or
/// nothing when there is no session and the message is not a PreKey
/// message. The header and ciphertext are decoded first, in that order.
pub fn decrypt_incoming(
    session: Option<SignalSession>,
    material: Option<&PreKeyPrivateMaterial>,
    msg: &TextMessage,
) -> (r: Result<Option<(SignalSession, Vec<u8>)>>)
    ensures
        base64_decoding(msg.signal_header@) is None ==> (r matches Err(e) && is_crypto_error(
            e,
            "Failed to decode header: "@ + base64_error_text(msg.signal_header@),
        )),
        base64_decoding(msg.signal_header@) is Some && base64_decoding(msg.signal_ciphertext@) is None ==> (
        r matches Err(e) && is_crypto_error(
            e,
            "Failed to decode ciphertext: "@ + base64_error_text(msg.signal_ciphertext@),
        )),
        base64_decoding(msg.signal_header@) is Some && base64_decoding(msg.signal_ciphertext@) is Some ==> {
            match session {
                Some(s) => {
                    &&& r matches Ok(opened) ==> (opened matches Some((s2, _)) && s2.onion() == s.onion()
                        && s2.ad() == s.ad())
                    &&& r matches Err(e) ==> is_crypto_error_after(e, "Ratchet decrypt failed: "@)
                    &&& r is Ok <==> ratchet_decryption(
                        s.ratchet(),
                        base64_decoding(msg.signal_header@)->0,
                        base64_decoding(msg.signal_ciphertext@)->0,
                        s.ad(),
                    ) is Some
                    &&& r matches Ok(Some((_, pt))) ==> ratchet_decryption(
                        s.ratchet(),
                        base64_decoding(msg.signal_header@)->0,
                        base64_decoding(msg.signal_ciphertext@)->0,
                        s.ad(),
                    ) == Some(pt@)
                },
                None => if msg.signal_type is PrekeyMessage {
                    match handshake_keys_of(*msg) {
                        Err(m) => r matches Err(e) && is_crypto_error(e, m),
                        Ok((ik, ek)) => {
                            &&& material is None ==> (r matches Err(e) && is_crypto_error(
                                e,
                                "No stored PreKey material for "@ + msg.from_onion@,
                            ))
                            &&& (material matches Some(m) && responder_secret(*m, ik, ek) is None) ==> (
                            r matches Err(e) && is_crypto_error_after(e, "X3DH responder failed: "@))
                            &&& r matches Ok(opened) ==> (opened matches Some((s2, _)) && material matches Some(m)
                                && s2.onion() == msg.from_onion@ && s2.ad() == ik + signal_public_key(
                                m.identity_secret@,
                            ) && !s2.first_pending())
                            &&& material matches Some(m) ==> {
                                &&& r is Ok <==> first_message_plaintext(
                                    *m,
                                    ik,
                                    ek,
                                    base64_decoding(msg.signal_header@)->0,
                                    base64_decoding(msg.signal_ciphertext@)->0,
                                ) is Some
                                &&& r matches Ok(Some((_, pt))) ==> first_message_plaintext(
                                    *m,
                                    ik,
                                    ek,
                                    base64_decoding(msg.signal_header@)->0,
                                    base64_decoding(msg.signal_ciphertext@)->0,
                                ) == Some(pt@)
                            }
                        },
                    }
                } else {
                    r matches Ok(None)
                },
            }
        },
{
    let (header, ciphertext) = match decode_ciphertext(msg) {
        Ok(hc) => hc,
        Err(e) => return Err(e),
    };
    match session {
        Some(mut s) => {
            let plaintext = match s.decrypt(header.as_slice(), ciphertext.as_slice()) {
                Ok(pt) => pt,
                Err(e) => return Err(e),
            };
            Ok(Some((s, plaintext)))
        },
        None => {
            let is_prekey = match msg.signal_type {
                SignalMessageType::PrekeyMessage => true,
                SignalMessageType::Message => false,
            };
            if !is_prekey {
                return Ok(None);
            }
            let keys = match handshake_keys(msg) {
                Ok(k) => k,
                Err(e) => return Err(e),
            };
            match open_first_message(msg.from_onion.as_str(), &keys, material, header.as_slice(), ciphertext.as_slice()) {
                Ok(opened) => Ok(Some(opened)),
                Err(e) => Err(e),
            }
        },
    }
}

/// The acceptor's side of a friend request: a dedicated Signal identity and
/// a PreKey bundle for it. Returns the bundle (for the accept message), its
/// private material and the identity secret (both to be stored).
pub fn create_accept_bundle() -> (r: Result<(PreKeyBundle, PreKeyPrivateMaterial, [u8; 32])>)
    ensures
        r matches Ok((b, m, secret)) ==> {
            &&& generated_for(b, m, secret@, b.identity_key@)
            &&& encoded(b.identity_key@) == signal_public_key(secret@)
            &&& bundle_signature_valid(b)
            &&& opens_bundle(m, b)
        },
        r matches Err(e) ==> is_crypto_error(e, "VXEdDSA signing failed"@),
{
    let (secret, public) = gen_keypair();
    let raw = match decode_public_key(&public) {
        Ok(raw) => raw,
        Err(_) => return Err(ChattorError::Crypto(str_to_string("Failed to decode signal identity public key"))),
    };
    let (bundle, material) = match PreKeyBundle::generate_real(&secret, &raw) {
        Ok(res) => res,
        Err(e) => return Err(e),
    };
    proof {
        crate::crypto::signal::lemma_generated_bundle_verifies(bundle, material, secret@, raw@);
    }
    Ok((bundle, material, secret))
}

/// The handshake fields `out` open, for the holder of the material `m`, to
/// `payload`: its X3DH keys decode, and the first-message decryption with
/// them gives `payload` back.
pub open spec fn handshake_opens(m: PreKeyPrivateMaterial, out: OutgoingCrypto, payload: Seq<u8>) -> bool {
    out.x3dh_init matches Some(init) && decoded_key(
        init.sender_identity_key@,
        "sender identity key"@,
        "Sender identity key"@,
    ) matches Ok(ik) && decoded_key(init.sender_ephemeral_key@, "sender ephemeral key"@, "Sender ephemeral key"@)
        matches Ok(ek) && first_message_plaintext(m, ik, ek, out.header@, out.ciphertext@) == Some(payload)
}

/// The initiator's side once a friend request was accepted: check the
/// bundle's signature, start a session with our Signal identity (the stored
/// one, or a new one), and encrypt the handshake PreKey message sent at
/// `sent_at`. Returns the session (to be stored) and the crypto fields of
/// the message, with the X3DH data the responder needs.
pub fn establish_from_accept(
    peer: &str,
    bundle: &PreKeyBundle,
    stored_identity_secret: Option<[u8; 32]>,
    sent_at: i64,
) -> (r: Result<(SignalSession, OutgoingCrypto)>)
    ensures
        signature_check_error(*bundle) matches Some(m) ==> (r matches Err(e) && is_crypto_error(e, m)),
        (signature_check_error(*bundle) is None && !bundle_signature_valid(*bundle)) ==> (r matches Err(e)
            && is_crypto_error(e, "PreKeyBundle from "@ + peer@ + " has invalid VXEdDSA signature"@)),
        r matches Ok((s, out)) ==> {
            &&& bundle_signature_valid(*bundle)
            &&& bundle_error(*bundle) is None
            &&& s.onion() == peer@
            &&& !s.first_pending()
            &&& out.is_prekey
            &&& out.x3dh_init matches Some(init) && s.ephemeral() matches Some(eph)
                && init.sender_ephemeral_key@ == base64_encoding(eph@)
                && exists|k: Seq<u8>| {
                    &&& init.sender_identity_key@ == base64_encoding(#[trigger] signal_public_key(k))
                    &&& s.ad() == signal_public_key(k) + encoded(bundle.identity_key@)
                    &&& (stored_identity_secret matches Some(sk) ==> k == sk@)
                }
            // The fields encrypt the handshake payload under the session's
            // associated data, with the ratchet state the session started in.
            &&& exists|start: libsignal_dezire::ratchet::RatchetState| #[trigger] ratchet_encryption(
                start,
                encode_utf8(handshake_json(sent_at)),
                s.ad(),
            ) == Some((out.header@, out.ciphertext@)) && s.ratchet() == ratchet_after_encryption(
                start,
                encode_utf8(handshake_json(sent_at)),
                s.ad(),
            )
            // Whoever holds the secrets of the bundle's keys opens it.
            &&& forall|m: PreKeyPrivateMaterial| #[trigger] opens_bundle(m, *bundle) ==> handshake_opens(
                m,
                out,
                encode_utf8(handshake_json(sent_at)),
            )
        },
{
    let valid = match bundle.verify_signature() {
        Ok(v) => v,
        Err(e) => return Err(e),
    };
    if !valid {
        let mut m = str_to_string("PreKeyBundle from ");
        m.append(peer);
        m.append(" has invalid VXEdDSA signature");
        return Err(ChattorError::Crypto(m));
    }
    let secret = match stored_identity_secret {
        Some(k) => k,
        None => gen_keypair().0,
    };
    let unused = PreKeyPrivateMaterial { identity_secret: [0u8; 32], signed_prekey_secret: [0u8; 32], prekey_secret: None };
    let (mut session, _ad, ephemeral) = match SignalSession::from_prekey_bundle_real(str_to_string(peer), bundle, &unused, &secret) {
        Ok(res) => res,
        Err(e) => return Err(e),
    };
    let our_identity = gen_pubkey(&secret);
    let plaintext = handshake_plaintext(sent_at);
    let ghost start = session.ratchet();
    let (header, ciphertext, is_prekey) = match session.encrypt(plaintext.as_slice()) {
        Ok(res) => res,
        Err(e) => return Err(e),
    };
    assert(ratchet_encryption(start, encode_utf8(handshake_json(sent_at)), session.ad()) == Some((header@, ciphertext@)));
    let x3dh_init = if is_prekey {
        Some(X3DHInitData {
            sender_identity_key: base64_encode(&our_identity),
            sender_ephemeral_key: base64_encode(&ephemeral),
        })
    } else {
        None
    };
    let out = OutgoingCrypto { header, ciphertext, is_prekey, x3dh_init };
    proof {
        let payload = encode_utf8(handshake_json(sent_at));
        assert forall|m: PreKeyPrivateMaterial| #[trigger] opens_bundle(m, *bundle) implies handshake_opens(m, out, payload) by {
            assert(first_message_opens(m, signal_public_key(secret@), ephemeral@, start, session.ad(), payload));
        }
    }
    Ok((session, out))
}

/// The handshake reaches its holder: for the PreKey message that carries
/// the handshake fields (its X3DH data, header and ciphertext), the
/// sender's keys decode and the first-message plaintext that
/// `decrypt_incoming` returns, with no session and the material behind the
/// bundle, is the handshake payload.
pub proof fn lemma_handshake_opens_at_holder(
    m: PreKeyPrivateMaterial,
    out: OutgoingCrypto,
    msg: TextMessage,
    payload: Seq<u8>,
)
    requires
        handshake_opens(m, out, payload),
        msg.x3dh_init == out.x3dh_init,
        base64_decoding(msg.signal_header@) == Some(out.header@),
        base64_decoding(msg.signal_ciphertext@) == Some(out.ciphertext@),
    ensures
        handshake_keys_of(msg) matches Ok((ik, ek)) && first_message_plaintext(
            m,
            ik,
            ek,
            base64_decoding(msg.signal_header@)->0,
            base64_decoding(msg.signal_ciphertext@)->0,
        ) == Some(payload),
{
}

/// The text message that carries encrypted fields: header and ciphertext
/// in base64, the message type telling a PreKey message from a later one,
/// and the X3DH data when there is any. Decoding its fields gives the
/// header and ciphertext back.
pub fn wire_text_message(
    from_onion: &str,
    to_onion: &str,
    out: OutgoingCrypto,
    timestamp: i64,
    message_id: u128,
) -> (r: TextMessage)
    ensures
        r.from_onion@ == from_onion@,
        r.to_onion@ == to_onion@,
        r.signal_header@ == base64_encoding(out.header@),
        r.signal_ciphertext@ == base64_encoding(out.ciphertext@),
        base64_decoding(r.signal_header@) == Some(out.header@),
        base64_decoding(r.signal_ciphertext@) == Some(out.ciphertext@),
        r.signal_type == if out.is_prekey { SignalMessageType::PrekeyMessage } else { SignalMessageType::Message },
        r.timestamp == timestamp,
        r.message_id == message_id,
        r.x3dh_init == out.x3dh_init,
{
    let signal_header = base64_encode(out.header.as_slice());
    let signal_ciphertext = base64_encode(out.ciphertext.as_slice());
    TextMessage {
        from_onion: str_to_string(from_onion),
        to_onion: str_to_string(to_onion),
        signal_header,
        signal_ciphertext,
        signal_type: if out.is_prekey {
            SignalMessageType::PrekeyMessage
        } else {
            SignalMessageType::Message
        },
        timestamp,
        message_id,
        x3dh_init: out.x3dh_init,
    }
}

} // verus!
