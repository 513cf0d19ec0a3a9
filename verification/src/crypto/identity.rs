//! The user's identity: an Ed25519 key pair. Its public key is also the key
//! of the user's v3 `.onion` address.

use vstd::prelude::*;

use crate::crypto::ed25519::{
    ed25519_accepts, ed25519_generate_secret, ed25519_public, ed25519_public_key, ed25519_rejection_text, ed25519_sign,
    ed25519_signature, ed25519_verify,
};
use crate::codec::{base64_decoding, base64_encode, base64_encoding};
use crate::error::{is_crypto_error, ChattorError, Result};
use crate::protocol::friend_code::{onion_of, pubkey_to_onion};
use crate::text::str_to_string;

verus! {

/// User identity key pair (Ed25519), kept as its secret and public key bytes.
pub struct IdentityKeypair {
    signing_key: [u8; 32],
    verifying_key: [u8; 32],
}

impl IdentityKeypair {
    #[verifier::type_invariant]
    spec fn keys_match(self) -> bool {
        self.verifying_key == ed25519_public_key(self.signing_key@)
    }

    /// The secret key bytes.
    pub closed spec fn secret_bytes(self) -> Seq<u8> {
        self.signing_key@
    }

    /// The public key bytes: the public key of the secret key.
    pub open spec fn public_bytes(self) -> Seq<u8> {
        ed25519_public_key(self.secret_bytes())@
    }

    /// Generate a new random identity key pair.
    pub fn generate() -> (r: Result<Self>)
        ensures
            r is Ok,
    {
        let secret = ed25519_generate_secret();
        Ok(Self::from_signing_key(secret))
    }

    /// Create an identity from an existing secret (signing) key.
    pub fn from_signing_key(signing_key: [u8; 32]) -> (r: Self)
        ensures
            r.secret_bytes() == signing_key@,
    {
        let verifying_key = ed25519_public(&signing_key);
        IdentityKeypair { signing_key, verifying_key }
    }

    /// Serialize the key pair: the 32 secret key bytes.
    pub fn to_bytes(&self) -> (r: Vec<u8>)
        ensures
            r@ == self.secret_bytes(),
    {
        let mut bytes: Vec<u8> = Vec::new();
        let mut i: usize = 0;
        while i < 32
            invariant
                i <= 32,
                bytes@ == self.signing_key@.take(i as int),
            decreases 32 - i,
        {
            bytes.push(self.signing_key[i]);
            i = i + 1;
            assert(bytes@ =~= self.signing_key@.take(i as int));
        }
        assert(self.signing_key@.take(32) =~= self.signing_key@);
        bytes
    }

    /// Deserialize a key pair from its 32 secret key bytes.
    pub fn from_bytes(bytes: &[u8]) -> (r: Result<Self>)
        ensures
            bytes@.len() == 32 ==> (r matches Ok(k) && k.secret_bytes() == bytes@),
            bytes@.len() != 32 ==> (r matches Err(e) && is_crypto_error(e, "Invalid identity key length"@)),
    {
        if bytes.len() != 32 {
            return Err(ChattorError::Crypto(str_to_string("Invalid identity key length")));
        }
        let mut secret = [0u8; 32];
        let mut i: usize = 0;
        while i < 32
            invariant
                bytes@.len() == 32,
                i <= 32,
                forall|k: int| 0 <= k < i ==> secret@[k] == bytes@[k],
            decreases 32 - i,
        {
            secret[i] = bytes[i];
            i = i + 1;
        }
        assert(secret@ =~= bytes@);
        Ok(Self::from_signing_key(secret))
    }

    /// The v3 `.onion` address of this identity.
    pub fn to_onion_address(&self) -> (r: String)
        ensures
            r@ == onion_of(self.public_bytes()),
    {
        proof {
            use_type_invariant(self);
        }
        match pubkey_to_onion(&self.verifying_key) {
            Ok(onion) => onion,
            Err(_) => String::new(),
        }
    }

    /// The public key.
    pub fn public_key(&self) -> (r: [u8; 32])
        ensures
            r@ == self.public_bytes(),
    {
        proof {
            use_type_invariant(self);
        }
        self.verifying_key
    }

    /// The secret key.
    pub fn secret_key(&self) -> (r: [u8; 32])
        ensures
            r@ == self.secret_bytes(),
    {
        self.signing_key
    }

    /// The public key in standard base64.
    pub fn public_key_base64(&self) -> (r: String)
        ensures
            r@ == base64_encoding(self.public_bytes()),
            base64_decoding(r@) == Some(self.public_bytes()),
    {
        proof {
            use_type_invariant(self);
        }
        base64_encode(&self.verifying_key)
    }

    /// Sign a message. The signature verifies under this identity's public key.
    pub fn sign(&self, message: &[u8]) -> (sig: [u8; 64])
        ensures
            sig == ed25519_signature(self.secret_bytes(), message@),
            ed25519_accepts(self.public_bytes(), message@, sig@),
    {
        proof {
            use_type_invariant(self);
        }
        ed25519_sign(&self.signing_key, message)
    }

    /// Verify a signature against this identity's public key.
    pub fn verify(&self, message: &[u8], signature: &[u8; 64]) -> (r: Result<()>)
        ensures
            r is Ok == ed25519_accepts(self.public_bytes(), message@, signature@),
            r matches Err(e) ==> is_crypto_error(
                e,
                "Signature verification failed: "@ + ed25519_rejection_text(self.public_bytes(), message@, signature@),
            ),
    {
        proof {
            use_type_invariant(self);
        }
        match ed25519_verify(&self.verifying_key, message, signature) {
            Ok(()) => Ok(()),
            Err(text) => {
                let mut m = str_to_string("Signature verification failed: ");
                m.append(text.as_str());
                Err(ChattorError::Crypto(m))
            },
        }
    }
}

} // verus!
