//! The daemon: what it checks before it starts, and its RPC socket.

pub mod rpc;
pub mod socket;

use vstd::prelude::*;
use vstd::utf8::encode_utf8;

use crate::crypto::primitives::random_byte;
use crate::db::encryption::{hex_encode, hex_text};
use crate::error::{is_crypto_error, ChattorError, Result};
use crate::text::{str_to_string, trim_str, trimmed};

verus! {

/// Shortest passphrase accepted, in bytes after trimming.
pub const MIN_PASSPHRASE_LEN: usize = 8;

/// Why a database passphrase is refused, if it is: it is blank, or shorter
/// than eight bytes once surrounding white space is trimmed.
pub open spec fn passphrase_problem(passphrase: Seq<char>) -> Option<Seq<char>> {
    if trimmed(passphrase).len() == 0 {
        Some("Passphrase cannot be empty"@)
    } else if encode_utf8(trimmed(passphrase)).len() < MIN_PASSPHRASE_LEN {
        Some("Passphrase must be at least 8 characters"@)
    } else {
        None
    }
}

/// Check a database passphrase before a key is derived from it.
pub fn validate_passphrase(passphrase: &str) -> (r: Result<()>)
    ensures
        match passphrase_problem(passphrase@) {
            Some(m) => r matches Err(e) && is_crypto_error(e, m),
            None => r is Ok,
        },
{
    let t = trim_str(passphrase);
    if t.unicode_len() == 0 {
        return Err(ChattorError::Crypto(str_to_string("Passphrase cannot be empty")));
    }
    let bytes = t.as_bytes().len();
    if bytes < MIN_PASSPHRASE_LEN {
        return Err(ChattorError::Crypto(str_to_string("Passphrase must be at least 8 characters")));
    }
    Ok(())
}

/// A passphrase may be read only from a descriptor other than stdin,
/// stdout and stderr.
pub fn check_passphrase_fd(fd: i32) -> (r: Result<()>)
    ensures
        fd >= 3 <==> r is Ok,
        r matches Err(e) ==> is_crypto_error(e, "passphrase-fd must be >= 3 (cannot use stdin/stdout/stderr)"@),
{
    if fd < 3 {
        return Err(ChattorError::Crypto(str_to_string("passphrase-fd must be >= 3 (cannot use stdin/stdout/stderr)")));
    }
    Ok(())
}

/// A fresh token for authenticating RPC clients: 32 random bytes in
/// lower-case hexadecimal (64 characters).
pub fn new_auth_token() -> (t: String)
    ensures
        exists|bytes: Seq<u8>| bytes.len() == 32 && t@ == hex_text(bytes),
{
    let mut token = [0u8; 32];
    let mut i: usize = 0;
    while i < 32
        invariant
            i <= 32,
        decreases 32 - i,
    {
        token[i] = random_byte();
        i = i + 1;
    }
    hex_encode(&token)
}

} // verus!
