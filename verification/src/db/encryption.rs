//! Database encryption: the key derived from the passphrase, and its
//! hexadecimal form for SQLCipher.

use vstd::prelude::*;

use crate::codec::hex_digit;
use crate::error::{ChattorError, Result};
use crate::text::{push_char, str_to_string};

verus! {

#[verifier::external_type_specification]
#[verifier::external_body]
pub struct ExArgon2Params(argon2::Params);

/// Argon2 memory cost in KiB (64 MB).
pub const ARGON2_M_COST: u32 = 65536;

/// Argon2 iterations.
pub const ARGON2_T_COST: u32 = 3;

/// Argon2 parallelism.
pub const ARGON2_P_COST: u32 = 4;

/// Length of a derived key in bytes.
pub const KEY_LEN: usize = 32;

/// Lower-case hexadecimal of `data`, two digits a byte.
pub open spec fn hex_text(data: Seq<u8>) -> Seq<char> {
    Seq::new(
        2 * data.len(),
        |k: int|
            if k % 2 == 0 {
                hex_digit(data[k / 2] as int / 16)
            } else {
                hex_digit(data[k / 2] as int % 16)
            },
    )
}

/// `hex::encode`: lower-case hexadecimal, two digits a byte.
#[verifier::external_body]
pub(crate) fn hex_encode(data: &[u8]) -> (r: String)
    ensures
        r@ == hex_text(data@),
{
    hex::encode(data)
}

/// Whether `Params::new(m_cost, t_cost, p_cost, Some(output_len))` accepts
/// its arguments.
pub open spec fn argon2_params_valid(m_cost: u32, t_cost: u32, p_cost: u32, output_len: usize) -> bool {
    &&& m_cost >= 8
    &&& m_cost >= p_cost * 8
    &&& t_cost >= 1
    &&& 1 <= p_cost <= 0xFF_FFFF
    &&& 4 <= output_len <= 0xFFFF_FFFF
}

/// The parameters `Params::new(m_cost, t_cost, p_cost, Some(output_len))` builds.
pub uninterp spec fn argon2_params_of(m_cost: u32, t_cost: u32, p_cost: u32, output_len: usize) -> argon2::Params;

/// The 32-byte Argon2id (version 0x13) hash of a password and salt under `params`.
pub uninterp spec fn argon2id_key(params: argon2::Params, password: Seq<u8>, salt: Seq<u8>) -> Seq<u8>;

/// `Params::new(m_cost, t_cost, p_cost, Some(output_len))`: refused exactly
/// when the source's checks refuse; the error is its text.
#[verifier::external_body]
fn argon2_params(m_cost: u32, t_cost: u32, p_cost: u32, output_len: usize) -> (r: core::result::Result<
    argon2::Params,
    String,
>)
    requires
        p_cost <= 0x1FFF_FFFF,
    ensures
        r is Ok <==> argon2_params_valid(m_cost, t_cost, p_cost, output_len),
        r matches Ok(p) ==> p == argon2_params_of(m_cost, t_cost, p_cost, output_len),
{
    argon2::Params::new(m_cost, t_cost, p_cost, Some(output_len)).map_err(|e| e.to_string())
}

/// Parameters that `Params::new` built, valid, for 32-byte output.
pub open spec fn built_for_32_bytes(params: argon2::Params) -> bool {
    exists|m_cost: u32, t_cost: u32, p_cost: u32|
        argon2_params_valid(m_cost, t_cost, p_cost, 32) && params == #[trigger] argon2_params_of(
            m_cost,
            t_cost,
            p_cost,
            32,
        )
}

/// `Argon2::new(Algorithm::Argon2id, Version::V0x13, params)` and
/// `hash_password_into` a 32-byte key; the error is its text. Claims that a
/// key it returns is a function of the parameters, password and salt, and,
/// for parameters made for 32-byte output, that the call fails exactly
/// where the source's input checks fail: a password over `u32::MAX` bytes,
/// a salt under 8 or over `u32::MAX` bytes.
#[verifier::external_body]
fn argon2id_hash32(params: argon2::Params, password: &[u8], salt: &[u8]) -> (r: core::result::Result<
    [u8; 32],
    String,
>)
    ensures
        r matches Ok(k) ==> k@ == argon2id_key(params, password@, salt@),
        built_for_32_bytes(params) && password@.len() <= 0xFFFF_FFFF && 8 <= salt@.len() <= 0xFFFF_FFFF
            ==> r is Ok,
        built_for_32_bytes(params) && r is Ok ==> password@.len() <= 0xFFFF_FFFF && 8 <= salt@.len()
            <= 0xFFFF_FFFF,
{
    let mut key = [0u8; 32];
    argon2::Argon2::new(argon2::Algorithm::Argon2id, argon2::Version::V0x13, params)
        .hash_password_into(password, salt, &mut key)
        .map(|_| key)
        .map_err(|e| e.to_string())
}

/// The key that `derive_key` gives for a passphrase and salt.
pub open spec fn derived_key(passphrase: Seq<u8>, salt: Seq<u8>) -> Seq<u8> {
    argon2id_key(argon2_params_of(ARGON2_M_COST, ARGON2_T_COST, ARGON2_P_COST, KEY_LEN), passphrase, salt)
}

/// Derive a 32-byte database encryption key from a passphrase using Argon2id
/// (64 MB of memory, 3 iterations, parallelism 4).
pub fn derive_key(passphrase: &[u8], salt: &[u8; 16]) -> (r: Result<[u8; 32]>)
    ensures
        r matches Ok(k) ==> k@ == derived_key(passphrase@, salt@),
        r is Ok <==> passphrase@.len() <= 0xFFFF_FFFF,
        r matches Err(e) ==> e matches ChattorError::Crypto(m) && "Argon2 key derivation failed: "@.is_prefix_of(m@),
{
    let params = match argon2_params(ARGON2_M_COST, ARGON2_T_COST, ARGON2_P_COST, KEY_LEN) {
        Ok(p) => p,
        Err(t) => {
            let mut m = str_to_string("Argon2 params error: ");
            m.append(t.as_str());
            return Err(ChattorError::Crypto(m));
        },
    };
    assert(built_for_32_bytes(params)) by {
        assert(argon2_params_valid(ARGON2_M_COST, ARGON2_T_COST, ARGON2_P_COST, 32));
    }
    match argon2id_hash32(params, passphrase, salt) {
        Ok(k) => Ok(k),
        Err(t) => {
            let mut m = str_to_string("Argon2 key derivation failed: ");
            m.append(t.as_str());
            Err(ChattorError::Crypto(m))
        },
    }
}

/// The same passphrase and salt always give the same key.
pub proof fn lemma_derive_key_deterministic(k1: Seq<u8>, k2: Seq<u8>, passphrase: Seq<u8>, salt: Seq<u8>)
    requires
        k1 == derived_key(passphrase, salt),
        k2 == derived_key(passphrase, salt),
    ensures
        k1 == k2,
{
}

/// The SQLCipher statements that set a raw 32-byte key:
/// `PRAGMA key = "x'<hex>'";PRAGMA cipher_page_size = 4096;`.
pub open spec fn key_pragma_text(key: Seq<u8>) -> Seq<char> {
    "PRAGMA key = \"x'"@ + hex_text(key) + "'\";PRAGMA cipher_page_size = 4096;"@
}

/// The SQLCipher statements that set `key` on a connection.
pub fn key_pragma(key: &[u8; 32]) -> (r: String)
    ensures
        r@ == key_pragma_text(key@),
{
    let mut r = str_to_string("PRAGMA key = \"x'");
    let hex = hex_encode(key);
    r.append(hex.as_str());
    r.append("'\";PRAGMA cipher_page_size = 4096;");
    r
}

/// `s` as the body of an SQL string literal: every `'` doubled.
pub open spec fn sql_quoted(s: Seq<char>) -> Seq<char>
    decreases s.len(),
{
    if s.len() == 0 {
        Seq::empty()
    } else if s.last() == '\'' {
        sql_quoted(s.drop_last()) + seq!['\'', '\'']
    } else {
        sql_quoted(s.drop_last()).push(s.last())
    }
}

/// Double every `'` of `s`.
pub fn quote_sql(s: &str) -> (r: String)
    ensures
        r@ == sql_quoted(s@),
{
    let n = s.unicode_len();
    let mut r = String::new();
    let mut i: usize = 0;
    while i < n
        invariant
            n == s@.len(),
            i <= n,
            r@ == sql_quoted(s@.take(i as int)),
        decreases n - i,
    {
        let c = s.get_char(i);
        assert(s@.take(i + 1).drop_last() =~= s@.take(i as int));
        if c == '\'' {
            push_char(&mut r, '\'');
            push_char(&mut r, '\'');
        } else {
            push_char(&mut r, c);
        }
        assert(r@ =~= sql_quoted(s@.take(i + 1)));
        i = i + 1;
    }
    assert(s@.take(n as int) =~= s@);
    r
}

/// The statements that copy an open plain database into a new encrypted one
/// at `new_path` under `key`.
pub open spec fn export_sql_text(new_path: Seq<char>, key: Seq<u8>) -> Seq<char> {
    "ATTACH DATABASE '"@ + sql_quoted(new_path) + "' AS encrypted KEY \"x'"@ + hex_text(key)
        + "'\";SELECT sqlcipher_export('encrypted');DETACH DATABASE encrypted;"@
}

/// The SQLCipher statements that export a plain database to an encrypted
/// copy at `new_path`.
pub fn export_sql(new_path: &str, key: &[u8; 32]) -> (r: String)
    ensures
        r@ == export_sql_text(new_path@, key@),
{
    let mut r = str_to_string("ATTACH DATABASE '");
    let quoted = quote_sql(new_path);
    r.append(quoted.as_str());
    r.append("' AS encrypted KEY \"x'");
    let hex = hex_encode(key);
    r.append(hex.as_str());
    r.append("'\";SELECT sqlcipher_export('encrypted');DETACH DATABASE encrypted;");
    r
}

} // verus!
