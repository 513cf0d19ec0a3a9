//! Friend codes: a v3 `.onion` address written as 32 words, one per byte of
//! the Ed25519 public key the address encodes.

use vstd::prelude::*;
use vstd::string::*;
use vstd::utf8::{encode_utf8, is_ascii_chars, is_ascii_chars_encode_utf8};

use crate::codec::{base32_decode, base32_decoding, base32_encode, base32_encoding, sha3_256, sha3_256_digest};
use crate::protocol::words::{lemma_word_is_table, lemma_word_shape, lemma_word_value, lookup_word, push_word, word, word_value};
use crate::error::{is_crypto_error, ChattorError, Result};
use crate::codec::{is_b32_upper, lemma_base32_roundtrip};
use crate::text::{ascii_lower, ascii_upper, leading_white, trailing_white, chars_of, decimal, lowercased, push_char, push_decimal, str_to_string, to_lowercase, to_uppercase, trim_str, trimmed, uppercased};
pub use crate::protocol::words::WORDS;

verus! {

// ---------------------------------------------------------------------------
// Splitting a code into words
// ---------------------------------------------------------------------------

/// Characters that separate words in a friend code.
pub open spec fn is_separator(c: char) -> bool {
    c == ' ' || c == '-'
}

/// The words of `s`: the maximal runs of non-separator characters, in order.
pub open spec fn split_words(s: Seq<char>) -> Seq<Seq<char>>
    decreases s.len(),
{
    if s.len() == 0 {
        Seq::empty()
    } else {
        let init = split_words(s.drop_last());
        let c = s.last();
        if is_separator(c) {
            init
        } else if s.len() >= 2 && !is_separator(s[s.len() - 2]) {
            init.drop_last().push(init.last().push(c))
        } else {
            init.push(seq![c])
        }
    }
}

/// Appending a separator does not change the words.
proof fn lemma_split_push_separator(s: Seq<char>, c: char)
    requires
        is_separator(c),
    ensures
        split_words(s.push(c)) == split_words(s),
{
    assert(s.push(c).drop_last() =~= s);
}

/// Appending a word after a separator (or at the start) adds that word.
proof fn lemma_split_push_word(s: Seq<char>, w: Seq<char>)
    requires
        w.len() > 0,
        forall|k: int| 0 <= k < w.len() ==> !is_separator(#[trigger] w[k]),
        s.len() == 0 || is_separator(s.last()),
    ensures
        split_words(s + w) == split_words(s).push(w),
    decreases w.len(),
{
    let sw = s + w;
    assert(sw.drop_last() =~= s + w.drop_last());
    if w.len() == 1 {
        assert(s + w.drop_last() =~= s);
        assert(seq![w[0]] =~= w);
    } else {
        lemma_split_push_word(s, w.drop_last());
        assert(sw[sw.len() - 2] == w[w.len() - 2]);
        assert(w.drop_last().push(w.last()) =~= w);
    }
}

// ---------------------------------------------------------------------------
// Words to bytes
// ---------------------------------------------------------------------------

/// The position of the first word of `ws`, at or after `k`, that is not in the list.
pub open spec fn first_unknown_from(ws: Seq<Seq<char>>, k: nat) -> Option<nat>
    decreases ws.len() - k,
{
    if k >= ws.len() {
        None
    } else if word_value(ws[k as int]) is None {
        Some(k)
    } else {
        first_unknown_from(ws, k + 1)
    }
}

/// The bytes that a list of known words stands for.
pub open spec fn bytes_of_words(ws: Seq<Seq<char>>) -> Seq<u8> {
    ws.map_values(|w: Seq<char>| word_value(w)->Some_0)
}

/// The normal form of a code before it is split: trimmed, then lower-cased.
pub open spec fn normalized_code(code: Seq<char>) -> Seq<char> {
    lowercased(trimmed(code))
}

pub open spec fn word_count_message(n: nat) -> Seq<char> {
    "Friend code must be 32 words, got "@ + decimal(n)
}

pub open spec fn unknown_word_message(w: Seq<char>) -> Seq<char> {
    "Unknown word in friend code: '"@ + w + "'"@
}

/// The 32 bytes a friend code spells, or the message that rejects it.
pub open spec fn code_bytes(code: Seq<char>) -> core::result::Result<Seq<u8>, Seq<char>> {
    let ws = split_words(normalized_code(code));
    if ws.len() != 32 {
        Err(word_count_message(ws.len()))
    } else {
        match first_unknown_from(ws, 0) {
            Some(k) => Err(unknown_word_message(ws[k as int])),
            None => Ok(bytes_of_words(ws)),
        }
    }
}

// ---------------------------------------------------------------------------
// Bytes to words
// ---------------------------------------------------------------------------

/// The separator written before the word for byte `i`: none before the
/// first, a space between groups of four, a dash inside a group.
pub open spec fn separator_before(i: nat) -> Seq<char> {
    if i == 0 {
        Seq::empty()
    } else if i % 4 == 0 {
        seq![' ']
    } else {
        seq!['-']
    }
}

/// The code for the first `n` bytes of `pk`.
pub open spec fn code_prefix(pk: Seq<u8>, n: nat) -> Seq<char>
    decreases n,
{
    if n == 0 {
        Seq::empty()
    } else {
        code_prefix(pk, (n - 1) as nat) + separator_before((n - 1) as nat) + word(pk[n - 1])
    }
}

/// The friend code of a public key: its bytes as words, in groups of four
/// joined by dashes, the groups separated by spaces.
pub open spec fn code_of_pubkey(pk: Seq<u8>) -> Seq<char> {
    code_prefix(pk, pk.len())
}

// ---------------------------------------------------------------------------
// Onion addresses
// ---------------------------------------------------------------------------

pub open spec fn onion_suffix() -> Seq<char> {
    seq!['.', 'o', 'n', 'i', 'o', 'n']
}

/// The bytes `.onion checksum`.
pub open spec fn checksum_label() -> Seq<u8> {
    seq![0x2eu8, 0x6fu8, 0x6eu8, 0x69u8, 0x6fu8, 0x6eu8, 0x20u8, 0x63u8, 0x68u8, 0x65u8, 0x63u8, 0x6bu8, 0x73u8, 0x75u8, 0x6du8]
}

/// The 35 bytes a v3 address encodes: key, two checksum bytes, version 3.
pub open spec fn onion_raw(pk: Seq<u8>) -> Seq<u8> {
    pk + sha3_256_digest(checksum_label() + pk + seq![3u8])@.take(2) + seq![3u8]
}

/// The v3 `.onion` address of a 32-byte Ed25519 public key.
pub open spec fn onion_of(pk: Seq<u8>) -> Seq<char> {
    lowercased(base32_encoding(onion_raw(pk))) + onion_suffix()
}

/// The part of an address before `.onion`, if it ends so.
pub open spec fn onion_body(onion: Seq<char>) -> Option<Seq<char>> {
    if onion.len() >= 6 && onion.skip(onion.len() - 6) == onion_suffix() {
        Some(onion.take(onion.len() - 6))
    } else {
        None
    }
}

/// The public key a v3 address carries, or the message that rejects it.
/// The checksum is not checked; the version byte is.
pub open spec fn pubkey_of_onion(onion: Seq<char>) -> core::result::Result<Seq<u8>, Seq<char>> {
    match onion_body(onion) {
        None => Err("Missing .onion suffix"@),
        Some(addr) => {
            if encode_utf8(addr).len() != 56 {
                Err("Invalid onion address length: expected 56 chars, got "@ + decimal(encode_utf8(addr).len()))
            } else {
                match base32_decoding(uppercased(addr)) {
                    None => Err("Invalid base32 in onion address"@),
                    Some(d) => {
                        if d.len() != 35 {
                            Err("Invalid decoded length: expected 35 bytes, got "@ + decimal(d.len()))
                        } else if d[34] != 3 {
                            Err("Not a v3 onion address"@)
                        } else {
                            Ok(d.take(32))
                        }
                    },
                }
            }
        },
    }
}

/// The friend code of an address, or the message that rejects the address.
pub open spec fn friend_code_of_onion(onion: Seq<char>) -> core::result::Result<Seq<char>, Seq<char>> {
    match pubkey_of_onion(onion) {
        Ok(pk) => Ok(code_of_pubkey(pk)),
        Err(m) => Err(m),
    }
}

/// The address a friend code names, or the message that rejects the code.
pub open spec fn onion_of_code(code: Seq<char>) -> core::result::Result<Seq<char>, Seq<char>> {
    match code_bytes(code) {
        Ok(pk) => Ok(onion_of(pk)),
        Err(m) => Err(m),
    }
}

/// `res` reports `expected`: the same value, or a `Crypto` error with that message.
pub open spec fn reports<T: View>(res: Result<T>, expected: core::result::Result<T::V, Seq<char>>) -> bool {
    match res {
        Ok(v) => expected == Ok::<T::V, Seq<char>>(v@),
        Err(e) => expected matches Err(m) && is_crypto_error(e, m),
    }
}

fn crypto_error(msg: &str) -> (e: ChattorError)
    ensures
        is_crypto_error(e, msg@),
{
    ChattorError::Crypto(str_to_string(msg))
}

fn crypto_error_with_count(msg: &str, n: u64) -> (e: ChattorError)
    ensures
        is_crypto_error(e, msg@ + decimal(n as nat)),
{
    let mut m = str_to_string(msg);
    push_decimal(&mut m, n);
    ChattorError::Crypto(m)
}


// ---------------------------------------------------------------------------
// Laws
// ---------------------------------------------------------------------------

/// A character that can occur in a generated friend code.
pub open spec fn is_code_char(c: char) -> bool {
    ('a' <= c <= 'z') || c == ' ' || c == '-'
}

proof fn lemma_code_prefix(pk: Seq<u8>, n: nat)
    requires
        n <= pk.len(),
    ensures
        forall|k: int| 0 <= k < code_prefix(pk, n).len() ==> is_code_char(#[trigger] code_prefix(pk, n)[k]),
        n > 0 ==> code_prefix(pk, n).len() > 0 && 'a' <= code_prefix(pk, n)[0] <= 'z'
            && 'a' <= code_prefix(pk, n).last() <= 'z',
        split_words(code_prefix(pk, n)) == Seq::new(n, |i: int| word(pk[i])),
    decreases n,
{
    if n > 0 {
        let m = (n - 1) as nat;
        lemma_code_prefix(pk, m);
        let p = code_prefix(pk, m);
        let sep = separator_before(m);
        let w = word(pk[m as int]);
        lemma_word_shape(pk[m as int]);
        let full = code_prefix(pk, n);
        assert(full == p + sep + w);
        if m == 0 {
            assert(p =~= Seq::<char>::empty());
            assert(p + sep =~= Seq::<char>::empty());
            lemma_split_push_word(p + sep, w);
        } else {
            let c = sep[0];
            assert(sep =~= seq![c]);
            assert(p + sep =~= p.push(c));
            lemma_split_push_separator(p, c);
            lemma_split_push_word(p + sep, w);
        }
        assert(split_words(full) =~= Seq::new(n, |i: int| word(pk[i])));
        assert forall|k: int| 0 <= k < full.len() implies is_code_char(#[trigger] full[k]) by {
            if k < p.len() {
                assert(full[k] == p[k]);
            } else if k < p.len() + sep.len() {
                assert(full[k] == sep[k - p.len()]);
            } else {
                assert(full[k] == w[k - p.len() - sep.len()]);
            }
        }
        if m > 0 {
            assert(full[0] == p[0]);
        } else {
            assert(full[0] == w[0]);
        }
        assert(full.last() == w[2]);
    }
}

proof fn lemma_no_unknown_word(ws: Seq<Seq<char>>, k: nat)
    requires
        forall|i: int| 0 <= i < ws.len() ==> #[trigger] word_value(ws[i]) is Some,
    ensures
        first_unknown_from(ws, k) is None,
    decreases ws.len() - k,
{
    if k < ws.len() {
        lemma_no_unknown_word(ws, k + 1);
    }
}

/// Every generated code is its own normal form, and its words spell the key.
pub proof fn lemma_code_bytes_of_code(pk: Seq<u8>)
    requires
        pk.len() == 32,
    ensures
        code_bytes(code_of_pubkey(pk)) == Ok::<Seq<u8>, Seq<char>>(pk),
{
    let code = code_of_pubkey(pk);
    lemma_code_prefix(pk, 32);
    // Trimming does nothing: the code starts and ends with a letter.
    assert(leading_white(code) == 0);
    assert(code.drop_last().len() + 1 == code.len());
    assert(trailing_white(code) == 0);
    assert(code.skip(0) =~= code);
    assert(trimmed(code) =~= code);
    // Lower-casing does nothing: the code is lower-case ASCII.
    assert(is_ascii_chars(code)) by {
        assert forall|k: int| 0 <= k < code.len() implies '\0' <= #[trigger] code[k] <= '\u{7f}' by {
            assert(is_code_char(code[k]));
        }
    }
    assert(lowercased(code) =~= code) by {
        let lower = code.map_values(|c: char| ascii_lower(c));
        assert forall|k: int| 0 <= k < code.len() implies #[trigger] lower[k] == code[k] by {
            assert(is_code_char(code[k]));
        }
    }
    let ws = split_words(code);
    assert(ws =~= Seq::new(32, |i: int| word(pk[i])));
    assert forall|i: int| 0 <= i < ws.len() implies #[trigger] word_value(ws[i]) is Some by {
        lemma_word_value(pk[i]);
    }
    lemma_no_unknown_word(ws, 0);
    assert(bytes_of_words(ws) =~= pk) by {
        assert forall|i: int| 0 <= i < 32 implies #[trigger] bytes_of_words(ws)[i] == pk[i] by {
            lemma_word_value(pk[i]);
        }
    }
}

/// A friend code is 32 words, the word for each byte of the key in turn,
/// in groups of four: a space comes before every fourth word after the
/// first, a dash before the others.
pub proof fn lemma_code_shape(pk: Seq<u8>)
    requires
        pk.len() == 32,
    ensures
        split_words(code_of_pubkey(pk)) == Seq::new(32, |i: int| word(pk[i])),
        forall|n: nat| 0 < n <= 32 ==> #[trigger] code_prefix(pk, n) == code_prefix(pk, (n - 1) as nat) + (
        if (n - 1) % 4 == 0 && n > 1 {
            seq![' ']
        } else if n > 1 {
            seq!['-']
        } else {
            Seq::empty()
        }) + word(pk[n - 1]),
{
    lemma_code_prefix(pk, 32);
    assert(split_words(code_of_pubkey(pk)) =~= Seq::new(32, |i: int| word(pk[i])));
}

/// A v3 address built from a key carries that key.
pub proof fn lemma_onion_roundtrip(pk: Seq<u8>)
    requires
        pk.len() == 32,
    ensures
        pubkey_of_onion(onion_of(pk)) == Ok::<Seq<u8>, Seq<char>>(pk),
{
    let raw = onion_raw(pk);
    let digest = sha3_256_digest(checksum_label() + pk + seq![3u8]);
    assert(digest@.len() == 32);
    assert(raw.len() == 35);
    lemma_base32_roundtrip(raw);
    let enc = base32_encoding(raw);
    assert(enc.len() == 56);
    assert(is_ascii_chars(enc)) by {
        assert forall|k: int| 0 <= k < enc.len() implies '\0' <= #[trigger] enc[k] <= '\u{7f}' by {
            assert(is_b32_upper(enc[k]));
        }
    }
    let lower = enc.map_values(|c: char| ascii_lower(c));
    assert(lowercased(enc) == lower);
    assert(is_ascii_chars(lower)) by {
        assert forall|k: int| 0 <= k < lower.len() implies '\0' <= #[trigger] lower[k] <= '\u{7f}' by {
            assert(is_b32_upper(enc[k]));
        }
    }
    let onion = onion_of(pk);
    assert(onion == lower + onion_suffix());
    assert(onion.skip(onion.len() - 6) =~= onion_suffix());
    assert(onion.take(onion.len() - 6) =~= lower);
    is_ascii_chars_encode_utf8(lower);
    assert(uppercased(lower) =~= enc) by {
        let upper = lower.map_values(|c: char| ascii_upper(c));
        assert forall|k: int| 0 <= k < enc.len() implies #[trigger] upper[k] == enc[k] by {
            assert(is_b32_upper(enc[k]));
        }
    }
    assert(raw[34] == 3);
    assert(raw.take(32) =~= pk);
}

/// Round trip of friend codes: the code of an address built from a key
/// names that address again, and decoding the code gives the address back.
pub proof fn lemma_friend_code_roundtrip(pk: Seq<u8>)
    requires
        pk.len() == 32,
    ensures
        friend_code_of_onion(onion_of(pk)) == Ok::<Seq<char>, Seq<char>>(code_of_pubkey(pk)),
        onion_of_code(code_of_pubkey(pk)) == Ok::<Seq<char>, Seq<char>>(onion_of(pk)),
{
    lemma_onion_roundtrip(pk);
    lemma_code_bytes_of_code(pk);
}

/// Whatever address a friend code was made from, the code decodes to the
/// canonical v3 address of the same key.
pub proof fn lemma_code_names_key(onion: Seq<char>)
    requires
        friend_code_of_onion(onion) is Ok,
    ensures
        onion_of_code(friend_code_of_onion(onion)->Ok_0) == Ok::<Seq<char>, Seq<char>>(
            onion_of(pubkey_of_onion(onion)->Ok_0),
        ),
{
    let pk = pubkey_of_onion(onion)->Ok_0;
    assert(pk.len() == 32);
    lemma_code_bytes_of_code(pk);
}

/// A character of the lower-case v3 address alphabet.
pub open spec fn is_onion_char(c: char) -> bool {
    ('a' <= c <= 'z') || ('2' <= c <= '7')
}

/// The address of a key is 56 lower-case alphabet characters followed by
/// `.onion`.
pub proof fn lemma_onion_shape(pk: Seq<u8>)
    requires
        pk.len() == 32,
    ensures
        onion_of(pk).len() == 62,
        onion_of(pk).skip(56) == onion_suffix(),
        forall|k: int| 0 <= k < 56 ==> is_onion_char(#[trigger] onion_of(pk)[k]),
{
    let raw = onion_raw(pk);
    let digest = sha3_256_digest(checksum_label() + pk + seq![3u8]);
    assert(digest@.len() == 32);
    assert(raw.len() == 35);
    lemma_base32_roundtrip(raw);
    let enc = base32_encoding(raw);
    assert(is_ascii_chars(enc)) by {
        assert forall|k: int| 0 <= k < enc.len() implies '\0' <= #[trigger] enc[k] <= '\u{7f}' by {
            assert(is_b32_upper(enc[k]));
        }
    }
    let lower = enc.map_values(|c: char| ascii_lower(c));
    assert(lowercased(enc) == lower);
    let onion = onion_of(pk);
    assert(onion == lower + onion_suffix());
    assert(onion.skip(56) =~= onion_suffix());
    assert forall|k: int| 0 <= k < 56 implies is_onion_char(#[trigger] onion[k]) by {
        assert(onion[k] == lower[k]);
        assert(is_b32_upper(enc[k]));
    }
}

/// A code of 32 known words (after trimming, lower-casing and splitting
/// on spaces and dashes) decodes to a 62-character lower-case address
/// ending in `.onion`, and the friend code of that address is the same 32
/// words, in order, in groups of four.
pub proof fn lemma_code_decodes_to_address(code: Seq<char>)
    requires
        split_words(normalized_code(code)).len() == 32,
        forall|i: int|
            0 <= i < split_words(normalized_code(code)).len() ==> #[trigger] word_value(
                split_words(normalized_code(code))[i],
            ) is Some,
    ensures
        ({
            let ws = split_words(normalized_code(code));
            let o = onion_of_code(code)->Ok_0;
            &&& onion_of_code(code) is Ok
            &&& o.len() == 62
            &&& o.skip(56) == onion_suffix()
            &&& forall|k: int| 0 <= k < 56 ==> is_onion_char(#[trigger] o[k])
            &&& friend_code_of_onion(o) == Ok::<Seq<char>, Seq<char>>(code_of_pubkey(bytes_of_words(ws)))
            &&& split_words(code_of_pubkey(bytes_of_words(ws))) == ws
        }),
{
    let ws = split_words(normalized_code(code));
    lemma_no_unknown_word(ws, 0);
    let pk = bytes_of_words(ws);
    assert(code_bytes(code) == Ok::<Seq<u8>, Seq<char>>(pk));
    assert(pk.len() == 32);
    lemma_onion_shape(pk);
    lemma_friend_code_roundtrip(pk);
    lemma_code_shape(pk);
    assert(split_words(code_of_pubkey(pk)) =~= ws) by {
        assert forall|i: int| 0 <= i < 32 implies #[trigger] split_words(code_of_pubkey(pk))[i] == ws[i] by {
            let b = word_value(ws[i])->Some_0;
            assert(pk[i] == b);
            lemma_word_is_table(b, ws[i]);
        }
    }
}

/// A code passes validation exactly when it decodes to an address.
pub proof fn lemma_validation_agrees_with_decoding(code: Seq<char>)
    ensures
        (code_bytes(code) is Ok) <==> (onion_of_code(code) is Ok),
{
}

// ---------------------------------------------------------------------------
// Executable conversions
// ---------------------------------------------------------------------------

/// Extract the 32-byte Ed25519 public key from a v3 `.onion` address.
pub fn onion_to_pubkey(onion: &str) -> (r: Result<[u8; 32]>)
    ensures
        reports(r, pubkey_of_onion(onion@)),
{
    let cs = chars_of(onion);
    let n = cs.len();
    if n < 6 || cs[n - 6] != '.' || cs[n - 5] != 'o' || cs[n - 4] != 'n' || cs[n - 3] != 'i'
        || cs[n - 2] != 'o' || cs[n - 1] != 'n' {
        assert(onion_body(onion@) is None) by {
            if n >= 6 {
                let tail = onion@.skip(n - 6);
                if tail == onion_suffix() {
                    assert(tail[0] == cs@[n - 6]);
                    assert(tail[1] == cs@[n - 5]);
                    assert(tail[2] == cs@[n - 4]);
                    assert(tail[3] == cs@[n - 3]);
                    assert(tail[4] == cs@[n - 2]);
                    assert(tail[5] == cs@[n - 1]);
                }
            }
        }
        return Err(crypto_error("Missing .onion suffix"));
    }
    assert(onion@.skip(n - 6) =~= onion_suffix());
    let addr = onion.substring_char(0, n - 6);
    assert(addr@ == onion@.take(n - 6));
    let addr_len = addr.as_bytes().len();
    if addr_len != 56 {
        return Err(crypto_error_with_count("Invalid onion address length: expected 56 chars, got ", addr_len as u64));
    }
    let upper = to_uppercase(addr);
    let decoded = match base32_decode(upper.as_str()) {
        Some(d) => d,
        None => {
            return Err(crypto_error("Invalid base32 in onion address"));
        },
    };
    if decoded.len() != 35 {
        return Err(crypto_error_with_count("Invalid decoded length: expected 35 bytes, got ", decoded.len() as u64));
    }
    if decoded[34] != 3 {
        return Err(crypto_error("Not a v3 onion address"));
    }
    let mut pk = [0u8; 32];
    let mut i: usize = 0;
    while i < 32
        invariant
            decoded@.len() == 35,
            i <= 32,
            forall|k: int| 0 <= k < i ==> pk@[k] == decoded@[k],
        decreases 32 - i,
    {
        pk[i] = decoded[i];
        i = i + 1;
    }
    assert(pk@ =~= decoded@.take(32));
    Ok(pk)
}

/// Reconstruct a v3 `.onion` address from a 32-byte Ed25519 public key.
pub fn pubkey_to_onion(pk: &[u8; 32]) -> (r: Result<String>)
    ensures
        r matches Ok(s) && s@ == onion_of(pk@),
{
    // SHA3-256(".onion checksum" || pubkey || version)
    let label: [u8; 15] = [0x2e, 0x6f, 0x6e, 0x69, 0x6f, 0x6e, 0x20, 0x63, 0x68, 0x65, 0x63, 0x6b, 0x73, 0x75, 0x6d];
    let mut input: Vec<u8> = Vec::new();
    let mut i: usize = 0;
    while i < 15
        invariant
            i <= 15,
            input@ == label@.take(i as int),
        decreases 15 - i,
    {
        input.push(label[i]);
        i = i + 1;
        assert(input@ =~= label@.take(i as int));
    }
    let mut i: usize = 0;
    while i < 32
        invariant
            i <= 32,
            input@ == label@ + pk@.take(i as int),
        decreases 32 - i,
    {
        input.push(pk[i]);
        i = i + 1;
        assert(input@ =~= label@ + pk@.take(i as int));
    }
    input.push(3u8);
    assert(label@ =~= checksum_label());
    assert(input@ =~= checksum_label() + pk@ + seq![3u8]);
    let hash = sha3_256(input.as_slice());

    // pubkey(32) || checksum(2) || version(1)
    let mut raw: Vec<u8> = Vec::new();
    let mut i: usize = 0;
    while i < 32
        invariant
            i <= 32,
            raw@ == pk@.take(i as int),
        decreases 32 - i,
    {
        raw.push(pk[i]);
        i = i + 1;
        assert(raw@ =~= pk@.take(i as int));
    }
    raw.push(hash[0]);
    raw.push(hash[1]);
    raw.push(3u8);
    assert(raw@ =~= onion_raw(pk@));

    let encoded = base32_encode(raw.as_slice());
    let mut onion = to_lowercase(encoded.as_str());
    push_char(&mut onion, '.');
    push_char(&mut onion, 'o');
    push_char(&mut onion, 'n');
    push_char(&mut onion, 'i');
    push_char(&mut onion, 'o');
    push_char(&mut onion, 'n');
    assert(onion@ =~= onion_of(pk@));
    Ok(onion)
}

/// Encode a `.onion` address as a human-readable friend code.
///
/// Extracts the 32-byte Ed25519 public key from the v3 address and writes
/// each byte as a word: 8 groups of 4 words, groups separated by spaces,
/// words within a group by dashes.
pub fn onion_to_friend_code(onion: &str) -> (r: Result<String>)
    ensures
        reports(r, friend_code_of_onion(onion@)),
{
    let pk = onion_to_pubkey(onion)?;
    let mut code = String::new();
    let mut i: usize = 0;
    while i < 32
        invariant
            i <= 32,
            code@ == code_prefix(pk@, i as nat),
        decreases 32 - i,
    {
        if i > 0 {
            if i % 4 == 0 {
                push_char(&mut code, ' ');
            } else {
                push_char(&mut code, '-');
            }
        }
        push_word(&mut code, pk[i]);
        i = i + 1;
        assert(code@ =~= code_prefix(pk@, i as nat));
    }
    Ok(code)
}

/// The words of a code after trimming and lower-casing it.
fn code_words(code: &str) -> (ws: Vec<Vec<char>>)
    ensures
        ws@.map_values(|w: Vec<char>| w@) == split_words(normalized_code(code@)),
{
    let t = trim_str(code);
    let lower = to_lowercase(t);
    let cs = chars_of(lower.as_str());
    let mut words: Vec<Vec<char>> = Vec::new();
    let mut cur: Vec<char> = Vec::new();
    let mut i: usize = 0;
    while i < cs.len()
        invariant
            cs@ == normalized_code(code@),
            i <= cs@.len(),
            cur@.len() > 0 <==> (i > 0 && !is_separator(cs@[i - 1])),
            split_words(cs@.take(i as int)) == words@.map_values(|w: Vec<char>| w@) + (if cur@.len() > 0 {
                seq![cur@]
            } else {
                Seq::<Seq<char>>::empty()
            }),
        decreases cs@.len() - i,
    {
        let c = cs[i];
        let ghost before = cs@.take(i as int);
        assert(cs@.take(i + 1) =~= before.push(c));
        assert(cs@.take(i + 1).drop_last() =~= before);
        if c == ' ' || c == '-' {
            if cur.len() > 0 {
                let w = cur;
                words.push(w);
                cur = Vec::new();
            }
            assert(words@.map_values(|w: Vec<char>| w@) + Seq::<Seq<char>>::empty() =~= words@.map_values(|w: Vec<char>| w@));
        } else {
            let ghost had = cur@.len() > 0;
            let ghost old_cur = cur@;
            cur.push(c);
            proof {
                if i > 0 {
                    assert(cs@.take(i + 1)[i - 1] == cs@[i - 1]);
                }
                if !had {
                    assert(cur@ =~= seq![c]);
                }
            }
            assert(words@.map_values(|w: Vec<char>| w@) + seq![cur@] =~= split_words(cs@.take(i + 1))) by {
                let init = split_words(before);
                if had {
                    assert(init =~= words@.map_values(|w: Vec<char>| w@) + seq![old_cur]);
                    assert(init.drop_last() =~= words@.map_values(|w: Vec<char>| w@));
                } else {
                    assert(init =~= words@.map_values(|w: Vec<char>| w@));
                }
            }
        }
        i = i + 1;
    }
    if cur.len() > 0 {
        words.push(cur);
    }
    assert(cs@.take(cs@.len() as int) =~= cs@);
    assert(words@.map_values(|w: Vec<char>| w@) =~= split_words(normalized_code(code@)));
    words
}

/// The 32 bytes a friend code spells.
fn decode_code(code: &str) -> (r: Result<[u8; 32]>)
    ensures
        reports(r, code_bytes(code@)),
{
    let words = code_words(code);
    let ghost ws = words@.map_values(|w: Vec<char>| w@);
    if words.len() != 32 {
        return Err(crypto_error_with_count("Friend code must be 32 words, got ", words.len() as u64));
    }
    let mut pk = [0u8; 32];
    let mut i: usize = 0;
    while i < 32
        invariant
            words@.len() == 32,
            ws == words@.map_values(|w: Vec<char>| w@),
            ws == split_words(normalized_code(code@)),
            i <= 32,
            first_unknown_from(ws, 0) == first_unknown_from(ws, i as nat),
            forall|k: int| 0 <= k < i ==> word_value(#[trigger] ws[k]) == Some(pk@[k]),
        decreases 32 - i,
    {
        match lookup_word(&words[i]) {
            Some(b) => {
                pk[i] = b;
            },
            None => {
                assert(ws[i as int] == words@[i as int]@);
                let mut m = str_to_string("Unknown word in friend code: '");
                let w = &words[i];
                let mut j: usize = 0;
                while j < w.len()
                    invariant
                        j <= w@.len(),
                        m@ == "Unknown word in friend code: '"@ + w@.take(j as int),
                    decreases w@.len() - j,
                {
                    push_char(&mut m, w[j]);
                    j = j + 1;
                    assert(m@ =~= "Unknown word in friend code: '"@ + w@.take(j as int));
                }
                assert(w@.take(w@.len() as int) =~= w@);
                m.append("'");
                return Err(ChattorError::Crypto(m));
            },
        }
        i = i + 1;
    }
    assert(pk@ =~= bytes_of_words(ws));
    Ok(pk)
}

/// Decode a friend code back to a `.onion` address.
///
/// Trims and lower-cases the code, splits it on spaces and dashes, looks
/// each of the 32 words up to recover the public key, then rebuilds the v3
/// address (with checksum and version byte).
pub fn friend_code_to_onion(code: &str) -> (r: Result<String>)
    ensures
        reports(r, onion_of_code(code@)),
{
    let pk = decode_code(code)?;
    pubkey_to_onion(&pk)
}

/// Check that a string is a friend code: 32 words, all from the word list.
pub fn validate_friend_code(code: &str) -> (r: Result<()>)
    ensures
        r is Ok <==> code_bytes(code@) is Ok,
        r matches Err(e) ==> (code_bytes(code@) matches Err(m) && is_crypto_error(e, m)),
{
    match decode_code(code) {
        Ok(_) => Ok(()),
        Err(e) => Err(e),
    }
}

} // verus!
