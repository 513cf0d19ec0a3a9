//! Base32 (RFC 4648, unpadded), base64 (standard, padded) and SHA3-256, as
//! the `base32`, `base64` and `sha3` crates compute them, with the facts
//! about them that the address and signature logic relies on.

use vstd::prelude::*;
use base64::Engine;
use sha3::Digest;
use vstd::arithmetic::power::pow;

verus! {

/// The character that stands for a 5-bit value in the RFC 4648 alphabet.
pub open spec fn b32_char(v: u8) -> char {
    if v < 26 {
        (65 + v) as char
    } else {
        (50 + (v - 26)) as char
    }
}

/// The 5-bit value a character decodes to; lower-case letters count as
/// upper-case, and `=` decodes as zero.
pub open spec fn b32_value(c: char) -> Option<u8> {
    if 'A' <= c <= 'Z' {
        Some((c as int - 65) as u8)
    } else if 'a' <= c <= 'z' {
        Some((c as int - 97) as u8)
    } else if '2' <= c <= '7' {
        Some((c as int - 50 + 26) as u8)
    } else if c == '=' {
        Some(0u8)
    } else {
        None
    }
}

/// The eight characters for one 5-byte group.
pub open spec fn encode_group(b: Seq<u8>) -> Seq<char> {
    seq![
        b32_char((b[0] & 0xF8u8) >> 3u8),
        b32_char(((b[0] & 0x07u8) << 2u8) | ((b[1] & 0xC0u8) >> 6u8)),
        b32_char((b[1] & 0x3Eu8) >> 1u8),
        b32_char(((b[1] & 0x01u8) << 4u8) | ((b[2] & 0xF0u8) >> 4u8)),
        b32_char(((b[2] & 0x0Fu8) << 1u8) | (b[3] >> 7u8)),
        b32_char((b[3] & 0x7Cu8) >> 2u8),
        b32_char(((b[3] & 0x03u8) << 3u8) | ((b[4] & 0xE0u8) >> 5u8)),
        b32_char(b[4] & 0x1Fu8),
    ]
}

/// The five bytes for one group of eight 5-bit values.
pub open spec fn decode_group(v: Seq<u8>) -> Seq<u8> {
    seq![
        (v[0] << 3u8) | (v[1] >> 2u8),
        (v[1] << 6u8) | (v[2] << 1u8) | (v[3] >> 4u8),
        (v[3] << 4u8) | (v[4] >> 1u8),
        (v[4] << 7u8) | (v[5] << 2u8) | (v[6] >> 3u8),
        (v[6] << 5u8) | v[7],
    ]
}

/// A group of at most `n` elements, filled up with zeros to length `n`.
pub open spec fn zero_fill(s: Seq<u8>, n: nat) -> Seq<u8> {
    Seq::new(n, |i: int| if i < s.len() { s[i] } else { 0u8 })
}

pub open spec fn encode_groups(d: Seq<u8>) -> Seq<char>
    decreases d.len(),
{
    if d.len() == 0 {
        Seq::empty()
    } else if d.len() <= 5 {
        encode_group(zero_fill(d, 5))
    } else {
        encode_group(d.take(5)) + encode_groups(d.skip(5))
    }
}

pub open spec fn decode_groups(v: Seq<u8>) -> Seq<u8>
    decreases v.len(),
{
    if v.len() == 0 {
        Seq::empty()
    } else if v.len() <= 8 {
        decode_group(zero_fill(v, 8))
    } else {
        decode_group(v.take(8)) + decode_groups(v.skip(8))
    }
}

/// Unpadded RFC 4648 base32 of `d`.
pub open spec fn base32_encoding(d: Seq<u8>) -> Seq<char> {
    let full = encode_groups(d);
    if d.len() % 5 == 0 {
        full
    } else {
        full.take(full.len() - (8 - (d.len() % 5 * 8 + 4) / 5))
    }
}

/// How many `=` end `s`, counting at most six.
pub open spec fn padding_len(s: Seq<char>) -> nat {
    pad_from(s, 1)
}

pub open spec fn pad_from(s: Seq<char>, i: nat) -> nat
    decreases 7 - i,
{
    if i > 6 || i > s.len() || s[s.len() - i] != '=' {
        0
    } else {
        1 + pad_from(s, i + 1)
    }
}

/// What RFC 4648 base32 decoding yields for `s`: nothing if any character
/// is outside the alphabet (and `=`), else the bytes its 5-bit values spell,
/// cut to the length the unpadded input stands for.
pub open spec fn base32_decoding(s: Seq<char>) -> Option<Seq<u8>> {
    if exists|i: int| 0 <= i < s.len() && #[trigger] b32_value(s[i]) is None {
        None
    } else {
        let values = s.map_values(|c: char| b32_value(c)->Some_0);
        Some(decode_groups(values).take(((s.len() - padding_len(s)) * 5 / 8) as int))
    }
}

/// `base32::encode` with the unpadded RFC 4648 alphabet, as its source
/// computes it: five bytes at a time, the last group filled with zero bytes,
/// then cut to the unpadded length.
#[verifier::external_body]
pub(crate) fn base32_encode(data: &[u8]) -> (s: String)
    ensures
        s@ == base32_encoding(data@),
{
    base32::encode(base32::Alphabet::RFC4648 { padding: false }, data)
}

/// `base32::decode` with the RFC 4648 alphabet, as its source computes it:
/// `None` when a character is not in the alphabet (lower case allowed,
/// `=` read as zero), else eight characters at a time to five bytes,
/// cut to the length that the input without its trailing `=` stands for.
#[verifier::external_body]
pub(crate) fn base32_decode(s: &str) -> (r: Option<Vec<u8>>)
    ensures
        match r {
            Some(v) => base32_decoding(s@) == Some(v@),
            None => base32_decoding(s@) is None,
        },
{
    base32::decode(base32::Alphabet::RFC4648 { padding: false }, s)
}

/// The SHA3-256 digest of `data`.
pub uninterp spec fn sha3_256_digest(data: Seq<u8>) -> [u8; 32];

/// `sha3::Sha3_256::digest`: the 32-byte SHA3-256 hash of `data`.
/// Claims only that the result is the digest of exactly `data`.
#[verifier::external_body]
pub(crate) fn sha3_256(data: &[u8]) -> (h: [u8; 32])
    ensures
        h == sha3_256_digest(data@),
{
    sha3::Sha3_256::digest(data).into()
}

/// The character that stands for a 6-bit value in the standard base64
/// alphabet: `A`-`Z`, `a`-`z`, `0`-`9`, `+`, `/`.
pub open spec fn b64_char(v: int) -> char {
    if v < 26 {
        (65 + v) as char
    } else if v < 52 {
        (97 + (v - 26)) as char
    } else if v < 62 {
        (48 + (v - 52)) as char
    } else if v == 62 {
        '+'
    } else {
        '/'
    }
}

/// A character of the standard base64 alphabet (`=` is not one).
pub open spec fn is_b64_char(c: char) -> bool {
    ('A' <= c <= 'Z') || ('a' <= c <= 'z') || ('0' <= c <= '9') || c == '+' || c == '/'
}

/// The four characters for a group of one to three bytes: the group's bits
/// six at a time, the missing ones zero, and `=` for each character that
/// carries no byte.
pub open spec fn b64_quad(d: Seq<u8>) -> Seq<char> {
    let b0 = d[0] as int;
    let b1 = if d.len() > 1 { d[1] as int } else { 0 };
    let b2 = if d.len() > 2 { d[2] as int } else { 0 };
    seq![
        b64_char(b0 / 4),
        b64_char(b0 % 4 * 16 + b1 / 16),
        if d.len() > 1 { b64_char(b1 % 16 * 4 + b2 / 64) } else { '=' },
        if d.len() > 2 { b64_char(b2 % 64) } else { '=' },
    ]
}

/// Standard base64 with padding (RFC 4648, section 4), as `base64`'s
/// `STANDARD` engine writes it: each group of three bytes as four
/// characters, a shorter last group padded with `=`.
pub closed spec fn base64_encoding(data: Seq<u8>) -> Seq<char>
    decreases data.len(),
{
    if data.len() == 0 {
        Seq::empty()
    } else if data.len() <= 3 {
        b64_quad(data)
    } else {
        b64_quad(data.take(3)) + base64_encoding(data.skip(3))
    }
}

/// What `base64`'s `STANDARD` engine decodes `s` to: it requires canonical
/// padding and rejects stray bits in the last character, so it accepts
/// exactly the texts it writes, and gives back the bytes written.
pub closed spec fn base64_decoding(s: Seq<char>) -> Option<Seq<u8>> {
    if exists|d: Seq<u8>| #[trigger] base64_encoding(d) == s {
        Some(choose|d: Seq<u8>| #[trigger] base64_encoding(d) == s)
    } else {
        None
    }
}

proof fn lemma_b64_char(v: int, w: int)
    requires
        0 <= v < 64,
        0 <= w < 64,
    ensures
        is_b64_char(b64_char(v)),
        b64_char(v) == b64_char(w) ==> v == w,
{
}

proof fn lemma_b64_quad(d: Seq<u8>)
    requires
        1 <= d.len() <= 3,
    ensures
        b64_quad(d).len() == 4,
        is_b64_char(b64_quad(d)[0]),
        is_b64_char(b64_quad(d)[1]),
        d.len() > 1 ==> is_b64_char(b64_quad(d)[2]),
        d.len() <= 1 ==> b64_quad(d)[2] == '=',
        d.len() > 2 ==> is_b64_char(b64_quad(d)[3]),
        d.len() <= 2 ==> b64_quad(d)[3] == '=',
{
    let b0 = d[0] as int;
    let b1 = if d.len() > 1 { d[1] as int } else { 0 };
    let b2 = if d.len() > 2 { d[2] as int } else { 0 };
    lemma_b64_char(b0 / 4, 0);
    lemma_b64_char(b0 % 4 * 16 + b1 / 16, 0);
    lemma_b64_char(b1 % 16 * 4 + b2 / 64, 0);
    lemma_b64_char(b2 % 64, 0);
}

proof fn lemma_b64_quad_injective(d: Seq<u8>, e: Seq<u8>)
    requires
        1 <= d.len() <= 3,
        1 <= e.len() <= 3,
        b64_quad(d) == b64_quad(e),
    ensures
        d == e,
{
    lemma_b64_quad(d);
    lemma_b64_quad(e);
    let q = b64_quad(d);
    assert(q[2] == b64_quad(e)[2]);
    assert(q[3] == b64_quad(e)[3]);
    assert(d.len() == e.len());
    let b0 = d[0] as int;
    let b1 = if d.len() > 1 { d[1] as int } else { 0 };
    let b2 = if d.len() > 2 { d[2] as int } else { 0 };
    let c0 = e[0] as int;
    let c1 = if e.len() > 1 { e[1] as int } else { 0 };
    let c2 = if e.len() > 2 { e[2] as int } else { 0 };
    lemma_b64_char(b0 / 4, c0 / 4);
    lemma_b64_char(b0 % 4 * 16 + b1 / 16, c0 % 4 * 16 + c1 / 16);
    lemma_b64_char(b1 % 16 * 4 + b2 / 64, c1 % 16 * 4 + c2 / 64);
    lemma_b64_char(b2 % 64, c2 % 64);
    assert(b0 == c0);
    if d.len() > 1 {
        assert(b1 == c1);
    }
    if d.len() > 2 {
        assert(b2 == c2);
    }
    assert(d =~= e);
}

/// The encoding of `d` has four characters for each started group of three
/// bytes; each is an alphabet character or `=`.
pub proof fn lemma_base64_shape(d: Seq<u8>)
    ensures
        base64_encoding(d).len() == (d.len() + 2) / 3 * 4,
        forall|k: int|
            0 <= k < base64_encoding(d).len() ==> is_b64_char(#[trigger] base64_encoding(d)[k])
                || base64_encoding(d)[k] == '=',
    decreases d.len(),
{
    reveal_with_fuel(base64_encoding, 2);
    if d.len() == 0 {
    } else if d.len() <= 3 {
        lemma_b64_quad(d);
    } else {
        lemma_b64_quad(d.take(3));
        lemma_base64_shape(d.skip(3));
        let q = b64_quad(d.take(3));
        let r = base64_encoding(d.skip(3));
        assert(base64_encoding(d) == q + r);
        assert forall|k: int| 0 <= k < base64_encoding(d).len() implies is_b64_char(#[trigger] base64_encoding(d)[k])
            || base64_encoding(d)[k] == '=' by {
            if k < 4 {
                assert(base64_encoding(d)[k] == q[k]);
            } else {
                assert(base64_encoding(d)[k] == r[k - 4]);
            }
        }
    }
}

/// Different bytes have different encodings.
pub proof fn lemma_base64_injective(d: Seq<u8>, e: Seq<u8>)
    requires
        base64_encoding(d) == base64_encoding(e),
    ensures
        d == e,
    decreases d.len(),
{
    reveal_with_fuel(base64_encoding, 2);
    lemma_base64_shape(d);
    lemma_base64_shape(e);
    if d.len() == 0 || e.len() == 0 {
        assert(d.len() == 0 && e.len() == 0);
        assert(d =~= e);
    } else if d.len() <= 3 || e.len() <= 3 {
        assert(d.len() <= 3 && e.len() <= 3);
        lemma_b64_quad_injective(d, e);
    } else {
        let ed = base64_encoding(d);
        let ee = base64_encoding(e);
        lemma_b64_quad(d.take(3));
        lemma_b64_quad(e.take(3));
        assert(ed.take(4) =~= b64_quad(d.take(3)));
        assert(ee.take(4) =~= b64_quad(e.take(3)));
        assert(ed.skip(4) =~= base64_encoding(d.skip(3)));
        assert(ee.skip(4) =~= base64_encoding(e.skip(3)));
        lemma_b64_quad_injective(d.take(3), e.take(3));
        lemma_base64_injective(d.skip(3), e.skip(3));
        assert(d =~= d.take(3) + d.skip(3));
        assert(e =~= e.take(3) + e.skip(3));
    }
}

/// Decoding the encoding of `d` gives `d`, and what a text decodes to
/// encodes back to that text.
pub proof fn lemma_base64_roundtrip(d: Seq<u8>, s: Seq<char>)
    ensures
        base64_decoding(base64_encoding(d)) == Some(d),
        base64_decoding(s) matches Some(v) ==> base64_encoding(v) == s,
{
    let s0 = base64_encoding(d);
    assert(exists|x: Seq<u8>| #[trigger] base64_encoding(x) == s0);
    let c = choose|x: Seq<u8>| #[trigger] base64_encoding(x) == s0;
    lemma_base64_injective(c, d);
}

/// A text with a character that is neither in the alphabet nor `=` does
/// not decode.
pub proof fn lemma_base64_rejects(s: Seq<char>, k: int)
    requires
        0 <= k < s.len(),
        !is_b64_char(s[k]),
        s[k] != '=',
    ensures
        base64_decoding(s) is None,
{
    if exists|d: Seq<u8>| #[trigger] base64_encoding(d) == s {
        let d = choose|d: Seq<u8>| #[trigger] base64_encoding(d) == s;
        lemma_base64_shape(d);
        assert(is_b64_char(s[k]) || s[k] == '=');
    }
}

/// `STANDARD.encode`: the padded standard base64 of the bytes (which
/// decodes back to them, as `lemma_base64_roundtrip` shows).
#[verifier::external_body]
pub(crate) fn base64_encode(data: &[u8]) -> (s: String)
    ensures
        s@ == base64_encoding(data@),
        base64_decoding(s@) == Some(data@),
{
    base64::engine::general_purpose::STANDARD.encode(data)
}

/// The text of the `DecodeError` with which `base64`'s `STANDARD` engine
/// rejects `s`.
pub uninterp spec fn base64_error_text(s: Seq<char>) -> Seq<char>;

/// `STANDARD.decode`: the bytes whose padded standard base64 `s` is, or,
/// when no bytes encode to `s`, the text of the error (a function of `s`
/// that is left unstated).
#[verifier::external_body]
pub(crate) fn base64_decode(s: &str) -> (r: Result<Vec<u8>, String>)
    ensures
        match r {
            Ok(v) => base64_decoding(s@) == Some(v@),
            Err(t) => base64_decoding(s@) is None && t@ == base64_error_text(s@),
        },
{
    base64::engine::general_purpose::STANDARD.decode(s).map_err(|e| e.to_string())
}

/// The lower-case hexadecimal digit for a value below 16.
pub open spec fn hex_digit(v: int) -> char {
    if v < 10 {
        (48 + v) as char
    } else {
        (87 + v) as char
    }
}

/// The 32 hexadecimal digits of a 128-bit value, most significant first.
pub open spec fn hex32(id: u128) -> Seq<char> {
    Seq::new(32, |k: int| hex_digit((id as int / pow(16, (31 - k) as nat)) % 16))
}

/// The hyphenated text of a UUID held as a 128-bit big-endian value:
/// 8-4-4-4-12 lower-case hexadecimal digits.
pub open spec fn uuid_text(id: u128) -> Seq<char> {
    let h = hex32(id);
    h.subrange(0, 8) + seq!['-'] + h.subrange(8, 12) + seq!['-'] + h.subrange(12, 16) + seq!['-']
        + h.subrange(16, 20) + seq!['-'] + h.subrange(20, 32)
}

/// `uuid::Uuid::from_u128(id).to_string()`: the hyphenated lower-case text of
/// the UUID whose big-endian bytes are `id`.
#[verifier::external_body]
pub(crate) fn uuid_to_text(id: u128) -> (s: String)
    ensures
        s@ == uuid_text(id),
{
    uuid::Uuid::from_u128(id).to_string()
}

/// The 128-bit value of the UUID that `Uuid::parse_str` reads from `s`, or
/// `None` when it rejects `s`.
pub uninterp spec fn uuid_parsing(s: Seq<char>) -> Option<u128>;

/// `Uuid::parse_str(s)` as a 128-bit value. Claims that the outcome is a
/// function of the text, and that the hyphenated text of a value reads back
/// as that value.
#[verifier::external_body]
pub(crate) fn uuid_parse(s: &str) -> (r: Option<u128>)
    ensures
        r == uuid_parsing(s@),
        forall|id: u128| s@ == uuid_text(id) ==> r == Some(id),
{
    uuid::Uuid::parse_str(s).ok().map(|u| u.as_u128())
}

/// `Uuid::new_v4()` as a 128-bit value. Nothing is claimed of it.
#[verifier::external_body]
pub(crate) fn new_uuid() -> (r: u128) {
    uuid::Uuid::new_v4().as_u128()
}

// ---------------------------------------------------------------------------
// Facts about the encoding
// ---------------------------------------------------------------------------

proof fn lemma_b32_char_value(v: u8)
    requires
        v < 32,
    ensures
        b32_value(b32_char(v)) == Some(v),
        b32_char(v) != '=',
        ('A' <= b32_char(v) <= 'Z') || ('2' <= b32_char(v) <= '7'),
{
}

proof fn lemma_group_roundtrip(b0: u8, b1: u8, b2: u8, b3: u8, b4: u8)
    ensures
        ({
            let v0 = (b0 & 0xF8u8) >> 3u8;
            let v1 = ((b0 & 0x07u8) << 2u8) | ((b1 & 0xC0u8) >> 6u8);
            let v2 = (b1 & 0x3Eu8) >> 1u8;
            let v3 = ((b1 & 0x01u8) << 4u8) | ((b2 & 0xF0u8) >> 4u8);
            let v4 = ((b2 & 0x0Fu8) << 1u8) | (b3 >> 7u8);
            let v5 = (b3 & 0x7Cu8) >> 2u8;
            let v6 = ((b3 & 0x03u8) << 3u8) | ((b4 & 0xE0u8) >> 5u8);
            let v7 = b4 & 0x1Fu8;
            &&& v0 < 32 && v1 < 32 && v2 < 32 && v3 < 32
            &&& v4 < 32 && v5 < 32 && v6 < 32 && v7 < 32
            &&& (v0 << 3u8) | (v1 >> 2u8) == b0
            &&& (v1 << 6u8) | (v2 << 1u8) | (v3 >> 4u8) == b1
            &&& (v3 << 4u8) | (v4 >> 1u8) == b2
            &&& (v4 << 7u8) | (v5 << 2u8) | (v6 >> 3u8) == b3
            &&& (v6 << 5u8) | v7 == b4
        }),
{
    assert({
        let v0 = (b0 & 0xF8u8) >> 3u8;
        let v1 = ((b0 & 0x07u8) << 2u8) | ((b1 & 0xC0u8) >> 6u8);
        let v2 = (b1 & 0x3Eu8) >> 1u8;
        let v3 = ((b1 & 0x01u8) << 4u8) | ((b2 & 0xF0u8) >> 4u8);
        let v4 = ((b2 & 0x0Fu8) << 1u8) | (b3 >> 7u8);
        let v5 = (b3 & 0x7Cu8) >> 2u8;
        let v6 = ((b3 & 0x03u8) << 3u8) | ((b4 & 0xE0u8) >> 5u8);
        let v7 = b4 & 0x1Fu8;
        &&& v0 < 32 && v1 < 32 && v2 < 32 && v3 < 32
        &&& v4 < 32 && v5 < 32 && v6 < 32 && v7 < 32
        &&& (v0 << 3u8) | (v1 >> 2u8) == b0
        &&& (v1 << 6u8) | (v2 << 1u8) | (v3 >> 4u8) == b1
        &&& (v3 << 4u8) | (v4 >> 1u8) == b2
        &&& (v4 << 7u8) | (v5 << 2u8) | (v6 >> 3u8) == b3
        &&& (v6 << 5u8) | v7 == b4
    }) by (bit_vector);
}

/// Every character of an encoding is an upper-case letter or a digit 2-7,
/// and the values of the characters of one group decode back to the group.
proof fn lemma_encode_group(b: Seq<u8>)
    requires
        b.len() == 5,
    ensures
        encode_group(b).len() == 8,
        forall|i: int| 0 <= i < 8 ==> is_b32_upper(#[trigger] encode_group(b)[i]),
        decode_group(encode_group(b).map_values(|c: char| b32_value(c)->Some_0)) == b,
{
    lemma_group_roundtrip(b[0], b[1], b[2], b[3], b[4]);
    let e = encode_group(b);
    let vals = e.map_values(|c: char| b32_value(c)->Some_0);
    lemma_b32_char_value((b[0] & 0xF8u8) >> 3u8);
    lemma_b32_char_value(((b[0] & 0x07u8) << 2u8) | ((b[1] & 0xC0u8) >> 6u8));
    lemma_b32_char_value((b[1] & 0x3Eu8) >> 1u8);
    lemma_b32_char_value(((b[1] & 0x01u8) << 4u8) | ((b[2] & 0xF0u8) >> 4u8));
    lemma_b32_char_value(((b[2] & 0x0Fu8) << 1u8) | (b[3] >> 7u8));
    lemma_b32_char_value((b[3] & 0x7Cu8) >> 2u8);
    lemma_b32_char_value(((b[3] & 0x03u8) << 3u8) | ((b[4] & 0xE0u8) >> 5u8));
    lemma_b32_char_value(b[4] & 0x1Fu8);
    assert(decode_group(vals) =~= b);
}

/// A character that an encoding can produce.
pub open spec fn is_b32_upper(c: char) -> bool {
    ('A' <= c <= 'Z') || ('2' <= c <= '7')
}

/// For whole groups of five bytes: the encoding is 8 characters per group,
/// all upper-case alphabet characters, and the values of its characters
/// decode back to the input.
proof fn lemma_encode_groups(d: Seq<u8>)
    requires
        d.len() % 5 == 0,
    ensures
        encode_groups(d).len() == d.len() / 5 * 8,
        forall|i: int| 0 <= i < encode_groups(d).len() ==> is_b32_upper(#[trigger] encode_groups(d)[i]),
        decode_groups(encode_groups(d).map_values(|c: char| b32_value(c)->Some_0)) == d,
    decreases d.len(),
{
    if d.len() == 0 {
        assert(decode_groups(encode_groups(d).map_values(|c: char| b32_value(c)->Some_0)) =~= d);
    } else {
        let head = d.take(5);
        let tail = d.skip(5);
        if d.len() == 5 {
            assert(zero_fill(d, 5) =~= d);
            lemma_encode_group(d);
            let vals = encode_groups(d).map_values(|c: char| b32_value(c)->Some_0);
            assert(zero_fill(vals, 8) =~= vals);
        } else {
            lemma_encode_group(head);
            lemma_encode_groups(tail);
            let e = encode_groups(d);
            let eh = encode_group(head);
            let et = encode_groups(tail);
            assert(e == eh + et);
            let vals = e.map_values(|c: char| b32_value(c)->Some_0);
            assert(vals.take(8) =~= eh.map_values(|c: char| b32_value(c)->Some_0));
            assert(vals.skip(8) =~= et.map_values(|c: char| b32_value(c)->Some_0));
            assert(decode_groups(vals) == decode_group(vals.take(8)) + decode_groups(vals.skip(8)));
            assert(head + tail =~= d);
            assert forall|i: int| 0 <= i < e.len() implies is_b32_upper(#[trigger] e[i]) by {
                if i < 8 {
                    assert(e[i] == eh[i]);
                } else {
                    assert(e[i] == et[i - 8]);
                }
            }
        }
    }
}

/// Decoding the encoding of whole 5-byte groups gives the bytes back, and
/// the encoding is upper-case alphabet characters, eight per group.
pub proof fn lemma_base32_roundtrip(d: Seq<u8>)
    requires
        d.len() % 5 == 0,
    ensures
        base32_encoding(d).len() == d.len() / 5 * 8,
        forall|i: int| 0 <= i < base32_encoding(d).len() ==> is_b32_upper(#[trigger] base32_encoding(d)[i]),
        base32_decoding(base32_encoding(d)) == Some(d),
{
    lemma_encode_groups(d);
    let e = base32_encoding(d);
    assert forall|i: int| 0 <= i < e.len() implies #[trigger] b32_value(e[i]) is Some by {
        assert(is_b32_upper(e[i]));
    }
    if e.len() > 0 {
        assert(e[e.len() - 1] != '=') by {
            assert(is_b32_upper(e[e.len() - 1]));
        }
    }
    assert(padding_len(e) == 0);
    let n = ((e.len() - padding_len(e)) * 5 / 8) as int;
    assert(n == d.len()) by (nonlinear_arith)
        requires
            e.len() == d.len() / 5 * 8,
            d.len() % 5 == 0,
            n == (e.len() - 0) * 5 / 8,
    ;
    let values = e.map_values(|c: char| b32_value(c)->Some_0);
    assert(decode_groups(values).take(n) =~= d);
}

} // verus!
