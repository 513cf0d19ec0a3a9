//! Small verified helpers for building and inspecting text.

use vstd::prelude::*;
use vstd::string::*;
use vstd::utf8::is_ascii_chars;

verus! {

/// A copy of a string slice as an owned `String`.
pub fn str_to_string(s: &str) -> (r: String)
    ensures
        r@ == s@,
{
    s.to_owned()
}

/// Appends one character (`String::push`).
#[verifier::external_body]
pub(crate) fn push_char(s: &mut String, c: char)
    ensures
        final(s)@ == old(s)@.push(c),
{
    s.push(c);
}

/// The characters of a string slice, in order.
pub fn chars_of(s: &str) -> (r: Vec<char>)
    ensures
        r@ == s@,
{
    let n = s.unicode_len();
    let mut r: Vec<char> = Vec::new();
    let mut i: usize = 0;
    while i < n
        invariant
            n == s@.len(),
            i <= n,
            r@ == s@.take(i as int),
        decreases n - i,
    {
        r.push(s.get_char(i));
        i = i + 1;
        assert(r@ == s@.take(i as int));
    }
    assert(s@.take(n as int) == s@);
    r
}


/// Whether two strings hold the same characters.
pub fn str_equals(a: &str, b: &str) -> (r: bool)
    ensures
        r == (a@ == b@),
{
    let x = chars_of(a);
    let y = chars_of(b);
    if x.len() != y.len() {
        return false;
    }
    let mut i: usize = 0;
    while i < x.len()
        invariant
            x@ == a@,
            y@ == b@,
            x@.len() == y@.len(),
            i <= x@.len(),
            x@.take(i as int) == y@.take(i as int),
        decreases x@.len() - i,
    {
        if x[i] != y[i] {
            return false;
        }
        i = i + 1;
        assert(x@.take(i as int) =~= x@.take(i - 1).push(x@[i - 1]));
        assert(y@.take(i as int) =~= y@.take(i - 1).push(y@[i - 1]));
    }
    assert(x@.take(x@.len() as int) =~= x@);
    assert(y@.take(y@.len() as int) =~= y@);
    true
}

/// Whether `s` ends with `suffix`.
pub fn ends_with(s: &str, suffix: &str) -> (r: bool)
    ensures
        r == (suffix@.len() <= s@.len() && s@.skip(s@.len() - suffix@.len()) == suffix@),
{
    let n = s.unicode_len();
    let m = suffix.unicode_len();
    if m > n {
        return false;
    }
    let tail = s.substring_char(n - m, n);
    assert(tail@ =~= s@.skip(s@.len() - suffix@.len()));
    str_equals(tail, suffix)
}

/// The decimal digits of `n`, most significant first.
pub open spec fn decimal(n: nat) -> Seq<char>
    decreases n,
{
    if n < 10 {
        seq![(48 + n) as char]
    } else {
        decimal(n / 10).push((48 + n % 10) as char)
    }
}

/// Appends the decimal digits of `n`.
pub fn push_decimal(s: &mut String, n: u64)
    ensures
        final(s)@ == old(s)@ + decimal(n as nat),
    decreases n,
{
    if n >= 10 {
        push_decimal(s, n / 10);
    }
    let d = n % 10;
    let c: char = if d == 0 { '0' } else if d == 1 { '1' } else if d == 2 { '2' } else if d == 3 { '3' }
        else if d == 4 { '4' } else if d == 5 { '5' } else if d == 6 { '6' } else if d == 7 { '7' }
        else if d == 8 { '8' } else { '9' };
    push_char(s, c);
    assert(s@ =~= old(s)@ + decimal(n as nat));
}

/// The decimal text of a signed number, with a leading `-` when negative.
pub open spec fn signed_decimal(n: int) -> Seq<char> {
    if n < 0 {
        seq!['-'] + decimal((-n) as nat)
    } else {
        decimal(n as nat)
    }
}

/// Appends the decimal text of a signed number (what `{}` prints for an `i64`).
pub fn push_signed_decimal(s: &mut String, n: i64)
    ensures
        final(s)@ == old(s)@ + signed_decimal(n as int),
{
    if n < 0 {
        push_char(s, '-');
        let magnitude: u64 = if n == i64::MIN { 0x8000_0000_0000_0000u64 } else { (-n) as u64 };
        push_decimal(s, magnitude);
        assert(s@ =~= old(s)@ + signed_decimal(n as int));
    } else {
        push_decimal(s, n as u64);
    }
}

/// Whether `c` has the Unicode `White_Space` property (what `char::is_whitespace` tests).
pub open spec fn is_white_space(c: char) -> bool {
    ('\u{9}' <= c <= '\u{d}') || c == ' ' || c == '\u{85}' || c == '\u{a0}' || c == '\u{1680}'
        || ('\u{2000}' <= c <= '\u{200a}') || c == '\u{2028}' || c == '\u{2029}' || c == '\u{202f}'
        || c == '\u{205f}' || c == '\u{3000}'
}

/// How many white-space characters begin `s`.
pub open spec fn leading_white(s: Seq<char>) -> nat
    decreases s.len(),
{
    if s.len() > 0 && is_white_space(s[0]) {
        1 + leading_white(s.drop_first())
    } else {
        0
    }
}

/// How many white-space characters end `s`.
pub open spec fn trailing_white(s: Seq<char>) -> nat
    decreases s.len(),
{
    if s.len() > 0 && is_white_space(s.last()) {
        1 + trailing_white(s.drop_last())
    } else {
        0
    }
}

/// `s` without leading and trailing white space.
pub open spec fn trimmed(s: Seq<char>) -> Seq<char> {
    let t = s.skip(leading_white(s) as int);
    t.take(t.len() - trailing_white(t))
}

/// Neither run of white space is longer than the text.
pub proof fn lemma_white_counts_bounded(s: Seq<char>)
    ensures
        leading_white(s) <= s.len(),
        trailing_white(s) <= s.len(),
    decreases s.len(),
{
    if s.len() > 0 {
        lemma_white_counts_bounded(s.drop_first());
        lemma_white_counts_bounded(s.drop_last());
    }
}

/// `str::trim`: removes leading and trailing characters with the Unicode
/// `White_Space` property, as its documentation states.
#[verifier::external_body]
pub(crate) fn trim_str(s: &str) -> (r: &str)
    ensures
        r@ == trimmed(s@),
{
    s.trim()
}

/// The ASCII lower-case form of a character: `A`-`Z` map to `a`-`z`.
pub open spec fn ascii_lower(c: char) -> char {
    if 'A' <= c <= 'Z' {
        (c as int + 32) as char
    } else {
        c
    }
}

/// The ASCII upper-case form of a character: `a`-`z` map to `A`-`Z`.
pub open spec fn ascii_upper(c: char) -> char {
    if 'a' <= c <= 'z' {
        (c as int - 32) as char
    } else {
        c
    }
}

/// What `str::to_lowercase` gives for a string (full Unicode case mapping).
pub uninterp spec fn unicode_lowercase(s: Seq<char>) -> Seq<char>;

/// What `str::to_uppercase` gives for a string (full Unicode case mapping).
pub uninterp spec fn unicode_uppercase(s: Seq<char>) -> Seq<char>;

/// `str::to_lowercase`. Claims only that the result depends on the text alone.
#[verifier::external_body]
fn unicode_to_lowercase(s: &str) -> (r: String)
    ensures
        r@ == unicode_lowercase(s@),
{
    s.to_lowercase()
}

/// `str::to_uppercase`. Claims only that the result depends on the text alone.
#[verifier::external_body]
fn unicode_to_uppercase(s: &str) -> (r: String)
    ensures
        r@ == unicode_uppercase(s@),
{
    s.to_uppercase()
}

/// The lower-case form of a string: ASCII text is mapped letter by letter,
/// other text by the full Unicode mapping.
pub open spec fn lowercased(s: Seq<char>) -> Seq<char> {
    if is_ascii_chars(s) {
        s.map_values(|c: char| ascii_lower(c))
    } else {
        unicode_lowercase(s)
    }
}

/// The upper-case form of a string: ASCII text is mapped letter by letter,
/// other text by the full Unicode mapping.
pub open spec fn uppercased(s: Seq<char>) -> Seq<char> {
    if is_ascii_chars(s) {
        s.map_values(|c: char| ascii_upper(c))
    } else {
        unicode_uppercase(s)
    }
}

/// Lower-cases a string.
pub fn to_lowercase(s: &str) -> (r: String)
    ensures
        r@ == lowercased(s@),
{
    if s.is_ascii() {
        let cs = chars_of(s);
        let mut r = String::new();
        let mut i: usize = 0;
        while i < cs.len()
            invariant
                cs@ == s@,
                i <= cs@.len(),
                r@ == s@.take(i as int).map_values(|c: char| ascii_lower(c)),
            decreases cs@.len() - i,
        {
            let c = cs[i];
            let l = if 'A' <= c && c <= 'Z' { ((c as u32) + 32) as u8 as char } else { c };
            push_char(&mut r, l);
            i = i + 1;
            assert(r@ =~= s@.take(i as int).map_values(|c: char| ascii_lower(c)));
        }
        assert(s@.take(cs@.len() as int) =~= s@);
        r
    } else {
        unicode_to_lowercase(s)
    }
}

/// Upper-cases a string.
pub fn to_uppercase(s: &str) -> (r: String)
    ensures
        r@ == uppercased(s@),
{
    if s.is_ascii() {
        let cs = chars_of(s);
        let mut r = String::new();
        let mut i: usize = 0;
        while i < cs.len()
            invariant
                cs@ == s@,
                i <= cs@.len(),
                r@ == s@.take(i as int).map_values(|c: char| ascii_upper(c)),
            decreases cs@.len() - i,
        {
            let c = cs[i];
            let u = if 'a' <= c && c <= 'z' { ((c as u32) - 32) as u8 as char } else { c };
            push_char(&mut r, u);
            i = i + 1;
            assert(r@ =~= s@.take(i as int).map_values(|c: char| ascii_upper(c)));
        }
        assert(s@.take(cs@.len() as int) =~= s@);
        r
    } else {
        unicode_to_uppercase(s)
    }
}

/// The number that a run of decimal digits spells.
pub open spec fn digits_value(s: Seq<char>) -> nat
    decreases s.len(),
{
    if s.len() == 0 {
        0
    } else {
        digits_value(s.drop_last()) * 10 + ((s.last() as int - 48) as nat)
    }
}

/// Whether every character is a decimal digit.
pub open spec fn all_digits(s: Seq<char>) -> bool {
    forall|i: int| 0 <= i < s.len() ==> '0' <= #[trigger] s[i] <= '9'
}

/// What `str::parse::<u64>` reads from `s`: an optional `+` and then one
/// or more decimal digits whose number fits a `u64`; `None` for anything
/// else.
pub open spec fn u64_parsing(s: Seq<char>) -> Option<u64> {
    let d = if s.len() > 0 && s[0] == '+' {
        s.skip(1)
    } else {
        s
    };
    if d.len() > 0 && all_digits(d) && digits_value(d) <= u64::MAX {
        Some(digits_value(d) as u64)
    } else {
        None
    }
}

proof fn lemma_digits_value_grows(s: Seq<char>, k: int)
    requires
        0 <= k <= s.len(),
        all_digits(s),
    ensures
        digits_value(s.take(k)) <= digits_value(s),
    decreases s.len() - k,
{
    if k < s.len() {
        lemma_digits_value_grows(s, k + 1);
        let t = s.take(k + 1);
        assert(t.drop_last() =~= s.take(k));
        assert(t.last() == s[k]);
        assert('0' <= s[k] <= '9');
        assert(digits_value(t) == digits_value(s.take(k)) * 10 + ((s[k] as int - 48) as nat));
    } else {
        assert(s.take(k) =~= s);
    }
}

/// The digits of a number read back as that number.
pub proof fn lemma_decimal_parses(n: nat)
    ensures
        all_digits(decimal(n)),
        decimal(n).len() > 0,
        decimal(n)[0] != '+',
        digits_value(decimal(n)) == n,
    decreases n,
{
    let c = (48 + n % 10) as char;
    assert(c as int == 48 + n % 10);
    if n >= 10 {
        lemma_decimal_parses(n / 10);
        let d = decimal(n);
        assert(d.drop_last() =~= decimal(n / 10));
        assert(d[0] == decimal(n / 10)[0]);
        assert(d.last() == c);
        assert(n / 10 * 10 + n % 10 == n);
        assert(digits_value(d) == digits_value(d.drop_last()) * 10 + ((d.last() as int - 48) as nat));
        assert forall|i: int| 0 <= i < d.len() implies '0' <= #[trigger] d[i] <= '9' by {
            if i < d.len() - 1 {
                assert(d[i] == decimal(n / 10)[i]);
            }
        }
    } else {
        assert(decimal(n).drop_last() =~= Seq::<char>::empty());
        assert(n % 10 == n);
        assert(digits_value(decimal(n)) == digits_value(decimal(n).drop_last()) * 10 + ((decimal(n).last() as int
            - 48) as nat));
    }
}

/// `s.parse::<u64>().ok()`: an optional `+`, then decimal digits whose
/// number fits a `u64`.
pub fn parse_u64(s: &str) -> (r: Option<u64>)
    ensures
        r == u64_parsing(s@),
{
    let cs = chars_of(s);
    let mut i: usize = 0;
    if cs.len() > 0 && cs[0] == '+' {
        i = 1;
    }
    let start = i;
    let ghost d = s@.skip(start as int);
    assert(start == 0 ==> d =~= s@);
    assert(d == if s@.len() > 0 && s@[0] == '+' { s@.skip(1) } else { s@ });
    if i >= cs.len() {
        return None;
    }
    let mut value: u64 = 0;
    while i < cs.len()
        invariant
            cs@ == s@,
            start <= i <= cs@.len(),
            d == s@.skip(start as int),
            d == if s@.len() > 0 && s@[0] == '+' { s@.skip(1) } else { s@ },
            all_digits(s@.subrange(start as int, i as int)),
            value as nat == digits_value(s@.subrange(start as int, i as int)),
        decreases cs@.len() - i,
    {
        let c = cs[i];
        let ghost sub = s@.subrange(start as int, i + 1);
        assert(sub.drop_last() =~= s@.subrange(start as int, i as int));
        assert(d.take(i + 1 - start) =~= sub);
        if !('0' <= c && c <= '9') {
            assert(d[i - start] == c);
            assert(!all_digits(d));
            assert(d == if s@.len() > 0 && s@[0] == '+' { s@.skip(1) } else { s@ });
            return None;
        }
        let digit: u64 = (c as u32 - 48) as u64;
        let next = match value.checked_mul(10) {
            Some(v) => v.checked_add(digit),
            None => None,
        };
        match next {
            Some(v) => {
                value = v;
            },
            None => {
                proof {
                    assert(digits_value(sub) == value * 10 + digit);
                    assert(digits_value(sub) > u64::MAX);
                    if all_digits(d) {
                        lemma_digits_value_grows(d, i + 1 - start);
                    }
                    assert(d == if s@.len() > 0 && s@[0] == '+' { s@.skip(1) } else { s@ });
                }
                return None;
            },
        }
        i = i + 1;
    }
    assert(s@.subrange(start as int, cs@.len() as int) =~= d);
    Some(value)
}

} // verus!

