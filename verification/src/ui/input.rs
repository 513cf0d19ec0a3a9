//! Shortening input text for display.

use vstd::prelude::*;

use crate::text::{chars_of, push_char};

verus! {

/// `s` if it has at most `n` characters, else its first `n` characters
/// followed by `...`.
pub open spec fn dotted(s: Seq<char>, n: nat) -> Seq<char> {
    if s.len() <= n {
        s
    } else {
        s.take(n as int) + seq!['.', '.', '.']
    }
}

/// Keep the first `n` characters of `s`, marking a cut with `...`.
pub fn truncate_display_dots(s: &str, n: usize) -> (r: String)
    ensures
        r@ == dotted(s@, n as nat),
{
    let cs = chars_of(s);
    let mut r = String::new();
    let keep = if cs.len() <= n { cs.len() } else { n };
    let mut i: usize = 0;
    while i < keep
        invariant
            cs@ == s@,
            keep <= cs@.len(),
            i <= keep,
            r@ == s@.take(i as int),
        decreases keep - i,
    {
        push_char(&mut r, cs[i]);
        i = i + 1;
        assert(r@ =~= s@.take(i as int));
    }
    if cs.len() <= n {
        assert(s@.take(keep as int) =~= s@);
    } else {
        push_char(&mut r, '.');
        push_char(&mut r, '.');
        push_char(&mut r, '.');
        assert(r@ =~= s@.take(n as int) + seq!['.', '.', '.']);
    }
    r
}

} // verus!
