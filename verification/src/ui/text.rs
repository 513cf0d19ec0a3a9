//! Shortening text for display.

use vstd::prelude::*;

use crate::text::{chars_of, push_char};

verus! {

/// `s` if it has at most `max` characters, else its first `max - 1`
/// characters followed by an ellipsis character.
pub open spec fn ellipsized(s: Seq<char>, max: nat) -> Seq<char> {
    if s.len() <= max {
        s
    } else {
        s.take(max - 1) + seq!['\u{2026}']
    }
}

/// Shorten `s` to at most `max` characters, marking the cut with `…`.
pub fn truncate_with_ellipsis(s: &str, max: usize) -> (r: String)
    requires
        max >= 1,
    ensures
        r@ == ellipsized(s@, max as nat),
        r@.len() <= max || r@ == s@,
{
    let cs = chars_of(s);
    let mut r = String::new();
    if cs.len() <= max {
        let mut i: usize = 0;
        while i < cs.len()
            invariant
                cs@ == s@,
                i <= cs@.len(),
                r@ == s@.take(i as int),
            decreases cs@.len() - i,
        {
            push_char(&mut r, cs[i]);
            i = i + 1;
            assert(r@ =~= s@.take(i as int));
        }
        assert(s@.take(cs@.len() as int) =~= s@);
        r
    } else {
        let mut i: usize = 0;
        while i < max - 1
            invariant
                cs@ == s@,
                max - 1 < cs@.len(),
                i <= max - 1,
                r@ == s@.take(i as int),
            decreases max - 1 - i,
        {
            push_char(&mut r, cs[i]);
            i = i + 1;
            assert(r@ =~= s@.take(i as int));
        }
        push_char(&mut r, '\u{2026}');
        r
    }
}

} // verus!
