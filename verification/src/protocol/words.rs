//! The word list of friend codes.

use vstd::prelude::*;

use crate::text::push_char;

verus! {

/// The 256-word list; the word at index `b` stands for the byte `b`.
/// Words are short, distinct and in alphabetical order.
pub const WORDS: [[char; 3]; 256] = [
    ['a', 'c', 'e'], ['a', 'c', 't'], ['a', 'd', 'd'], ['a', 'g', 'e'], ['a', 'g', 'o'], ['a', 'i', 'd'], ['a', 'i', 'm'], ['a', 'i', 'r'],
    ['a', 'l', 'e'], ['a', 'l', 'l'], ['a', 'n', 'd'], ['a', 'n', 't'], ['a', 'n', 'y'], ['a', 'p', 'e'], ['a', 'r', 'c'], ['a', 'r', 'e'],
    ['a', 'r', 'k'], ['a', 'r', 'm'], ['a', 'r', 't'], ['a', 's', 'h'], ['a', 's', 'k'], ['a', 't', 'e'], ['a', 'w', 'e'], ['a', 'x', 'e'],
    ['b', 'a', 'd'], ['b', 'a', 'g'], ['b', 'a', 'n'], ['b', 'a', 'r'], ['b', 'a', 't'], ['b', 'a', 'y'], ['b', 'e', 'd'], ['b', 'e', 'e'],
    ['b', 'e', 't'], ['b', 'i', 'g'], ['b', 'i', 't'], ['b', 'o', 'w'], ['b', 'o', 'x'], ['b', 'u', 'd'], ['b', 'u', 'g'], ['b', 'u', 's'],
    ['b', 'u', 't'], ['b', 'u', 'y'], ['c', 'a', 'b'], ['c', 'a', 'm'], ['c', 'a', 'n'], ['c', 'a', 'p'], ['c', 'a', 'r'], ['c', 'a', 't'],
    ['c', 'o', 'b'], ['c', 'o', 'd'], ['c', 'o', 'g'], ['c', 'o', 'p'], ['c', 'o', 'w'], ['c', 'r', 'y'], ['c', 'u', 'b'], ['c', 'u', 'p'],
    ['c', 'u', 'r'], ['c', 'u', 't'], ['d', 'a', 'b'], ['d', 'a', 'm'], ['d', 'a', 'y'], ['d', 'e', 'n'], ['d', 'e', 'w'], ['d', 'i', 'd'],
    ['d', 'i', 'g'], ['d', 'i', 'm'], ['d', 'i', 'p'], ['d', 'o', 'e'], ['d', 'o', 'g'], ['d', 'o', 'n'], ['d', 'o', 't'], ['d', 'r', 'y'],
    ['d', 'u', 'b'], ['d', 'u', 'd'], ['d', 'u', 'e'], ['d', 'u', 'g'], ['d', 'u', 'n'], ['d', 'u', 'o'], ['d', 'y', 'e'], ['e', 'a', 'r'],
    ['e', 'a', 't'], ['e', 'e', 'l'], ['e', 'g', 'g'], ['e', 'g', 'o'], ['e', 'l', 'k'], ['e', 'l', 'm'], ['e', 'm', 'u'], ['e', 'n', 'd'],
    ['e', 'r', 'a'], ['e', 'v', 'e'], ['e', 'w', 'e'], ['e', 'y', 'e'], ['f', 'a', 'n'], ['f', 'a', 'r'], ['f', 'a', 't'], ['f', 'a', 'x'],
    ['f', 'e', 'd'], ['f', 'e', 'w'], ['f', 'i', 'g'], ['f', 'i', 'n'], ['f', 'i', 'r'], ['f', 'i', 't'], ['f', 'i', 'x'], ['f', 'l', 'y'],
    ['f', 'o', 'e'], ['f', 'o', 'g'], ['f', 'o', 'r'], ['f', 'o', 'x'], ['f', 'r', 'y'], ['f', 'u', 'n'], ['f', 'u', 'r'], ['g', 'a', 'g'],
    ['g', 'a', 'l'], ['g', 'a', 'p'], ['g', 'a', 's'], ['g', 'e', 'm'], ['g', 'e', 't'], ['g', 'i', 'n'], ['g', 'n', 'u'], ['g', 'o', 'd'],
    ['g', 'o', 't'], ['g', 'u', 'm'], ['g', 'u', 'n'], ['g', 'u', 't'], ['g', 'u', 'y'], ['g', 'y', 'm'], ['h', 'a', 'd'], ['h', 'a', 'm'],
    ['h', 'a', 's'], ['h', 'a', 't'], ['h', 'a', 'y'], ['h', 'e', 'n'], ['h', 'e', 'r'], ['h', 'e', 'w'], ['h', 'e', 'x'], ['h', 'i', 'd'],
    ['h', 'i', 'm'], ['h', 'i', 'p'], ['h', 'i', 's'], ['h', 'i', 't'], ['h', 'o', 'b'], ['h', 'o', 'g'], ['h', 'o', 'p'], ['h', 'o', 't'],
    ['h', 'o', 'w'], ['h', 'u', 'b'], ['h', 'u', 'e'], ['h', 'u', 'g'], ['h', 'u', 'm'], ['h', 'u', 't'], ['i', 'c', 'e'], ['i', 'c', 'y'],
    ['i', 'l', 'k'], ['i', 'l', 'l'], ['i', 'm', 'p'], ['i', 'n', 'k'], ['i', 'n', 'n'], ['i', 'o', 'n'], ['i', 'r', 'e'], ['i', 'r', 'k'],
    ['i', 'v', 'y'], ['j', 'a', 'b'], ['j', 'a', 'g'], ['j', 'a', 'm'], ['j', 'a', 'r'], ['j', 'a', 'w'], ['j', 'a', 'y'], ['j', 'e', 't'],
    ['j', 'i', 'g'], ['j', 'o', 'b'], ['j', 'o', 'g'], ['j', 'o', 't'], ['j', 'o', 'y'], ['j', 'u', 'g'], ['j', 'u', 't'], ['k', 'e', 'g'],
    ['k', 'e', 'n'], ['k', 'e', 'y'], ['k', 'i', 'd'], ['k', 'i', 'n'], ['k', 'i', 't'], ['l', 'a', 'b'], ['l', 'a', 'd'], ['l', 'a', 'g'],
    ['l', 'a', 'p'], ['l', 'a', 'w'], ['l', 'a', 'y'], ['l', 'e', 'a'], ['l', 'e', 'd'], ['l', 'e', 'g'], ['l', 'e', 't'], ['l', 'i', 'd'],
    ['l', 'i', 'e'], ['l', 'i', 'p'], ['l', 'i', 't'], ['l', 'o', 'g'], ['l', 'o', 't'], ['l', 'o', 'w'], ['l', 'u', 'g'], ['l', 'y', 'e'],
    ['m', 'a', 'd'], ['m', 'a', 'n'], ['m', 'a', 'p'], ['m', 'a', 'r'], ['m', 'a', 't'], ['m', 'a', 'w'], ['m', 'a', 'y'], ['m', 'e', 'n'],
    ['m', 'e', 't'], ['m', 'i', 'd'], ['m', 'i', 'x'], ['m', 'o', 'b'], ['m', 'o', 'd'], ['m', 'o', 'p'], ['m', 'o', 'w'], ['m', 'u', 'd'],
    ['m', 'u', 'g'], ['n', 'a', 'b'], ['n', 'a', 'g'], ['n', 'a', 'p'], ['n', 'e', 't'], ['n', 'e', 'w'], ['n', 'i', 'l'], ['n', 'i', 'p'],
    ['n', 'i', 't'], ['n', 'o', 'd'], ['n', 'o', 'r'], ['n', 'o', 't'], ['n', 'o', 'w'], ['n', 'u', 'n'], ['n', 'u', 't'], ['o', 'a', 'k'],
    ['o', 'a', 'r'], ['o', 'a', 't'], ['o', 'd', 'd'], ['o', 'd', 'e'], ['o', 'f', 'f'], ['o', 'f', 't'], ['o', 'h', 'm'], ['o', 'i', 'l'],
    ['o', 'l', 'd'], ['o', 'n', 'e'], ['o', 'p', 't'], ['o', 'r', 'b'], ['o', 'r', 'e'], ['o', 'u', 'r'], ['o', 'u', 't'], ['o', 'w', 'e'],
    ['o', 'w', 'l'], ['o', 'w', 'n'], ['p', 'a', 'd'], ['p', 'a', 'l'], ['p', 'a', 'n'], ['p', 'a', 'r'], ['p', 'a', 'w'], ['p', 'e', 'a'],
];

/// The word at index `i` of the list.
#[verifier::opaque]
spec fn table_word(i: int) -> Seq<char> {
    WORDS@[i]@
}

/// The word for byte `b`.
pub closed spec fn word(b: u8) -> Seq<char> {
    table_word(b as int)
}

/// The word at index `i` of the list.
fn word_at(i: usize) -> (w: [char; 3])
    requires
        i < 256,
    ensures
        w@ == table_word(i as int),
{
    reveal(table_word);
    WORDS[i]
}

pub open spec fn word_key(w: [char; 3]) -> int {
    (w[0] as int) * 0x10000_0000int + (w[1] as int) * 0x10000int + (w[2] as int)
}

proof fn lemma_words_sorted_adjacent()
    ensures
        forall|i: int| 0 <= i < 255 ==> #[trigger] word_key(WORDS@[i]) < word_key(WORDS@[i + 1]),
{
}

proof fn lemma_words_sorted(i: int, j: int)
    requires
        0 <= i < j < 256,
    ensures
        word_key(WORDS@[i]) < word_key(WORDS@[j]),
    decreases j - i,
{
    lemma_words_sorted_adjacent();
    if j > i + 1 {
        lemma_words_sorted(i, j - 1);
        assert(word_key(WORDS@[j - 1]) < word_key(WORDS@[j - 1 + 1]));
    }
}

/// No word occurs twice in the list.
pub proof fn lemma_words_distinct(i: int, j: int)
    requires
        0 <= i < 256,
        0 <= j < 256,
        i != j,
    ensures
        WORDS@[i]@ != WORDS@[j]@,
{
    if i < j {
        lemma_words_sorted(i, j);
    } else {
        lemma_words_sorted(j, i);
    }
    if WORDS@[i]@ == WORDS@[j]@ {
        assert(WORDS@[i]@[0] == WORDS@[i][0]);
        assert(WORDS@[j]@[0] == WORDS@[j][0]);
        assert(WORDS@[i]@[1] == WORDS@[i][1]);
        assert(WORDS@[j]@[1] == WORDS@[j][1]);
        assert(WORDS@[i]@[2] == WORDS@[i][2]);
        assert(WORDS@[j]@[2] == WORDS@[j][2]);
    }
}

proof fn lemma_words_lowercase()
    ensures
        forall|i: int, k: int| 0 <= i < 256 && 0 <= k < 3 ==> 'a' <= #[trigger] WORDS@[i]@[k] <= 'z',
{
    assert forall|i: int, k: int| 0 <= i < 256 && 0 <= k < 3 implies 'a' <= #[trigger] WORDS@[i]@[k] <= 'z' by {
        assert(forall|j: int| 0 <= j < 256 ==> 'a' <= #[trigger] WORDS@[j][0] <= 'z');
        assert(forall|j: int| 0 <= j < 256 ==> 'a' <= #[trigger] WORDS@[j][1] <= 'z');
        assert(forall|j: int| 0 <= j < 256 ==> 'a' <= #[trigger] WORDS@[j][2] <= 'z');
    }
}

/// The first index at or after `i` whose word is `w`.
closed spec fn word_index_from(w: Seq<char>, i: nat) -> Option<u8>
    decreases 256 - i,
{
    if i >= 256 {
        None
    } else if table_word(i as int) == w {
        Some(i as u8)
    } else {
        word_index_from(w, i + 1)
    }
}

/// The byte a word stands for, if it is in the list.
pub closed spec fn word_value(w: Seq<char>) -> Option<u8> {
    word_index_from(w, 0)
}

proof fn lemma_word_index_from(b: u8, i: nat)
    requires
        i <= b,
    ensures
        word_index_from(word(b), i) == Some(b),
    decreases 256 - i,
{
    reveal(table_word);
    if i < b {
        lemma_words_distinct(i as int, b as int);
        lemma_word_index_from(b, i + 1);
    }
}

/// Each word reads back as the byte it stands for.
pub proof fn lemma_word_value(b: u8)
    ensures
        word_value(word(b)) == Some(b),
{
    lemma_word_index_from(b, 0);
}

proof fn lemma_word_index_found(w: Seq<char>, i: nat, b: u8)
    requires
        word_index_from(w, i) == Some(b),
    ensures
        table_word(b as int) == w,
    decreases 256 - i,
{
    if i < 256 && table_word(i as int) != w {
        lemma_word_index_found(w, i + 1, b);
    }
}

/// The word for a byte is the list's entry at that index, and a text
/// stands for a byte exactly when it is that byte's entry.
pub proof fn lemma_word_is_table(b: u8, w: Seq<char>)
    ensures
        word(b) == WORDS@[b as int]@,
        word_value(w) == Some(b) <==> w == WORDS@[b as int]@,
{
    reveal(table_word);
    lemma_word_value(b);
    if word_value(w) == Some(b) {
        lemma_word_index_found(w, 0, b);
    }
}

/// Every word is three lower-case ASCII letters.
pub proof fn lemma_word_shape(b: u8)
    ensures
        word(b).len() == 3,
        forall|k: int| 0 <= k < 3 ==> 'a' <= #[trigger] word(b)[k] <= 'z',
{
    reveal(table_word);
    lemma_words_lowercase();
    assert(word(b).len() == 3);
    assert forall|k: int| 0 <= k < 3 implies 'a' <= #[trigger] word(b)[k] <= 'z' by {
        assert(WORDS@[b as int]@[k] == word(b)[k]);
    }
}

/// Appends the word for byte `b`.
pub fn push_word(s: &mut String, b: u8)
    ensures
        final(s)@ == old(s)@ + word(b),
{
    let w = word_at(b as usize);
    push_char(s, w[0]);
    push_char(s, w[1]);
    push_char(s, w[2]);
    assert(s@ =~= old(s)@ + word(b));
}

/// The byte a word stands for, if it is in the list.
pub fn lookup_word(w: &Vec<char>) -> (r: Option<u8>)
    ensures
        r == word_value(w@),
{
    let mut i: usize = 0;
    while i < 256
        invariant
            i <= 256,
            word_value(w@) == word_index_from(w@, i as nat),
        decreases 256 - i,
    {
        let cand = word_at(i);
        if w.len() == 3 && w[0] == cand[0] && w[1] == cand[1] && w[2] == cand[2] {
            assert(w@ =~= table_word(i as int));
            return Some(i as u8);
        }
        assert(table_word(i as int) != w@) by {
            if table_word(i as int) == w@ {
                assert(w@[0] == cand@[0] && w@[1] == cand@[1] && w@[2] == cand@[2]);
            }
        }
        i = i + 1;
    }
    None
}

} // verus!
