//! Values kept by a peer's onion address in a vector: at most one entry
//! per address, seen as a map from address to value.

use vstd::prelude::*;

use crate::text::str_equals;

verus! {

/// A value and the onion address it belongs to.
#[derive(Debug)]
pub struct Keyed<V> {
    pub key: String,
    pub value: V,
}

/// The entries as a map from address to value (a later entry wins).
pub open spec fn map_of<V>(s: Seq<Keyed<V>>) -> Map<Seq<char>, V>
    decreases s.len(),
{
    if s.len() == 0 {
        Map::empty()
    } else {
        map_of(s.drop_last()).insert(s.last().key@, s.last().value)
    }
}

/// No address has two entries.
pub open spec fn keys_distinct<V>(s: Seq<Keyed<V>>) -> bool {
    forall|i: int, j: int| 0 <= i < j < s.len() ==> s[i].key@ != s[j].key@
}

/// An address is in the map exactly when some entry has it.
pub proof fn lemma_map_of_keys<V>(s: Seq<Keyed<V>>, k: Seq<char>)
    ensures
        map_of(s).contains_key(k) <==> exists|i: int| 0 <= i < s.len() && s[i].key@ == k,
    decreases s.len(),
{
    if s.len() > 0 {
        lemma_map_of_keys(s.drop_last(), k);
        if map_of(s.drop_last()).contains_key(k) {
            let i = choose|i: int| 0 <= i < s.drop_last().len() && s.drop_last()[i].key@ == k;
            assert(s[i].key@ == k);
        }
        if exists|i: int| 0 <= i < s.len() && s[i].key@ == k {
            let i = choose|i: int| 0 <= i < s.len() && s[i].key@ == k;
            if i < s.len() - 1 {
                assert(s.drop_last()[i].key@ == k);
            }
        }
    }
}

/// With distinct addresses, each entry's value is the map's value at its
/// address.
pub proof fn lemma_map_of_value<V>(s: Seq<Keyed<V>>, i: int)
    requires
        keys_distinct(s),
        0 <= i < s.len(),
    ensures
        map_of(s).contains_key(s[i].key@),
        map_of(s)[s[i].key@] == s[i].value,
    decreases s.len(),
{
    if i < s.len() - 1 {
        lemma_map_of_value(s.drop_last(), i);
        assert(s.drop_last()[i] == s[i]);
    }
}

/// With distinct addresses, the map has one key per entry.
pub proof fn lemma_map_of_len<V>(s: Seq<Keyed<V>>)
    requires
        keys_distinct(s),
    ensures
        map_of(s).dom().finite(),
        map_of(s).len() == s.len(),
    decreases s.len(),
{
    if s.len() > 0 {
        let init = s.drop_last();
        lemma_map_of_len(init);
        lemma_map_of_keys(init, s.last().key@);
        assert(!map_of(init).contains_key(s.last().key@)) by {
            if map_of(init).contains_key(s.last().key@) {
                let j = choose|j: int| 0 <= j < init.len() && init[j].key@ == s.last().key@;
                assert(s[j].key@ == s[s.len() - 1].key@);
            }
        }
    }
}

/// Replacing an entry by one with the same address keeps the addresses
/// distinct and sets that address's value.
pub proof fn lemma_map_of_update<V>(s: Seq<Keyed<V>>, i: int, e: Keyed<V>)
    requires
        keys_distinct(s),
        0 <= i < s.len(),
        s[i].key@ == e.key@,
    ensures
        keys_distinct(s.update(i, e)),
        map_of(s.update(i, e)) == map_of(s).insert(e.key@, e.value),
{
    let t = s.update(i, e);
    assert(keys_distinct(t));
    assert forall|k: Seq<char>| #[trigger] map_of(t).contains_key(k) == map_of(s).insert(
        e.key@,
        e.value,
    ).contains_key(k) by {
        lemma_map_of_keys(t, k);
        lemma_map_of_keys(s, k);
        if exists|j: int| 0 <= j < s.len() && s[j].key@ == k {
            let j = choose|j: int| 0 <= j < s.len() && s[j].key@ == k;
            if j != i {
                assert(t[j].key@ == k);
            }
        }
        if exists|j: int| 0 <= j < t.len() && t[j].key@ == k {
            let j = choose|j: int| 0 <= j < t.len() && t[j].key@ == k;
            if j != i {
                assert(s[j].key@ == k);
            }
        }
        assert(t[i].key@ == e.key@);
    }
    assert forall|k: Seq<char>| #[trigger] map_of(t).contains_key(k) implies map_of(t)[k]
        == map_of(s).insert(e.key@, e.value)[k] by {
        lemma_map_of_keys(t, k);
        let j = choose|j: int| 0 <= j < t.len() && t[j].key@ == k;
        lemma_map_of_value(t, j);
        if j != i {
            lemma_map_of_value(s, j);
        }
    }
    assert(map_of(t) =~= map_of(s).insert(e.key@, e.value));
}

/// Appending an entry for a new address keeps the addresses distinct and
/// adds that address with its value.
pub proof fn lemma_map_of_push<V>(s: Seq<Keyed<V>>, e: Keyed<V>)
    requires
        keys_distinct(s),
        !map_of(s).contains_key(e.key@),
    ensures
        keys_distinct(s.push(e)),
        map_of(s.push(e)) == map_of(s).insert(e.key@, e.value),
{
    assert(s.push(e).drop_last() =~= s);
    lemma_map_of_keys(s, e.key@);
    assert forall|i: int, j: int| 0 <= i < j < s.push(e).len() implies s.push(e)[i].key@ != s.push(
        e,
    )[j].key@ by {
        if j == s.len() {
            assert(s[i].key@ == s.push(e)[i].key@);
        }
    }
}

/// Removing the entry at `i` removes its key from the map and nothing else.
pub proof fn lemma_map_of_remove<V>(s: Seq<Keyed<V>>, i: int)
    requires
        keys_distinct(s),
        0 <= i < s.len(),
    ensures
        keys_distinct(s.remove(i)),
        map_of(s.remove(i)) == map_of(s).remove(s[i].key@),
{
    let t = s.remove(i);
    assert forall|a: int, b: int| 0 <= a < b < t.len() implies t[a].key@ != t[b].key@ by {
        let a2 = if a < i { a } else { a + 1 };
        let b2 = if b < i { b } else { b + 1 };
        assert(t[a] == s[a2]);
        assert(t[b] == s[b2]);
    }
    assert forall|k: Seq<char>| #[trigger] map_of(t).contains_key(k) == map_of(s).remove(s[i].key@).contains_key(k) by {
        lemma_map_of_keys(t, k);
        lemma_map_of_keys(s, k);
        if exists|j: int| 0 <= j < s.len() && s[j].key@ == k {
            let j = choose|j: int| 0 <= j < s.len() && s[j].key@ == k;
            if j < i {
                assert(t[j].key@ == k);
            } else if j > i {
                assert(t[j - 1].key@ == k);
            }
        }
        if exists|j: int| 0 <= j < t.len() && t[j].key@ == k {
            let j = choose|j: int| 0 <= j < t.len() && t[j].key@ == k;
            let j2 = if j < i { j } else { j + 1 };
            assert(s[j2].key@ == k);
        }
    }
    assert forall|k: Seq<char>| #[trigger] map_of(t).contains_key(k) implies map_of(t)[k]
        == map_of(s).remove(s[i].key@)[k] by {
        lemma_map_of_keys(t, k);
        let j = choose|j: int| 0 <= j < t.len() && t[j].key@ == k;
        lemma_map_of_value(t, j);
        let j2 = if j < i { j } else { j + 1 };
        assert(t[j] == s[j2]);
        lemma_map_of_value(s, j2);
    }
    assert(map_of(t) =~= map_of(s).remove(s[i].key@));
}

/// The index of the entry for `key`, if there is one.
pub fn find_key<V>(entries: &Vec<Keyed<V>>, key: &str) -> (r: Option<usize>)
    ensures
        match r {
            Some(i) => i < entries@.len() && entries@[i as int].key@ == key@,
            None => forall|j: int| 0 <= j < entries@.len() ==> entries@[j].key@ != key@,
        },
{
    let mut i: usize = 0;
    while i < entries.len()
        invariant
            i <= entries@.len(),
            forall|j: int| 0 <= j < i ==> entries@[j].key@ != key@,
        decreases entries@.len() - i,
    {
        if str_equals(entries[i].key.as_str(), key) {
            return Some(i);
        }
        i = i + 1;
    }
    None
}

} // verus!
