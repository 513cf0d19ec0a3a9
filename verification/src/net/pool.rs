//! The cache of the connection pool: one open Tor circuit per peer, reused
//! while fresh, with the least recently used one evicted when the pool is
//! full. Time is counted in nanoseconds on the pool's own clock.

use vstd::prelude::*;

use crate::keyed::{
    find_key, keys_distinct, lemma_map_of_keys, lemma_map_of_len, lemma_map_of_push, lemma_map_of_remove,
    lemma_map_of_value, map_of, Keyed,
};
use crate::text::str_to_string;

verus! {

/// How long an idle connection is kept before eviction, in seconds.
pub const IDLE_TIMEOUT_SECS: u64 = 300;

/// Timeout for establishing a new Tor circuit, in seconds.
pub const CONNECT_TIMEOUT_SECS: u64 = 30;

/// Timeout for sending a message on an established connection, in seconds.
pub const SEND_TIMEOUT_SECS: u64 = 10;

/// How often the cleanup task sweeps for idle connections, in seconds.
pub const CLEANUP_INTERVAL_SECS: u64 = 60;

/// Maximum number of cached connections in the pool.
pub const MAX_POOL_SIZE: usize = 50;

/// The idle limit in nanoseconds.
pub const IDLE_TIMEOUT_NANOS: u128 = 300_000_000_000;

/// A cached connection and when it was last used.
pub struct PooledConnection<C> {
    pub conn: C,
    pub last_used: u128,
}

/// A connection last used at `last_used` is still fresh at `now`.
pub open spec fn is_fresh(last_used: u128, now: u128) -> bool {
    (if now >= last_used { now - last_used } else { 0 }) < IDLE_TIMEOUT_NANOS
}

/// `victim` is a peer whose connection was used longest ago.
pub open spec fn least_recently_used<C>(m: Map<Seq<char>, PooledConnection<C>>, victim: Seq<char>) -> bool {
    &&& m.contains_key(victim)
    &&& forall|k: Seq<char>| #[trigger] m.contains_key(k) ==> m[victim].last_used <= m[k].last_used
}

/// The fresh connections at `now`.
pub open spec fn fresh_connections<C>(m: Map<Seq<char>, PooledConnection<C>>, now: u128) -> Map<
    Seq<char>,
    PooledConnection<C>,
> {
    Map::new(|k: Seq<char>| m.contains_key(k) && is_fresh(m[k].last_used, now), |k: Seq<char>| m[k])
}

/// The cached connections of the pool, at most `MAX_POOL_SIZE` of them.
pub struct ConnectionPool<C> {
    entries: Vec<Keyed<PooledConnection<C>>>,
}

impl<C> ConnectionPool<C> {
    /// The cached connection of each peer.
    pub closed spec fn cached(&self) -> Map<Seq<char>, PooledConnection<C>> {
        map_of(self.entries@)
    }

    /// One connection per peer, and no more than the pool holds.
    pub closed spec fn wf(&self) -> bool {
        &&& keys_distinct(self.entries@)
        &&& self.entries@.len() <= MAX_POOL_SIZE
    }

    /// An empty cache.
    pub fn new() -> (r: Self)
        ensures
            r.wf(),
            r.cached() == Map::<Seq<char>, PooledConnection<C>>::empty(),
    {
        let r = ConnectionPool { entries: Vec::new() };
        assert(r.cached() =~= Map::<Seq<char>, PooledConnection<C>>::empty());
        r
    }

    /// The number of cached connections.
    pub fn len(&self) -> (n: usize)
        requires
            self.wf(),
        ensures
            n == self.cached().len(),
            n <= MAX_POOL_SIZE,
    {
        proof {
            lemma_map_of_len(self.entries@);
        }
        self.entries.len()
    }

    /// Take the cached connection of `peer` out of the cache, if there is one.
    pub fn take(&mut self, peer: &str) -> (r: Option<PooledConnection<C>>)
        requires
            old(self).wf(),
        ensures
            final(self).wf(),
            final(self).cached() == old(self).cached().remove(peer@),
            match r {
                Some(pc) => old(self).cached().contains_key(peer@) && pc == old(self).cached()[peer@],
                None => !old(self).cached().contains_key(peer@),
            },
    {
        match find_key(&self.entries, peer) {
            Some(i) => {
                proof {
                    lemma_map_of_value(self.entries@, i as int);
                    lemma_map_of_remove(self.entries@, i as int);
                }
                let e = self.entries.remove(i);
                Some(e.value)
            },
            None => {
                proof {
                    lemma_map_of_keys(self.entries@, peer@);
                }
                assert(old(self).cached().remove(peer@) =~= old(self).cached());
                None
            },
        }
    }

    /// Explicitly remove a cached connection for a peer.
    pub fn evict(&mut self, peer: &str)
        requires
            old(self).wf(),
        ensures
            final(self).wf(),
            final(self).cached() == old(self).cached().remove(peer@),
    {
        let _ = self.take(peer);
    }

    /// The position of the entry used longest ago (the first such).
    fn oldest_index(&self) -> (r: usize)
        requires
            self.wf(),
            self.entries@.len() > 0,
        ensures
            r < self.entries@.len(),
            forall|j: int| 0 <= j < self.entries@.len() ==> self.entries@[r as int].value.last_used <= #[trigger] self.entries@[j].value.last_used,
    {
        let mut best: usize = 0;
        let mut i: usize = 1;
        while i < self.entries.len()
            invariant
                0 < self.entries@.len(),
                1 <= i <= self.entries@.len(),
                best < i,
                forall|j: int| 0 <= j < i ==> self.entries@[best as int].value.last_used <= #[trigger] self.entries@[j].value.last_used,
            decreases self.entries@.len() - i,
        {
            if self.entries[i].value.last_used < self.entries[best].value.last_used {
                best = i;
            }
            i = i + 1;
        }
        best
    }

    /// Cache `conn` as the connection of `peer`, used at `now`. When the
    /// pool is full, the connection used longest ago is evicted first.
    pub fn insert(&mut self, peer: &str, conn: C, now: u128)
        requires
            old(self).wf(),
        ensures
            final(self).wf(),
            old(self).cached().len() < MAX_POOL_SIZE ==> final(self).cached() == old(self).cached().insert(
                peer@,
                PooledConnection { conn, last_used: now },
            ),
            old(self).cached().len() >= MAX_POOL_SIZE ==> exists|victim: Seq<char>|
                least_recently_used(old(self).cached(), victim) && final(self).cached()
                    == old(self).cached().remove(victim).insert(peer@, PooledConnection { conn, last_used: now }),
    {
        proof {
            lemma_map_of_len(self.entries@);
        }
        let ghost before = self.cached();
        if self.entries.len() >= MAX_POOL_SIZE {
            let i = self.oldest_index();
            let ghost victim = self.entries@[i as int].key@;
            proof {
                lemma_map_of_value(self.entries@, i as int);
                lemma_map_of_remove(self.entries@, i as int);
                assert forall|k: Seq<char>| #[trigger] before.contains_key(k) implies before[victim].last_used <= before[k].last_used by {
                    lemma_map_of_keys(self.entries@, k);
                    let j = choose|j: int| 0 <= j < self.entries@.len() && self.entries@[j].key@ == k;
                    lemma_map_of_value(self.entries@, j);
                }
            }
            let _ = self.entries.remove(i);
            self.put(peer, conn, now);
            assert(least_recently_used(before, victim));
        } else {
            self.put(peer, conn, now);
        }
    }

    /// Set the connection of `peer`, with room for one more entry.
    fn put(&mut self, peer: &str, conn: C, now: u128)
        requires
            keys_distinct(old(self).entries@),
            old(self).entries@.len() < MAX_POOL_SIZE,
        ensures
            final(self).wf(),
            final(self).cached() == old(self).cached().insert(peer@, PooledConnection { conn, last_used: now }),
    {
        match find_key(&self.entries, peer) {
            Some(i) => {
                proof {
                    lemma_map_of_remove(self.entries@, i as int);
                }
                let _ = self.entries.remove(i);
                let entry = Keyed { key: str_to_string(peer), value: PooledConnection { conn, last_used: now } };
                proof {
                    lemma_map_of_keys(self.entries@, peer@);
                    lemma_map_of_push(self.entries@, entry);
                }
                self.entries.push(entry);
                assert(old(self).cached().remove(peer@).insert(peer@, PooledConnection { conn, last_used: now })
                    =~= old(self).cached().insert(peer@, PooledConnection { conn, last_used: now }));
            },
            None => {
                let entry = Keyed { key: str_to_string(peer), value: PooledConnection { conn, last_used: now } };
                proof {
                    lemma_map_of_keys(self.entries@, peer@);
                    lemma_map_of_push(self.entries@, entry);
                }
                self.entries.push(entry);
            },
        }
    }

    /// The peers whose connections are still fresh at `now`.
    pub fn connected_peers(&self, now: u128) -> (r: Vec<String>)
        requires
            self.wf(),
        ensures
            forall|i: int| 0 <= i < r@.len() ==> #[trigger] fresh_connections(self.cached(), now).contains_key(r@[i]@),
            forall|k: Seq<char>| #[trigger] fresh_connections(self.cached(), now).contains_key(k) ==> exists|i: int|
                0 <= i < r@.len() && r@[i]@ == k,
    {
        let mut r: Vec<String> = Vec::new();
        let mut i: usize = 0;
        while i < self.entries.len()
            invariant
                self.wf(),
                i <= self.entries@.len(),
                forall|j: int| 0 <= j < r@.len() ==> exists|m: int| 0 <= m < i && #[trigger] r@[j]@ == self.entries@[m].key@
                    && is_fresh(self.entries@[m].value.last_used, now),
                forall|m: int| 0 <= m < i && is_fresh(#[trigger] self.entries@[m].value.last_used, now) ==> exists|j: int|
                    0 <= j < r@.len() && r@[j]@ == self.entries@[m].key@,
            decreases self.entries@.len() - i,
        {
            let e = &self.entries[i];
            let elapsed: u128 = if now >= e.value.last_used { now - e.value.last_used } else { 0 };
            if elapsed < IDLE_TIMEOUT_NANOS {
                let ghost before = r@;
                r.push(e.key.clone());
                assert(r@[r@.len() - 1]@ == self.entries@[i as int].key@);
                assert forall|j: int| 0 <= j < r@.len() implies exists|m: int| 0 <= m < i + 1 && #[trigger] r@[j]@ == self.entries@[m].key@
                    && is_fresh(self.entries@[m].value.last_used, now) by {
                    if j < before.len() {
                        assert(r@[j] == before[j]);
                    }
                }
                assert forall|m: int| 0 <= m < i + 1 && is_fresh(#[trigger] self.entries@[m].value.last_used, now) implies exists|j: int|
                    0 <= j < r@.len() && r@[j]@ == self.entries@[m].key@ by {
                    if m < i {
                        let j = choose|j: int| 0 <= j < before.len() && before[j]@ == self.entries@[m].key@;
                        assert(r@[j] == before[j]);
                    } else {
                        assert(r@[r@.len() - 1]@ == self.entries@[m].key@);
                    }
                }
            }
            i = i + 1;
        }
        assert forall|k: Seq<char>| #[trigger] fresh_connections(self.cached(), now).contains_key(k) implies exists|i: int|
            0 <= i < r@.len() && r@[i]@ == k by {
            lemma_map_of_keys(self.entries@, k);
            let m = choose|m: int| 0 <= m < self.entries@.len() && self.entries@[m].key@ == k;
            lemma_map_of_value(self.entries@, m);
            assert(is_fresh(self.entries@[m].value.last_used, now));
        }
        assert forall|i: int| 0 <= i < r@.len() implies #[trigger] fresh_connections(self.cached(), now).contains_key(r@[i]@) by {
            let m = choose|m: int| 0 <= m < self.entries@.len() && r@[i]@ == self.entries@[m].key@
                && is_fresh(self.entries@[m].value.last_used, now);
            lemma_map_of_value(self.entries@, m);
        }
        r
    }

    /// Drop the connections idle for `IDLE_TIMEOUT_NANOS` at `now` (the
    /// cleanup sweep), returning how many were dropped.
    pub fn evict_idle(&mut self, now: u128) -> (evicted: usize)
        requires
            old(self).wf(),
        ensures
            final(self).wf(),
            final(self).cached() == fresh_connections(old(self).cached(), now),
            evicted == old(self).cached().len() - final(self).cached().len(),
    {
        let mut rest: Vec<Keyed<PooledConnection<C>>> = Vec::new();
        std::mem::swap(&mut rest, &mut self.entries);
        let ghost s = rest@;
        let n = rest.len();
        let mut kept: Vec<Keyed<PooledConnection<C>>> = Vec::new();
        let mut i: usize = 0;
        while i < n
            invariant
                n == s.len(),
                i <= n,
                rest@ == s.skip(i as int),
                keys_distinct(s),
                s.len() <= MAX_POOL_SIZE,
                keys_distinct(kept@),
                kept@.len() <= i,
                map_of(kept@) == fresh_connections(map_of(s.take(i as int)), now),
            decreases n - i,
        {
            let e = rest.remove(0);
            assert(e == s[i as int]);
            proof {
                assert(s.take(i + 1).drop_last() =~= s.take(i as int));
                assert(rest@ =~= s.skip(i + 1));
                lemma_map_of_keys(s.take(i as int), e.key@);
                assert(!map_of(s.take(i as int)).contains_key(e.key@)) by {
                    if map_of(s.take(i as int)).contains_key(e.key@) {
                        let j = choose|j: int| 0 <= j < i && s.take(i as int)[j].key@ == e.key@;
                        assert(s[j].key@ == s[i as int].key@);
                    }
                }
            }
            let elapsed: u128 = if now >= e.value.last_used { now - e.value.last_used } else { 0 };
            if elapsed < IDLE_TIMEOUT_NANOS {
                proof {
                    lemma_map_of_push(kept@, e);
                }
                kept.push(e);
                assert(map_of(kept@) =~= fresh_connections(map_of(s.take(i + 1)), now));
            } else {
                assert(map_of(kept@) =~= fresh_connections(map_of(s.take(i + 1)), now));
            }
            i = i + 1;
        }
        proof {
            assert(s.take(n as int) =~= s);
            lemma_map_of_len(s);
            lemma_map_of_len(kept@);
        }
        self.entries = kept;
        n - self.entries.len()
    }
}

/// The pool never holds more than `MAX_POOL_SIZE` connections, whatever is
/// inserted.
pub proof fn lemma_pool_bounded<C>(cache: ConnectionPool<C>)
    requires
        cache.wf(),
    ensures
        cache.cached().len() <= MAX_POOL_SIZE,
{
    lemma_map_of_len(cache.entries@);
}

} // verus!
