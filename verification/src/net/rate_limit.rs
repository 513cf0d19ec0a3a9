//! Per-peer token bucket rate limiter for inbound messages.
//!
//! The limiter has an independent bucket per peer onion, so one peer's abuse
//! doesn't affect others. It is consulted on every inbound message in the
//! main dispatch loop; messages with no identifiable peer (delivery / read
//! receipts) skip the check.
//!
//! Tokens are counted in billionths of a token and time in nanoseconds, so
//! a refill of `elapsed * rate` is exact.

use vstd::prelude::*;

use crate::presence::{elapsed_nanos, instant_now};
use crate::keyed::{
    find_key, keys_distinct, lemma_map_of_keys, lemma_map_of_len, lemma_map_of_push, lemma_map_of_update,
    lemma_map_of_value, map_of, Keyed,
};
use crate::text::str_to_string;

verus! {

/// Tokens per second (sustained) of the default limiter.
pub const DEFAULT_RATE: u32 = 5;

/// Largest burst of the default limiter.
pub const DEFAULT_BURST: u32 = 20;

/// One whole token, in the unit the buckets count in.
pub const TOKEN: u128 = 1_000_000_000;

/// Drop a peer's bucket from memory after this many nanoseconds (one hour)
/// of inactivity. Bounds memory if an adversary churns through onion
/// addresses.
pub const BUCKET_IDLE_TTL_NANOS: u128 = 3_600_000_000_000;

/// A peer's bucket: the tokens it holds (in billionths) and when it was
/// last refilled (nanoseconds on the limiter's clock).
#[derive(Clone, Copy, Debug)]
pub struct TokenBucket {
    pub tokens: u128,
    pub last_refill: u128,
}

/// The most tokens (in billionths) a bucket of this burst size can hold.
pub open spec fn capacity(burst: u32) -> int {
    burst * TOKEN
}

/// Nanoseconds from `last` to `now`; zero if `now` comes first.
pub open spec fn elapsed_since(last: u128, now: u128) -> int {
    if now >= last { now - last } else { 0 }
}

/// The tokens of `b` after refilling at `rate` tokens per second until `now`.
pub open spec fn refilled(b: TokenBucket, now: u128, rate: u32, burst: u32) -> int {
    let grown = b.tokens + elapsed_since(b.last_refill, now) * rate;
    if grown < capacity(burst) { grown } else { capacity(burst) }
}

/// The bucket that a check of `peer` starts from: its own, or a full new one.
pub open spec fn bucket_before(
    m: Map<Seq<char>, TokenBucket>,
    peer: Seq<char>,
    now: u128,
    burst: u32,
) -> TokenBucket {
    if m.contains_key(peer) {
        m[peer]
    } else {
        TokenBucket { tokens: capacity(burst) as u128, last_refill: now }
    }
}

/// Whether a check of `peer` at `now` lets the message through.
pub open spec fn check_allows(
    m: Map<Seq<char>, TokenBucket>,
    peer: Seq<char>,
    now: u128,
    rate: u32,
    burst: u32,
) -> bool {
    refilled(bucket_before(m, peer, now, burst), now, rate, burst) >= TOKEN
}

/// The buckets after a check of `peer` at `now`: the peer's bucket is
/// refilled, one token is taken if there is one, and nothing else changes.
pub open spec fn buckets_after_check(
    m: Map<Seq<char>, TokenBucket>,
    peer: Seq<char>,
    now: u128,
    rate: u32,
    burst: u32,
) -> Map<Seq<char>, TokenBucket> {
    let t = refilled(bucket_before(m, peer, now, burst), now, rate, burst);
    let left = if t >= TOKEN { t - TOKEN } else { t };
    m.insert(peer, TokenBucket { tokens: left as u128, last_refill: now })
}

/// A bucket untouched for at least the idle limit at `now`.
pub open spec fn is_idle(b: TokenBucket, now: u128) -> bool {
    elapsed_since(b.last_refill, now) >= BUCKET_IDLE_TTL_NANOS
}

/// The buckets that survive a collection at `now`.
pub open spec fn active_buckets(m: Map<Seq<char>, TokenBucket>, now: u128) -> Map<
    Seq<char>,
    TokenBucket,
> {
    Map::new(|k: Seq<char>| m.contains_key(k) && !is_idle(m[k], now), |k: Seq<char>| m[k])
}

/// A refill adds exactly the tokens earned at the sustained rate over the
/// time since the last refill, capped only at the burst: for any bucket,
/// the refilled tokens are the smaller of (held + elapsed * rate) and the
/// capacity of `burst` whole tokens.
pub proof fn lemma_refill_exact(b: TokenBucket, now: u128, rate: u32, burst: u32)
    ensures
        ({
            let elapsed: int = if now >= b.last_refill { now - b.last_refill } else { 0 };
            let sum: int = b.tokens + elapsed * rate;
            refilled(b, now, rate, burst) == if sum <= burst * TOKEN { sum } else { burst * TOKEN }
        }),
{
}

/// A peer idle long enough to earn a full burst at the sustained rate gets
/// its whole burst back: its next `burst` checks at one instant all pass.
pub proof fn lemma_idle_peer_regains_burst(
    m: Map<Seq<char>, TokenBucket>,
    peer: Seq<char>,
    now: u128,
    rate: u32,
    burst: u32,
)
    requires
        m.contains_key(peer),
        now >= m[peer].last_refill,
        (now - m[peer].last_refill) * rate >= burst * TOKEN,
    ensures
        timed_checks(m, peer, Seq::new(burst as nat, |i: int| now), rate, burst).0 == burst,
{
    let b = m[peer];
    let t = (now - b.last_refill) as int;
    assert(b.tokens + t * rate >= burst * TOKEN) by (nonlinear_arith)
        requires
            t * rate >= burst * TOKEN,
            b.tokens >= 0,
    ;
    assert(refilled(b, now, rate, burst) == capacity(burst));
    lemma_full_bucket_checks(m, peer, now, rate, burst, burst as nat);
}

proof fn lemma_full_bucket_checks(
    m: Map<Seq<char>, TokenBucket>,
    peer: Seq<char>,
    now: u128,
    rate: u32,
    burst: u32,
    n: nat,
)
    requires
        refilled(bucket_before(m, peer, now, burst), now, rate, burst) == capacity(burst),
        n <= burst,
    ensures
        ({
            let (allowed, after) = timed_checks(m, peer, Seq::new(n, |i: int| now), rate, burst);
            &&& allowed == n
            &&& n > 0 ==> after.contains_key(peer) && after[peer].last_refill == now && after[peer].tokens == (
            burst - n) * TOKEN
        }),
    decreases n,
{
    let times = Seq::new(n, |i: int| now);
    if n > 0 {
        assert(times.drop_last() =~= Seq::new((n - 1) as nat, |i: int| now));
        lemma_full_bucket_checks(m, peer, now, rate, burst, (n - 1) as nat);
    }
}

/// How many checks of one peer, made at the clock readings `times` in turn,
/// are let through, and the buckets after them.
pub open spec fn timed_checks(
    m: Map<Seq<char>, TokenBucket>,
    peer: Seq<char>,
    times: Seq<u128>,
    rate: u32,
    burst: u32,
) -> (nat, Map<Seq<char>, TokenBucket>)
    decreases times.len(),
{
    if times.len() == 0 {
        (0, m)
    } else {
        let (allowed, before) = timed_checks(m, peer, times.drop_last(), rate, burst);
        let now = times.last();
        let this = if check_allows(before, peer, now, rate, burst) { 1nat } else { 0nat };
        (allowed + this, buckets_after_check(before, peer, now, rate, burst))
    }
}

/// The readings never go back.
pub open spec fn nondecreasing(times: Seq<u128>) -> bool {
    forall|i: int, j: int| 0 <= i <= j < times.len() ==> times[i] <= times[j]
}

proof fn lemma_window_state(
    m: Map<Seq<char>, TokenBucket>,
    peer: Seq<char>,
    times: Seq<u128>,
    rate: u32,
    burst: u32,
)
    requires
        !m.contains_key(peer),
        times.len() >= 1,
        nondecreasing(times),
        (times.last() - times[0]) * rate < TOKEN,
    ensures
        ({
            let (allowed, after) = timed_checks(m, peer, times, rate, burst);
            let spent: int = if times.len() < burst { times.len() as int } else { burst as int };
            &&& allowed == spent
            &&& after.contains_key(peer)
            &&& after[peer].last_refill == times.last()
            &&& (burst - spent) * TOKEN <= after[peer].tokens
            &&& after[peer].tokens <= (burst - spent) * TOKEN + (times.last() - times[0]) * rate
        }),
    decreases times.len(),
{
    reveal_with_fuel(timed_checks, 2);
    if times.len() > 1 {
        let prefix = times.drop_last();
        let t0 = times[0] as int;
        let tp = prefix.last() as int;
        let tn = times.last() as int;
        assert(t0 <= tp <= tn);
        assert((tp - t0) * rate <= (tn - t0) * rate) by (nonlinear_arith)
            requires
                t0 <= tp <= tn,
                rate >= 0,
        ;
        assert((tn - t0) * rate == (tn - tp) * rate + (tp - t0) * rate) by (nonlinear_arith);
        assert((tn - tp) * rate >= 0) by (nonlinear_arith)
            requires
                tp <= tn,
                rate >= 0,
        ;
        lemma_window_state(m, peer, prefix, rate, burst);
    }
}

/// The burst of a new peer, over a run of checks whose readings lie within
/// less time than it takes to earn one token: exactly the first `burst`
/// checks get through and the rest are refused.
pub proof fn lemma_burst_within_window(
    m: Map<Seq<char>, TokenBucket>,
    peer: Seq<char>,
    times: Seq<u128>,
    rate: u32,
    burst: u32,
)
    requires
        !m.contains_key(peer),
        nondecreasing(times),
        times.len() >= 1 ==> (times.last() - times[0]) * rate < TOKEN,
    ensures
        timed_checks(m, peer, times, rate, burst).0 == if times.len() < burst {
            times.len()
        } else {
            burst as nat
        },
{
    if times.len() >= 1 {
        lemma_window_state(m, peer, times, rate, burst);
    }
}

proof fn lemma_timed_checks_keep_others(
    m: Map<Seq<char>, TokenBucket>,
    peer: Seq<char>,
    other: Seq<char>,
    times: Seq<u128>,
    rate: u32,
    burst: u32,
)
    requires
        peer != other,
    ensures
        timed_checks(m, peer, times, rate, burst).1.contains_key(other) == m.contains_key(other),
    decreases times.len(),
{
    if times.len() > 0 {
        lemma_timed_checks_keep_others(m, peer, other, times.drop_last(), rate, burst);
    }
}

/// However a run of checks of one peer went, at whatever readings, the
/// first check of another peer goes through, when a bucket holds a token
/// at all.
pub proof fn lemma_other_peer_keeps_its_burst(
    m: Map<Seq<char>, TokenBucket>,
    peer: Seq<char>,
    other: Seq<char>,
    times: Seq<u128>,
    now: u128,
    rate: u32,
    burst: u32,
)
    requires
        peer != other,
        !m.contains_key(other),
        burst >= 1,
    ensures
        check_allows(timed_checks(m, peer, times, rate, burst).1, other, now, rate, burst),
{
    lemma_timed_checks_keep_others(m, peer, other, times, rate, burst);
}

/// A check of one peer changes no other peer's bucket.
pub proof fn lemma_peers_independent(
    m: Map<Seq<char>, TokenBucket>,
    peer: Seq<char>,
    other: Seq<char>,
    now: u128,
    rate: u32,
    burst: u32,
)
    requires
        peer != other,
    ensures
        buckets_after_check(m, peer, now, rate, burst).contains_key(other) == m.contains_key(other),
        m.contains_key(other) ==> buckets_after_check(m, peer, now, rate, burst)[other] == m[other],
{
}

/// Once a peer has been checked at `now`, waiting long enough to earn one
/// token at the sustained rate always lets its next message through,
/// provided a bucket can hold a token at all.
pub proof fn lemma_wait_earns_a_message(
    m: Map<Seq<char>, TokenBucket>,
    peer: Seq<char>,
    now: u128,
    later: u128,
    rate: u32,
    burst: u32,
)
    requires
        burst >= 1,
        later >= now,
        (later - now) * rate >= TOKEN,
    ensures
        check_allows(buckets_after_check(m, peer, now, rate, burst), peer, later, rate, burst),
{
}

/// A bucket that was just checked survives a collection made before it has
/// been idle for the limit.
pub proof fn lemma_checked_bucket_survives_gc(
    m: Map<Seq<char>, TokenBucket>,
    peer: Seq<char>,
    now: u128,
    later: u128,
    rate: u32,
    burst: u32,
)
    requires
        later < now + BUCKET_IDLE_TTL_NANOS,
    ensures
        active_buckets(buckets_after_check(m, peer, now, rate, burst), later).contains_key(peer),
{
}

spec fn within_capacity(s: Seq<Keyed<TokenBucket>>, burst: u32) -> bool {
    forall|i: int| 0 <= i < s.len() ==> s[i].value.tokens <= capacity(burst)
}

/// Per-peer token bucket rate limiter.
pub struct RateLimiter {
    buckets: Vec<Keyed<TokenBucket>>,
    rate: u32,
    burst: u32,
    origin: std::time::Instant,
}

impl RateLimiter {
    /// Each peer's bucket, by the peer's onion address.
    pub closed spec fn buckets(&self) -> Map<Seq<char>, TokenBucket> {
        map_of(self.buckets@)
    }

    /// Tokens per second that each bucket regains.
    pub closed spec fn rate(&self) -> u32 {
        self.rate
    }

    /// The most tokens a bucket holds.
    pub closed spec fn burst(&self) -> u32 {
        self.burst
    }

    /// No peer has two buckets, and no bucket holds more than the burst.
    pub closed spec fn wf(&self) -> bool {
        &&& keys_distinct(self.buckets@)
        &&& within_capacity(self.buckets@, self.burst)
    }

    /// A limiter with no buckets yet.
    pub fn new(rate: u32, burst: u32) -> (r: Self)
        ensures
            r.wf(),
            r.buckets() == Map::<Seq<char>, TokenBucket>::empty(),
            r.rate() == rate,
            r.burst() == burst,
    {
        let r = RateLimiter { buckets: Vec::new(), rate, burst, origin: instant_now() };
        assert(r.buckets() =~= Map::<Seq<char>, TokenBucket>::empty());
        r
    }

    /// Default rate limiter: 5 req/s sustained, 20 burst per peer.
    pub fn default_limiter() -> (r: Self)
        ensures
            r.wf(),
            r.buckets() == Map::<Seq<char>, TokenBucket>::empty(),
            r.rate() == DEFAULT_RATE,
            r.burst() == DEFAULT_BURST,
    {
        Self::new(DEFAULT_RATE, DEFAULT_BURST)
    }

    /// The tokens of bucket `b` after refilling until `now`.
    fn refill(&self, b: TokenBucket, now: u128) -> (t: u128)
        requires
            b.tokens <= capacity(self.burst),
        ensures
            t == refilled(b, now, self.rate, self.burst),
            t <= capacity(self.burst),
    {
        let cap: u128 = self.burst as u128 * TOKEN;
        let elapsed: u128 = if now >= b.last_refill { now - b.last_refill } else { 0 };
        let rate: u128 = self.rate as u128;
        let ghost grown: int = b.tokens + elapsed * rate;
        let add: u128 = if rate == 0 {
            assert(elapsed * rate == 0) by (nonlinear_arith)
                requires rate == 0;
            0
        } else if elapsed >= cap {
            assert(elapsed * rate >= elapsed) by (nonlinear_arith)
                requires rate >= 1;
            cap
        } else {
            assert(elapsed * rate <= cap * 0xffff_ffffu128) by (nonlinear_arith)
                requires elapsed < cap, rate <= 0xffff_ffffu128;
            elapsed * rate
        };
        let sum: u128 = b.tokens + add;
        if sum < cap {
            sum
        } else {
            cap
        }
    }

    /// Returns true if a message from `peer` at `now` nanoseconds on the
    /// limiter's clock should be allowed, false if it is rate limited.
    pub fn check_at(&mut self, peer: &str, now: u128) -> (allowed: bool)
        requires
            old(self).wf(),
        ensures
            final(self).wf(),
            final(self).rate() == old(self).rate(),
            final(self).burst() == old(self).burst(),
            allowed == check_allows(old(self).buckets(), peer@, now, old(self).rate(), old(self).burst()),
            final(self).buckets() == buckets_after_check(
                old(self).buckets(),
                peer@,
                now,
                old(self).rate(),
                old(self).burst(),
            ),
    {
        let ghost m = self.buckets();
        let found_at = find_key(&self.buckets, peer);
        let cap: u128 = self.burst as u128 * TOKEN;
        let start = if let Some(i) = found_at {
            proof {
                lemma_map_of_value(self.buckets@, i as int);
            }
            self.buckets[i].value
        } else {
            proof {
                lemma_map_of_keys(self.buckets@, peer@);
            }
            TokenBucket { tokens: cap, last_refill: now }
        };
        assert(start == bucket_before(m, peer@, now, self.burst));
        let t = self.refill(start, now);
        let allowed = t >= TOKEN;
        let left: u128 = if allowed { t - TOKEN } else { t };
        let entry = Keyed {
            key: str_to_string(peer),
            value: TokenBucket { tokens: left, last_refill: now },
        };
        match found_at {
            Some(i) => {
                proof {
                    lemma_map_of_update(self.buckets@, i as int, entry);
                }
                self.buckets.set(i, entry);
            },
            None => {
                proof {
                    lemma_map_of_push(self.buckets@, entry);
                }
                self.buckets.push(entry);
            },
        }
        allowed
    }

    /// Nanoseconds on the limiter's clock now (a reading that no clause
    /// fixes).
    pub(crate) fn clock(&self) -> u128 {
        elapsed_nanos(&self.origin)
    }

    /// Returns true if a message from `peer` should be allowed now, false if
    /// it is rate limited. The reading of the clock is the limiter's only
    /// input that no clause fixes.
    pub fn check(&mut self, peer: &str) -> (allowed: bool)
        requires
            old(self).wf(),
        ensures
            final(self).wf(),
            final(self).rate() == old(self).rate(),
            final(self).burst() == old(self).burst(),
            exists|now: u128|
                allowed == check_allows(old(self).buckets(), peer@, now, old(self).rate(), old(self).burst())
                && final(self).buckets() == buckets_after_check(
                    old(self).buckets(),
                    peer@,
                    now,
                    old(self).rate(),
                    old(self).burst(),
                ),
    {
        let now = self.clock();
        self.check_at(peer, now)
    }

    /// Drops the buckets idle for `BUCKET_IDLE_TTL_NANOS` at `now` and
    /// returns how many were dropped.
    pub fn gc_idle_at(&mut self, now: u128) -> (evicted: usize)
        requires
            old(self).wf(),
        ensures
            final(self).wf(),
            final(self).rate() == old(self).rate(),
            final(self).burst() == old(self).burst(),
            final(self).buckets() == active_buckets(old(self).buckets(), now),
            evicted == old(self).buckets().len() - final(self).buckets().len(),
    {
        let mut old_buckets: Vec<Keyed<TokenBucket>> = Vec::new();
        std::mem::swap(&mut old_buckets, &mut self.buckets);
        let ghost s = old_buckets@;
        let mut kept: Vec<Keyed<TokenBucket>> = Vec::new();
        let mut i: usize = 0;
        while i < old_buckets.len()
            invariant
                i <= old_buckets.len(),
                s == old_buckets@,
                keys_distinct(s),
                within_capacity(s, self.burst),
                keys_distinct(kept@),
                within_capacity(kept@, self.burst),
                kept.len() <= i,
                map_of(kept@) == active_buckets(map_of(s.take(i as int)), now),
            decreases old_buckets.len() - i,
        {
            let e = &old_buckets[i];
            let ghost before = map_of(kept@);
            proof {
                assert(s.take(i + 1).drop_last() =~= s.take(i as int));
                lemma_map_of_keys(s.take(i as int), e.key@);
                assert(!map_of(s.take(i as int)).contains_key(e.key@)) by {
                    if map_of(s.take(i as int)).contains_key(e.key@) {
                        let j = choose|j: int| 0 <= j < i && s.take(i as int)[j].key@ == e.key@;
                        assert(s[j].key@ == s[i as int].key@);
                    }
                }
            }
            let elapsed: u128 = if now >= e.value.last_refill { now - e.value.last_refill } else { 0 };
            if elapsed < BUCKET_IDLE_TTL_NANOS {
                let copy = Keyed { key: e.key.clone(), value: e.value };
                proof {
                    lemma_map_of_push(kept@, copy);
                }
                kept.push(copy);
                assert(map_of(kept@) =~= active_buckets(map_of(s.take(i + 1)), now));
            } else {
                assert(map_of(kept@) =~= active_buckets(map_of(s.take(i + 1)), now));
            }
            i = i + 1;
        }
        proof {
            assert(s.take(s.len() as int) =~= s);
            lemma_map_of_len(s);
            lemma_map_of_len(kept@);
        }
        let evicted = old_buckets.len() - kept.len();
        self.buckets = kept;
        evicted
    }

    /// Drops the buckets that have been idle for an hour and returns how
    /// many were dropped. The reading of the clock is the only input that
    /// no clause fixes.
    pub fn gc_idle(&mut self) -> (evicted: usize)
        requires
            old(self).wf(),
        ensures
            final(self).wf(),
            final(self).rate() == old(self).rate(),
            final(self).burst() == old(self).burst(),
            exists|now: u128| final(self).buckets() == active_buckets(old(self).buckets(), now),
            evicted == old(self).buckets().len() - final(self).buckets().len(),
    {
        let now = elapsed_nanos(&self.origin);
        self.gc_idle_at(now)
    }

    /// Number of buckets currently in memory.
    pub fn bucket_count(&self) -> (n: usize)
        requires
            self.wf(),
        ensures
            n == self.buckets().len(),
    {
        proof {
            lemma_map_of_len(self.buckets@);
        }
        self.buckets.len()
    }
}

} // verus!
