//! Retry policy of the outgoing message queue.
//!
//! The queue itself lives in the database; this module holds the queued
//! message record and the backoff schedule that decides when a failed
//! delivery is tried again.

use vstd::prelude::*;
use vstd::arithmetic::power2::{lemma2_to64, pow2};

use crate::text::str_equals;

use crate::protocol::message::Message;

verus! {

/// Represents a queued message awaiting delivery
#[derive(Debug, Clone)]
pub struct QueuedMessage {
    pub id: i64,
    pub peer_onion: String,
    pub message: Message,
    pub retry_count: i64,
    pub priority: String,
    pub created_at: i64,
}

/// Message queue for managing offline message delivery
#[derive(Default)]
pub struct MessageQueue;

impl MessageQueue {
    /// Create a new MessageQueue instance
    pub fn new() -> (r: Self) {
        MessageQueue
    }
}

/// 24 hours in seconds
pub const MESSAGE_EXPIRY_SECS: i64 = 86400;

/// Maximum retry delay in seconds (15 minutes)
pub const MAX_RETRY_DELAY_SECS: i64 = 900;

/// Base retry delay in seconds
pub const BASE_RETRY_DELAY_SECS: i64 = 30;

/// The delay before the next attempt, in seconds: min(30 * 2^retry_count,
/// 900), that is 30 s doubled on each earlier retry and never more than 15
/// minutes (a negative count, which nothing stores, waits the most).
pub open spec fn backoff_delay(retry_count: i64) -> i64 {
    if retry_count == 0 {
        30
    } else if retry_count == 1 {
        60
    } else if retry_count == 2 {
        120
    } else if retry_count == 3 {
        240
    } else if retry_count == 4 {
        480
    } else {
        MAX_RETRY_DELAY_SECS
    }
}

/// When a message created at `created_at` and tried `retry_count` times is
/// next due, seen at `now`; `None` once it is a day old.
pub open spec fn next_retry(retry_count: i64, created_at: i64, now: i64) -> Option<int> {
    if now - created_at >= MESSAGE_EXPIRY_SECS {
        None
    } else {
        Some(now + backoff_delay(retry_count))
    }
}

/// Compute the next retry timestamp using exponential backoff.
///
/// Returns `None` if the message has expired (24 hours old or more).
/// Formula: min(30 * 2^retry_count, 900) seconds from now.
pub fn compute_next_retry(retry_count: i64, created_at: i64, now: i64) -> (r: Option<i64>)
    requires
        i64::MIN <= now - created_at <= i64::MAX,
        now - created_at < MESSAGE_EXPIRY_SECS ==> now + MAX_RETRY_DELAY_SECS <= i64::MAX,
    ensures
        match r {
            Some(t) => next_retry(retry_count, created_at, now) == Some(t as int),
            None => next_retry(retry_count, created_at, now) is None,
        },
{
    if now - created_at >= MESSAGE_EXPIRY_SECS {
        return None;
    }
    let delay: i64 = if retry_count == 0 {
        30
    } else if retry_count == 1 {
        60
    } else if retry_count == 2 {
        120
    } else if retry_count == 3 {
        240
    } else if retry_count == 4 {
        480
    } else {
        MAX_RETRY_DELAY_SECS
    };
    Some(now + delay)
}

/// The backoff schedule: 30 s doubled on each retry up to the fifth, 15
/// minutes from then on; never less than 30 s nor more than 15 minutes.
pub proof fn lemma_backoff_schedule(retry_count: i64)
    ensures
        BASE_RETRY_DELAY_SECS <= backoff_delay(retry_count) <= MAX_RETRY_DELAY_SECS,
        0 <= retry_count < 5 ==> backoff_delay(retry_count) == BASE_RETRY_DELAY_SECS * pow2(retry_count as nat),
        retry_count >= 5 ==> backoff_delay(retry_count) == MAX_RETRY_DELAY_SECS,
{
    lemma2_to64();
}

/// Delays never shrink as retries accumulate.
pub proof fn lemma_backoff_monotone(a: i64, b: i64)
    requires
        0 <= a <= b,
    ensures
        backoff_delay(a) <= backoff_delay(b),
{
}

/// A message is given up exactly when it is a day old; until then its next
/// attempt is between 30 s and 15 minutes in the future.
pub proof fn lemma_next_retry_window(retry_count: i64, created_at: i64, now: i64)
    ensures
        next_retry(retry_count, created_at, now) is None <==> now - created_at >= MESSAGE_EXPIRY_SECS,
        next_retry(retry_count, created_at, now) matches Some(t) ==> now + BASE_RETRY_DELAY_SECS <= t <= now
            + MAX_RETRY_DELAY_SECS,
{
}

/// How many delivery attempts a queued message gets at most.
pub const MAX_DELIVERY_ATTEMPTS: i64 = 50;

/// What becomes of a queued message after an attempt to deliver it.
#[derive(Debug, Clone, Copy, PartialEq, Eq)]
pub enum QueueUpdate {
    /// It was delivered.
    Delivered,
    /// It is tried again at this time.
    RetryAt(i64),
    /// It is given up and marked failed: it is a day old, or this was its
    /// last allowed attempt.
    Expired,
}

/// What becomes of a message created at `created_at`, tried `retry_count`
/// times before, after an attempt at `now` that did or did not deliver it:
/// a failed attempt that was the fiftieth is final, as is one made a day
/// after the message was created; otherwise the message waits out the
/// backoff delay.
pub open spec fn queue_update_of(delivered: bool, retry_count: i64, created_at: i64, now: i64) -> QueueUpdate {
    if delivered {
        QueueUpdate::Delivered
    } else if retry_count + 1 >= MAX_DELIVERY_ATTEMPTS {
        QueueUpdate::Expired
    } else {
        match next_retry(retry_count, created_at, now) {
            Some(t) => QueueUpdate::RetryAt(t as i64),
            None => QueueUpdate::Expired,
        }
    }
}

/// What becomes of a queued message after an attempt at `now`.
pub fn queue_update(delivered: bool, retry_count: i64, created_at: i64, now: i64) -> (r: QueueUpdate)
    requires
        !delivered ==> i64::MIN <= now - created_at <= i64::MAX,
        !delivered && now - created_at < MESSAGE_EXPIRY_SECS ==> now + MAX_RETRY_DELAY_SECS <= i64::MAX,
    ensures
        r == queue_update_of(delivered, retry_count, created_at, now),
        r matches QueueUpdate::RetryAt(t) ==> t == next_retry(retry_count, created_at, now)->0,
{
    if delivered {
        return QueueUpdate::Delivered;
    }
    if retry_count >= MAX_DELIVERY_ATTEMPTS - 1 {
        return QueueUpdate::Expired;
    }
    match compute_next_retry(retry_count, created_at, now) {
        Some(t) => QueueUpdate::RetryAt(t),
        None => QueueUpdate::Expired,
    }
}

/// A queued message is attempted at most fifty times: whatever its age,
/// a failed fiftieth attempt gives it up.
pub proof fn lemma_attempts_capped(retry_count: i64, created_at: i64, now: i64)
    requires
        retry_count >= MAX_DELIVERY_ATTEMPTS - 1,
    ensures
        queue_update_of(false, retry_count, created_at, now) == QueueUpdate::Expired,
{
}

/// Whether a queued message is bound for `peer`.
pub open spec fn for_peer(peer: Seq<char>) -> spec_fn(QueuedMessage) -> bool {
    |m: QueuedMessage| m.peer_onion@ == peer
}

/// The peers of a list of groups.
pub open spec fn group_keys(groups: Seq<(String, Vec<QueuedMessage>)>) -> Seq<Seq<char>> {
    groups.map_values(|g: (String, Vec<QueuedMessage>)| g.0@)
}

/// The pending messages grouped by peer: one group per peer, in the order
/// in which the peers first appear, each group holding that peer's messages
/// in their original order (so that a peer's messages go out one after the
/// other).
pub fn group_by_peer(pending: Vec<QueuedMessage>) -> (r: Vec<(String, Vec<QueuedMessage>)>)
    ensures
        forall|i: int, j: int| 0 <= i < j < r@.len() ==> r@[i].0@ != r@[j].0@,
        forall|i: int| 0 <= i < r@.len() ==> #[trigger] r@[i].1@ == pending@.filter(for_peer(r@[i].0@)),
        forall|j: int| 0 <= j < pending@.len() ==> #[trigger] group_keys(r@).contains(pending@[j].peer_onion@),
{
    let ghost s = pending@;
    let mut rest = pending;
    let n = rest.len();
    let mut groups: Vec<(String, Vec<QueuedMessage>)> = Vec::new();
    let mut i: usize = 0;
    while i < n
        invariant
            n == s.len(),
            i <= n,
            rest@ == s.skip(i as int),
            forall|a: int, b: int| 0 <= a < b < groups@.len() ==> groups@[a].0@ != groups@[b].0@,
            forall|g: int| 0 <= g < groups@.len() ==> #[trigger] groups@[g].1@ == s.take(i as int).filter(for_peer(groups@[g].0@)),
            forall|j: int| #![trigger s[j]] 0 <= j < i ==> exists|g: int| 0 <= g < groups@.len() && #[trigger] groups@[g].0@
                == s[j].peer_onion@,
        decreases n - i,
    {
        let m = rest.remove(0);
        assert(m == s[i as int]);
        let ghost p = s.take(i as int);
        proof {
            assert(s.take(i + 1) =~= p.push(m));
            assert(rest@ =~= s.skip(i + 1));
            reveal(Seq::filter);
            assert forall|k: Seq<char>| #[trigger] p.push(m).filter(for_peer(k)) == if m.peer_onion@ == k {
                p.filter(for_peer(k)).push(m)
            } else {
                p.filter(for_peer(k))
            } by {
                assert(p.push(m).drop_last() =~= p);
            }
        }
        let mut g: usize = 0;
        let mut found = false;
        while g < groups.len()
            invariant_except_break
                !found,
            invariant
                g <= groups@.len(),
                forall|h: int| 0 <= h < g ==> groups@[h].0@ != m.peer_onion@,
            ensures
                g <= groups@.len(),
                found ==> g < groups@.len() && groups@[g as int].0@ == m.peer_onion@,
                !found ==> forall|h: int| 0 <= h < groups@.len() ==> groups@[h].0@ != m.peer_onion@,
            decreases groups@.len() - g,
        {
            if str_equals(groups[g].0.as_str(), m.peer_onion.as_str()) {
                found = true;
                break;
            }
            g = g + 1;
        }
        let ghost before = groups@;
        if found {
            let (key, mut msgs) = groups.remove(g);
            msgs.push(m);
            groups.insert(g, (key, msgs));
            proof {
                assert forall|h: int| 0 <= h < groups@.len() implies #[trigger] groups@[h].1@ == s.take(i + 1).filter(
                    for_peer(groups@[h].0@),
                ) by {
                    assert(groups@[h].0@ == before[h].0@);
                }
                assert forall|j: int| #![trigger s[j]] 0 <= j < i + 1 implies exists|h: int| 0 <= h < groups@.len() && #[trigger] groups@[h].0@
                    == s[j].peer_onion@ by {
                    if j < i {
                        let h = choose|h: int| 0 <= h < before.len() && #[trigger] before[h].0@ == s[j].peer_onion@;
                        assert(groups@[h].0@ == before[h].0@);
                    } else {
                        assert(groups@[g as int].0@ == s[j].peer_onion@);
                    }
                }
            }
        } else {
            proof {
                let k = m.peer_onion@;
                assert(p.filter(for_peer(k)) =~= Seq::<QueuedMessage>::empty()) by {
                    if p.filter(for_peer(k)).len() > 0 {
                        let x = p.filter(for_peer(k))[0];
                        p.lemma_filter_pred(for_peer(k), 0);
                        assert(p.filter(for_peer(k)).contains(x));
                        p.lemma_filter_contains_rev(for_peer(k), x);
                        assert(p.contains(x));
                        let j = choose|j: int| 0 <= j < p.len() && p[j] == x;
                        let h = choose|h: int| 0 <= h < before.len() && #[trigger] before[h].0@ == s[j].peer_onion@;
                        assert(false);
                    }
                }
            }
            let key = m.peer_onion.clone();
            let mut msgs: Vec<QueuedMessage> = Vec::new();
            msgs.push(m);
            groups.push((key, msgs));
            proof {
                assert forall|h: int| 0 <= h < groups@.len() implies #[trigger] groups@[h].1@ == s.take(i + 1).filter(
                    for_peer(groups@[h].0@),
                ) by {
                    if h < before.len() {
                        assert(groups@[h] == before[h]);
                    } else {
                        assert(groups@[h].1@ =~= seq![m]);
                    }
                }
                assert forall|j: int| #![trigger s[j]] 0 <= j < i + 1 implies exists|h: int| 0 <= h < groups@.len() && #[trigger] groups@[h].0@
                    == s[j].peer_onion@ by {
                    if j < i {
                        let h = choose|h: int| 0 <= h < before.len() && #[trigger] before[h].0@ == s[j].peer_onion@;
                        assert(groups@[h] == before[h]);
                    } else {
                        assert(groups@[before.len() as int].0@ == s[j].peer_onion@);
                    }
                }
            }
        }
        i = i + 1;
    }
    assert(s.take(n as int) =~= s);
    assert(s == pending@);
    assert forall|j: int| 0 <= j < pending@.len() implies #[trigger] group_keys(groups@).contains(pending@[j].peer_onion@) by {
        assert(s[j] == pending@[j]);
        let g = choose|g: int| 0 <= g < groups@.len() && #[trigger] groups@[g].0@ == s[j].peer_onion@;
        assert(group_keys(groups@)[g] == pending@[j].peer_onion@);
    }
    groups
}

/// Whether the message at `i` of a queue run is attempted: each peer's
/// messages go out in order, and a peer's first failure stops its run, so
/// a message is attempted when no earlier message to the same peer failed.
pub open spec fn attempted(pending: Seq<QueuedMessage>, outcomes: Seq<bool>, i: int) -> bool {
    forall|j: int| 0 <= j < i && #[trigger] pending[j].peer_onion@ == pending[i].peer_onion@ ==> outcomes[j]
}

/// The updates of a queue run over the first `n` pending messages: for each
/// attempted message, in order, its id and what becomes of it.
pub open spec fn queue_plan(pending: Seq<QueuedMessage>, outcomes: Seq<bool>, now: i64, n: nat) -> Seq<(i64, QueueUpdate)>
    decreases n,
{
    if n == 0 {
        Seq::empty()
    } else {
        let rest = queue_plan(pending, outcomes, now, (n - 1) as nat);
        let i = n - 1;
        if attempted(pending, outcomes, i) {
            rest.push(
                (
                    pending[i].id,
                    queue_update_of(outcomes[i], pending[i].retry_count, pending[i].created_at, now),
                ),
            )
        } else {
            rest
        }
    }
}

/// A peer's run stops at its first failure: no later message to that peer
/// is attempted in the same run.
pub proof fn lemma_run_stops_at_first_failure(pending: Seq<QueuedMessage>, outcomes: Seq<bool>, j: int, i: int)
    requires
        0 <= j < i < pending.len(),
        pending[j].peer_onion@ == pending[i].peer_onion@,
        !outcomes[j],
    ensures
        !attempted(pending, outcomes, i),
{
}

/// The peers with a failed attempt among the first `n` messages of a run.
pub open spec fn failed_peers(pending: Seq<QueuedMessage>, outcomes: Seq<bool>, n: int) -> Set<Seq<char>> {
    Set::new(|k: Seq<char>| exists|j: int| 0 <= j < n && !outcomes[j] && #[trigger] pending[j].peer_onion@ == k)
}

/// The texts of a list of strings.
spec fn names(v: Seq<String>) -> Set<Seq<char>> {
    Set::new(|k: Seq<char>| exists|f: int| 0 <= f < v.len() && #[trigger] v[f]@ == k)
}

proof fn lemma_names_push(v: Seq<String>, x: String)
    ensures
        names(v.push(x)) == names(v).insert(x@),
{
    assert forall|k: Seq<char>| names(v.push(x)).contains(k) <==> names(v).insert(x@).contains(k) by {
        if names(v.push(x)).contains(k) {
            let f = choose|f: int| 0 <= f < v.push(x).len() && #[trigger] v.push(x)[f]@ == k;
            if f < v.len() {
                assert(v[f]@ == k);
            }
        }
        if names(v).contains(k) {
            let f = choose|f: int| 0 <= f < v.len() && #[trigger] v[f]@ == k;
            assert(v.push(x)[f]@ == k);
        }
        if k == x@ {
            assert(v.push(x)[v.len() as int]@ == k);
        }
    }
    assert(names(v.push(x)) =~= names(v).insert(x@));
}

proof fn lemma_failed_step(pending: Seq<QueuedMessage>, outcomes: Seq<bool>, n: int)
    requires
        0 <= n < pending.len(),
        outcomes.len() == pending.len(),
    ensures
        failed_peers(pending, outcomes, n + 1) == if outcomes[n] {
            failed_peers(pending, outcomes, n)
        } else {
            failed_peers(pending, outcomes, n).insert(pending[n].peer_onion@)
        },
        attempted(pending, outcomes, n) <==> !failed_peers(pending, outcomes, n).contains(pending[n].peer_onion@),
{
    let a = failed_peers(pending, outcomes, n + 1);
    let b = if outcomes[n] {
        failed_peers(pending, outcomes, n)
    } else {
        failed_peers(pending, outcomes, n).insert(pending[n].peer_onion@)
    };
    assert forall|k: Seq<char>| a.contains(k) <==> b.contains(k) by {
        if a.contains(k) {
            let j = choose|j: int| 0 <= j < n + 1 && !outcomes[j] && #[trigger] pending[j].peer_onion@ == k;
            if j < n {
                assert(failed_peers(pending, outcomes, n).contains(k));
            }
        }
        if failed_peers(pending, outcomes, n).contains(k) {
            let j = choose|j: int| 0 <= j < n && !outcomes[j] && #[trigger] pending[j].peer_onion@ == k;
            assert(a.contains(k));
        }
        if !outcomes[n] && k == pending[n].peer_onion@ {
            assert(a.contains(k));
        }
    }
    assert(a =~= b);
    if failed_peers(pending, outcomes, n).contains(pending[n].peer_onion@) {
        let j = choose|j: int| 0 <= j < n && !outcomes[j] && #[trigger] pending[j].peer_onion@ == pending[n].peer_onion@;
        assert(!attempted(pending, outcomes, n));
    }
}

/// One run over the due messages at `now`: `outcomes[i]` tells whether
/// sending `pending[i]` succeeded, for the messages that were sent (the
/// others are ignored). Returns the update of each attempted message, in
/// order: delivered, retried later, or given up; a peer's messages after
/// its first failure are left as they are.
pub fn process_queue(pending: Vec<QueuedMessage>, outcomes: Vec<bool>, now: i64) -> (r: Vec<(i64, QueueUpdate)>)
    requires
        outcomes@.len() == pending@.len(),
        forall|i: int| 0 <= i < pending@.len() ==> i64::MIN <= now - #[trigger] pending@[i].created_at <= i64::MAX,
        now + MAX_RETRY_DELAY_SECS <= i64::MAX,
    ensures
        r@ == queue_plan(pending@, outcomes@, now, pending@.len()),
{
    let mut r: Vec<(i64, QueueUpdate)> = Vec::new();
    let mut failed: Vec<String> = Vec::new();
    let mut i: usize = 0;
    proof {
        assert(names(failed@) =~= failed_peers(pending@, outcomes@, 0));
    }
    while i < pending.len()
        invariant
            outcomes@.len() == pending@.len(),
            forall|k: int| 0 <= k < pending@.len() ==> i64::MIN <= now - #[trigger] pending@[k].created_at <= i64::MAX,
            now + MAX_RETRY_DELAY_SECS <= i64::MAX,
            i <= pending@.len(),
            r@ == queue_plan(pending@, outcomes@, now, i as nat),
            names(failed@) == failed_peers(pending@, outcomes@, i as int),
        decreases pending@.len() - i,
    {
        let peer = pending[i].peer_onion.as_str();
        let mut f: usize = 0;
        let mut stopped = false;
        while f < failed.len()
            invariant_except_break
                !stopped,
            invariant
                f <= failed@.len(),
                forall|g: int| 0 <= g < f ==> failed@[g]@ != peer@,
            ensures
                stopped ==> f < failed@.len() && failed@[f as int]@ == peer@,
                !stopped ==> forall|g: int| 0 <= g < failed@.len() ==> failed@[g]@ != peer@,
            decreases failed@.len() - f,
        {
            if str_equals(failed[f].as_str(), peer) {
                stopped = true;
                break;
            }
            f = f + 1;
        }
        proof {
            lemma_failed_step(pending@, outcomes@, i as int);
            if stopped {
                assert(names(failed@).contains(peer@));
            } else {
                assert(!names(failed@).contains(peer@));
            }
        }
        if !stopped {
            let q = &pending[i];
            let ok = outcomes[i];
            let update = queue_update(ok, q.retry_count, q.created_at, now);
            r.push((q.id, update));
            if !ok {
                let name = q.peer_onion.clone();
                proof {
                    lemma_names_push(failed@, name);
                }
                failed.push(name);
            }
        }
        i = i + 1;
    }
    r
}

} // verus!
