//! Per-peer presence: when a peer was last heard from and whether it is typing.

use vstd::prelude::*;

use crate::keyed::{
    find_key, keys_distinct, lemma_map_of_keys, lemma_map_of_len, lemma_map_of_push, lemma_map_of_update,
    lemma_map_of_value, map_of, Keyed,
};
use crate::protocol::message::PresenceType;
use crate::text::str_to_string;

verus! {

#[verifier::external_type_specification]
#[verifier::external_body]
pub struct ExInstant(std::time::Instant);

/// How often to send heartbeats to peers with active connections, in seconds.
pub const HEARTBEAT_INTERVAL_SECS: u64 = 60;

/// Mark a peer offline after this many seconds without a heartbeat.
pub const OFFLINE_THRESHOLD_SECS: u64 = 120;

/// A typing indicator expires after this many seconds.
pub const TYPING_TIMEOUT_SECS: u64 = 5;

/// Minimum interval between outgoing TypingStarted messages, in seconds.
pub const TYPING_DEBOUNCE_SECS: u64 = 4;

/// Nanoseconds in a second.
pub const NANOS_PER_SEC: u128 = 1_000_000_000;

/// `Instant::now()`. Nothing is claimed of the reading.
#[verifier::external_body]
pub(crate) fn instant_now() -> (t: std::time::Instant) {
    std::time::Instant::now()
}

/// `Instant::elapsed()` in nanoseconds. Nothing is claimed of the reading.
#[verifier::external_body]
pub(crate) fn elapsed_nanos(t: &std::time::Instant) -> (n: u128) {
    t.elapsed().as_nanos()
}

/// Whether a peer last heard from `elapsed` nanoseconds ago counts as online.
pub fn online_after(elapsed: u128) -> (r: bool)
    ensures
        r == (elapsed < OFFLINE_THRESHOLD_SECS as u128 * NANOS_PER_SEC),
{
    elapsed < OFFLINE_THRESHOLD_SECS as u128 * NANOS_PER_SEC
}

/// Whether a peer that started typing `elapsed` nanoseconds ago (if it did)
/// still counts as typing.
pub fn typing_after(elapsed: Option<u128>) -> (r: bool)
    ensures
        r == (elapsed matches Some(e) && e < TYPING_TIMEOUT_SECS as u128 * NANOS_PER_SEC),
{
    match elapsed {
        Some(e) => e < TYPING_TIMEOUT_SECS as u128 * NANOS_PER_SEC,
        None => false,
    }
}

/// Per-peer presence state (in memory only, never persisted)
#[derive(Debug, Clone, Copy)]
pub struct PeerPresence {
    pub last_seen: std::time::Instant,
    pub typing_started: Option<std::time::Instant>,
}

impl PeerPresence {
    /// A peer seen just now, not typing.
    pub fn new() -> (r: Self)
        ensures
            r.typing_started is None,
    {
        PeerPresence { last_seen: instant_now(), typing_started: None }
    }

    /// Whether this peer should be considered online: heard from within the
    /// last two minutes. The answer depends on the clock.
    pub fn is_online(&self) -> (r: bool) {
        online_after(elapsed_nanos(&self.last_seen))
    }

    /// Whether this peer is currently typing: it started within the last
    /// five seconds. Never true when no typing start is recorded.
    pub fn is_typing(&self) -> (r: bool)
        ensures
            self.typing_started is None ==> !r,
    {
        match &self.typing_started {
            Some(t) => typing_after(Some(elapsed_nanos(t))),
            None => typing_after(None),
        }
    }
}

impl Default for PeerPresence {
    fn default() -> (r: Self)
        ensures
            r.typing_started is None,
    {
        Self::new()
    }
}

/// The presence of every peer heard from, by onion address (in memory only).
pub struct PresenceMap {
    entries: Vec<Keyed<PeerPresence>>,
}

impl PresenceMap {
    /// Each peer's presence, by onion address.
    pub closed spec fn peers(&self) -> Map<Seq<char>, PeerPresence> {
        map_of(self.entries@)
    }

    /// No peer appears twice.
    pub closed spec fn wf(&self) -> bool {
        keys_distinct(self.entries@)
    }

    /// Set the presence of `onion`, adding the peer if it is new.
    fn put(&mut self, onion: &str, presence: PeerPresence)
        requires
            old(self).wf(),
        ensures
            final(self).wf(),
            final(self).peers() == old(self).peers().insert(onion@, presence),
    {
        let entry = Keyed { key: str_to_string(onion), value: presence };
        match find_key(&self.entries, onion) {
            Some(i) => {
                proof {
                    lemma_map_of_update(self.entries@, i as int, entry);
                }
                self.entries.set(i, entry);
            },
            None => {
                proof {
                    lemma_map_of_keys(self.entries@, onion@);
                    lemma_map_of_push(self.entries@, entry);
                }
                self.entries.push(entry);
            },
        }
    }

    /// The presence of `onion`, if it was heard from.
    fn lookup(&self, onion: &str) -> (r: Option<PeerPresence>)
        requires
            self.wf(),
        ensures
            match r {
                Some(p) => self.peers().contains_key(onion@) && self.peers()[onion@] == p,
                None => !self.peers().contains_key(onion@),
            },
    {
        match find_key(&self.entries, onion) {
            Some(i) => {
                proof {
                    lemma_map_of_value(self.entries@, i as int);
                }
                Some(self.entries[i].value)
            },
            None => {
                proof {
                    lemma_map_of_keys(self.entries@, onion@);
                }
                None
            },
        }
    }
}

/// Create a new empty presence map.
pub fn new_presence_map() -> (m: PresenceMap)
    ensures
        m.wf(),
        m.peers() == Map::<Seq<char>, PeerPresence>::empty(),
{
    let m = PresenceMap { entries: Vec::new() };
    assert(m.peers() =~= Map::<Seq<char>, PeerPresence>::empty());
    m
}

/// Record a heartbeat from a peer: it was seen now (a reading of the clock
/// that no clause fixes); whether it is typing does not change.
pub fn record_heartbeat(map: &mut PresenceMap, onion: &str)
    requires
        old(map).wf(),
    ensures
        final(map).wf(),
        final(map).peers().dom() == old(map).peers().dom().insert(onion@),
        forall|k: Seq<char>| k != onion@ && #[trigger] old(map).peers().contains_key(k) ==> final(map).peers()[k]
            == old(map).peers()[k],
        final(map).peers()[onion@].typing_started == (if old(map).peers().contains_key(onion@) {
            old(map).peers()[onion@].typing_started
        } else {
            None
        }),
{
    let entry = match map.lookup(onion) {
        Some(p) => PeerPresence { last_seen: instant_now(), typing_started: p.typing_started },
        None => PeerPresence { last_seen: instant_now(), typing_started: None },
    };
    map.put(onion, entry);
}

/// Record typing started from a peer: it was seen now and started typing
/// now.
pub fn record_typing_started(map: &mut PresenceMap, onion: &str)
    requires
        old(map).wf(),
    ensures
        final(map).wf(),
        final(map).peers().dom() == old(map).peers().dom().insert(onion@),
        forall|k: Seq<char>| k != onion@ && #[trigger] old(map).peers().contains_key(k) ==> final(map).peers()[k]
            == old(map).peers()[k],
        final(map).peers()[onion@].typing_started is Some,
{
    let last_seen = instant_now();
    let started = instant_now();
    map.put(onion, PeerPresence { last_seen, typing_started: Some(started) });
}

/// Record typing stopped from a peer; a peer never heard from stays unknown.
pub fn record_typing_stopped(map: &mut PresenceMap, onion: &str)
    requires
        old(map).wf(),
    ensures
        final(map).wf(),
        old(map).peers().contains_key(onion@) ==> final(map).peers() == old(map).peers().insert(
            onion@,
            PeerPresence { last_seen: old(map).peers()[onion@].last_seen, typing_started: None },
        ),
        !old(map).peers().contains_key(onion@) ==> final(map).peers() == old(map).peers(),
{
    if let Some(p) = map.lookup(onion) {
        map.put(onion, PeerPresence { last_seen: p.last_seen, typing_started: None });
    }
}

/// A snapshot of every peer's onion address with whether it is online and
/// whether it is typing (both read against the clock now).
pub fn get_presence_snapshot(map: &PresenceMap) -> (r: Vec<(String, bool, bool)>)
    requires
        map.wf(),
    ensures
        r@.len() == map.peers().len(),
        forall|i: int| 0 <= i < r@.len() ==> #[trigger] map.peers().contains_key(r@[i].0@),
        forall|i: int| 0 <= i < r@.len() ==> (map.peers()[r@[i].0@].typing_started is None ==> !r@[i].2),
        forall|i: int, j: int| 0 <= i < j < r@.len() ==> r@[i].0@ != r@[j].0@,
{
    proof {
        lemma_map_of_len(map.entries@);
    }
    let mut r: Vec<(String, bool, bool)> = Vec::new();
    let mut i: usize = 0;
    while i < map.entries.len()
        invariant
            map.wf(),
            i <= map.entries@.len(),
            r@.len() == i,
            forall|j: int| 0 <= j < i ==> #[trigger] r@[j].0@ == map.entries@[j].key@,
            forall|j: int| 0 <= j < i ==> (map.peers()[r@[j].0@].typing_started is None ==> !r@[j].2),
        decreases map.entries@.len() - i,
    {
        let e = &map.entries[i];
        proof {
            lemma_map_of_value(map.entries@, i as int);
        }
        let online = e.value.is_online();
        let typing = e.value.is_typing();
        r.push((e.key.clone(), online, typing));
        i = i + 1;
    }
    assert forall|k: int| 0 <= k < r@.len() implies #[trigger] map.peers().contains_key(r@[k].0@) by {
        lemma_map_of_value(map.entries@, k);
    }
    r
}

// ---------------------------------------------------------------------------
// Outgoing typing indicators
// ---------------------------------------------------------------------------

/// What the typing indicator of the open conversation remembers between
/// key presses: whether the input held text after the last one, and when
/// (in nanoseconds on a monotonic clock) TypingStarted was last sent.
#[derive(Debug, Clone, Copy, PartialEq, Eq)]
pub struct TypingState {
    pub was_typing: bool,
    pub last_started_at: Option<u128>,
}

/// Nanoseconds from `from` to `now`, or 0 when the clock reads earlier.
pub open spec fn nanos_between(from: u128, now: u128) -> u128 {
    if now >= from {
        (now - from) as u128
    } else {
        0
    }
}

/// Whether a key press that leaves text in the input (`typing`) at `now`
/// announces TypingStarted: when typing begins, or when it goes on and the
/// last announcement is at least the debounce interval old.
pub open spec fn announces_start(state: TypingState, typing: bool, now: u128) -> bool {
    typing && (!state.was_typing || match state.last_started_at {
        None => true,
        Some(t) => nanos_between(t, now) >= TYPING_DEBOUNCE_SECS as u128 * NANOS_PER_SEC,
    })
}

/// Whether a key press announces TypingStopped: the input was emptied.
pub open spec fn announces_stop(state: TypingState, typing: bool) -> bool {
    !typing && state.was_typing
}

impl TypingState {
    /// Nothing typed, nothing announced: the state on opening a
    /// conversation and after a message is sent.
    pub fn new() -> (r: Self)
        ensures
            !r.was_typing,
            r.last_started_at is None,
    {
        TypingState { was_typing: false, last_started_at: None }
    }

    /// The step taken after a key press in a conversation: `input_empty`
    /// tells whether the input is empty now, `now` is the clock. Returns
    /// the next state and the indicator to send, if any.
    pub fn step(&self, input_empty: bool, now: u128) -> (r: (TypingState, Option<PresenceType>))
        ensures
            r.1 == if announces_start(*self, !input_empty, now) {
                Some(PresenceType::TypingStarted)
            } else if announces_stop(*self, !input_empty) {
                Some(PresenceType::TypingStopped)
            } else {
                None
            },
            r.0.was_typing == !input_empty,
            r.0.last_started_at == if announces_start(*self, !input_empty, now) {
                Some(now)
            } else {
                self.last_started_at
            },
    {
        let typing = !input_empty;
        let debounce: u128 = TYPING_DEBOUNCE_SECS as u128 * NANOS_PER_SEC;
        let due = match self.last_started_at {
            None => true,
            Some(t) => {
                let since: u128 = if now >= t { now - t } else { 0 };
                since >= debounce
            },
        };
        let start = typing && (!self.was_typing || due);
        let stop = !typing && self.was_typing;
        let next = TypingState { was_typing: typing, last_started_at: if start { Some(now) } else { self.last_started_at } };
        if start {
            (next, Some(PresenceType::TypingStarted))
        } else if stop {
            (next, Some(PresenceType::TypingStopped))
        } else {
            (next, None)
        }
    }
}

/// While typing goes on, TypingStarted is announced at most once per
/// debounce interval: a key press less than that interval after the last
/// announcement sends nothing.
pub proof fn lemma_typing_debounced(state: TypingState, t: u128, now: u128)
    requires
        state.was_typing,
        state.last_started_at == Some(t),
        t <= now,
        now - t < TYPING_DEBOUNCE_SECS as u128 * NANOS_PER_SEC,
    ensures
        !announces_start(state, true, now),
        !announces_stop(state, true),
{
}

/// Emptying the input announces TypingStopped once: the step leaves a
/// state in which a further empty input announces nothing.
pub proof fn lemma_stop_announced_once(state: TypingState, now: u128, later: u128)
    requires
        state.was_typing,
    ensures
        announces_stop(state, false),
        !announces_start(state, false, now),
        !announces_stop(TypingState { was_typing: false, last_started_at: state.last_started_at }, false),
        !announces_start(TypingState { was_typing: false, last_started_at: state.last_started_at }, false, later),
{
}

/// The first key press that puts text into an empty input always
/// announces TypingStarted.
pub proof fn lemma_typing_begins_announced(state: TypingState, now: u128)
    requires
        !state.was_typing,
    ensures
        announces_start(state, true, now),
{
}

} // verus!
