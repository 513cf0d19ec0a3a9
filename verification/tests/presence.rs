use chattor::presence::TypingState;
use chattor::presence::NANOS_PER_SEC;
use chattor::handlers::messaging::apply_presence;
use chattor::protocol::message::{PresenceMessage, PresenceType};
use chattor::presence::{
    get_presence_snapshot, new_presence_map, online_after, record_heartbeat, record_typing_started,
    record_typing_stopped, typing_after, PeerPresence, PresenceMap,
};
use std::time::{Duration, Instant};

#[test]
fn test_peer_presence_initially_online() {
    let p = PeerPresence::new();
    assert!(p.is_online());
    assert!(!p.is_typing());
}

#[test]
fn test_peer_presence_not_typing_by_default() {
    let p = PeerPresence::new();
    assert!(!p.is_typing());
}

#[test]
fn test_peer_presence_typing_active() {
    let mut p = PeerPresence::new();
    p.typing_started = Some(Instant::now());
    assert!(p.is_typing());
}

#[test]
fn test_peer_presence_typing_expired() {
    let mut p = PeerPresence::new();
    p.typing_started = Some(Instant::now() - Duration::from_secs(6));
    assert!(!p.is_typing());
}

#[test]
fn test_peer_presence_offline_after_threshold() {
    let mut p = PeerPresence::new();
    p.last_seen = Instant::now() - Duration::from_secs(121);
    assert!(!p.is_online());
}

#[test]
fn test_peer_presence_online_within_threshold() {
    let mut p = PeerPresence::new();
    p.last_seen = Instant::now() - Duration::from_secs(60);
    assert!(p.is_online());
}

#[test]
fn thresholds_are_strict() {
    assert!(online_after(119_999_999_999));
    assert!(!online_after(120_000_000_000));
    assert!(typing_after(Some(4_999_999_999)));
    assert!(!typing_after(Some(5_000_000_000)));
    assert!(!typing_after(None));
}

fn status_of(map: &PresenceMap, onion: &str) -> Option<(bool, bool)> {
    get_presence_snapshot(map)
        .into_iter()
        .find(|(k, _, _)| k == onion)
        .map(|(_, online, typing)| (online, typing))
}

#[test]
fn test_record_heartbeat() {
    let mut map = new_presence_map();
    record_heartbeat(&mut map, "test.onion");
    assert_eq!(status_of(&map, "test.onion"), Some((true, false)));
}

#[test]
fn test_record_typing() {
    let mut map = new_presence_map();
    record_typing_started(&mut map, "test.onion");
    assert_eq!(status_of(&map, "test.onion"), Some((true, true)));

    record_typing_stopped(&mut map, "test.onion");
    assert_eq!(status_of(&map, "test.onion"), Some((true, false)));
}

#[test]
fn heartbeat_keeps_typing_and_peers_stay_apart() {
    let mut map = new_presence_map();
    record_typing_started(&mut map, "a.onion");
    record_heartbeat(&mut map, "a.onion");
    record_heartbeat(&mut map, "b.onion");
    assert_eq!(status_of(&map, "a.onion"), Some((true, true)));
    assert_eq!(status_of(&map, "b.onion"), Some((true, false)));
    assert_eq!(get_presence_snapshot(&map).len(), 2);
}

#[test]
fn stopping_an_unknown_peer_changes_nothing() {
    let mut map = new_presence_map();
    record_typing_stopped(&mut map, "ghost.onion");
    assert!(get_presence_snapshot(&map).is_empty());
    assert_eq!(status_of(&map, "ghost.onion"), None);
}

#[test]
fn presence_messages_drive_the_map() {
    let msg = |t: PresenceType| PresenceMessage {
        from_onion: "peer.onion".to_string(),
        presence_type: t,
        timestamp: 0,
    };
    let mut map = new_presence_map();
    apply_presence(&mut map, &msg(PresenceType::TypingStopped));
    assert_eq!(status_of(&map, "peer.onion"), None);
    apply_presence(&mut map, &msg(PresenceType::Heartbeat));
    assert_eq!(status_of(&map, "peer.onion"), Some((true, false)));
    apply_presence(&mut map, &msg(PresenceType::TypingStarted));
    assert_eq!(status_of(&map, "peer.onion"), Some((true, true)));
    apply_presence(&mut map, &msg(PresenceType::TypingStopped));
    assert_eq!(status_of(&map, "peer.onion"), Some((true, false)));
}

#[test]
fn typing_indicator_is_debounced() {
    let sec = NANOS_PER_SEC;
    let s0 = TypingState::new();
    // First character: TypingStarted.
    let (s1, sig) = s0.step(false, 10 * sec);
    assert_eq!(sig, Some(PresenceType::TypingStarted));
    assert_eq!(s1, TypingState { was_typing: true, last_started_at: Some(10 * sec) });
    // More typing within the four-second debounce: nothing.
    let (s2, sig) = s1.step(false, 13 * sec);
    assert_eq!(sig, None);
    assert_eq!(s2.last_started_at, Some(10 * sec));
    // Four seconds after the last announcement: announced again.
    let (s3, sig) = s2.step(false, 14 * sec);
    assert_eq!(sig, Some(PresenceType::TypingStarted));
    assert_eq!(s3.last_started_at, Some(14 * sec));
    // Input emptied: TypingStopped, once.
    let (s4, sig) = s3.step(true, 15 * sec);
    assert_eq!(sig, Some(PresenceType::TypingStopped));
    let (s5, sig) = s4.step(true, 16 * sec);
    assert_eq!(sig, None);
    // Typing again right away is a new start, debounce or not.
    let (_, sig) = s5.step(false, 16 * sec);
    assert_eq!(sig, Some(PresenceType::TypingStarted));
}
