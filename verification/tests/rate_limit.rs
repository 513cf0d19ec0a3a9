use chattor::handlers::messaging::{admit_incoming, admit_incoming_at};
use chattor::protocol::message::{DeliveryReceiptMessage, Message, PresenceMessage, PresenceType};
use chattor::net::rate_limit::{RateLimiter, BUCKET_IDLE_TTL_NANOS, TOKEN};

#[test]
fn test_rate_limiter_allows_within_limit() {
    let mut limiter = RateLimiter::new(5, 20);
    // 20 requests within burst should all be allowed
    for i in 0..20 {
        assert!(limiter.check("peer_a"), "request {} should be allowed", i);
    }
}

#[test]
fn test_rate_limiter_blocks_over_burst() {
    let mut limiter = RateLimiter::new(5, 20);
    // Exhaust the burst
    for _ in 0..20 {
        limiter.check("peer_a");
    }
    // 21st request should be blocked (no time to refill)
    assert!(!limiter.check("peer_a"), "21st request should be blocked");
}

#[test]
fn test_rate_limiter_independent_peers() {
    let mut limiter = RateLimiter::new(5, 20);
    // Exhaust peer_a's burst
    for _ in 0..20 {
        limiter.check("peer_a");
    }
    assert!(!limiter.check("peer_a"), "peer_a should be blocked");

    // peer_b should still have a full burst
    assert!(limiter.check("peer_b"), "peer_b should be allowed");
}

#[test]
fn test_gc_evicts_idle_buckets() {
    // Populate three buckets, then GC immediately: none is past the idle limit.
    let mut limiter = RateLimiter::new(5, 20);
    for peer in &["alice", "bob", "carol"] {
        limiter.check(peer);
    }
    assert_eq!(limiter.bucket_count(), 3);
    let evicted = limiter.gc_idle();
    assert_eq!(evicted, 0);
    assert_eq!(limiter.bucket_count(), 3);
}

#[test]
fn test_gc_keeps_active_buckets() {
    let mut limiter = RateLimiter::new(5, 20);
    limiter.check("alice");
    for _ in 0..10 {
        limiter.gc_idle();
    }
    assert_eq!(limiter.bucket_count(), 1);
}

#[test]
fn test_default_limiter() {
    let mut limiter = RateLimiter::default_limiter();
    // Should have burst of 20
    for i in 0..20 {
        assert!(limiter.check("peer"), "request {} should be allowed", i);
    }
    assert!(!limiter.check("peer"), "21st request should be blocked");
}

// --- further cases, on an explicit clock -------------------------------------

#[test]
fn burst_at_one_instant_then_refused() {
    let mut limiter = RateLimiter::new(1, 3);
    assert!(limiter.check_at("p", 0));
    assert!(limiter.check_at("p", 0));
    assert!(limiter.check_at("p", 0));
    assert!(!limiter.check_at("p", 0));
    assert!(!limiter.check_at("p", 0));
}

#[test]
fn one_token_returns_after_one_over_rate_seconds() {
    // 4 tokens per second: a token every 250 ms.
    let mut limiter = RateLimiter::new(4, 1);
    assert!(limiter.check_at("p", 0));
    assert!(!limiter.check_at("p", 249_999_999));
    // The refused check above still moved the refill mark, and earned
    // 999_999_996 billionths; 1 more nanosecond is 4 more.
    assert!(limiter.check_at("p", 250_000_000));
    assert!(!limiter.check_at("p", 250_000_000));
    assert!(limiter.check_at("p", 500_000_000));
}

#[test]
fn refill_never_exceeds_burst() {
    let mut limiter = RateLimiter::new(1000, 2);
    assert!(limiter.check_at("p", 0));
    // A long wait refills only up to the burst of 2.
    let later = 3_600 * TOKEN;
    assert!(limiter.check_at("p", later));
    assert!(limiter.check_at("p", later));
    assert!(!limiter.check_at("p", later));
}

#[test]
fn zero_burst_refuses_everything() {
    let mut limiter = RateLimiter::new(5, 0);
    assert!(!limiter.check_at("p", 0));
    assert!(!limiter.check_at("p", 10 * TOKEN));
}

#[test]
fn clock_going_backwards_refills_nothing() {
    let mut limiter = RateLimiter::new(1, 1);
    assert!(limiter.check_at("p", 5 * TOKEN));
    assert!(!limiter.check_at("p", TOKEN));
}

#[test]
fn gc_at_drops_only_idle_buckets() {
    let mut limiter = RateLimiter::new(5, 20);
    limiter.check_at("old", 0);
    limiter.check_at("fresh", BUCKET_IDLE_TTL_NANOS);
    assert_eq!(limiter.bucket_count(), 2);
    // At exactly the idle limit the first bucket goes, the second stays.
    assert_eq!(limiter.gc_idle_at(BUCKET_IDLE_TTL_NANOS), 1);
    assert_eq!(limiter.bucket_count(), 1);
    // The dropped peer starts over with a full bucket.
    for _ in 0..20 {
        assert!(limiter.check_at("old", BUCKET_IDLE_TTL_NANOS));
    }
    assert!(!limiter.check_at("old", BUCKET_IDLE_TTL_NANOS));
    assert_eq!(limiter.gc_idle_at(BUCKET_IDLE_TTL_NANOS + 1), 0);
}

#[test]
fn incoming_messages_spend_their_senders_tokens() {
    let presence = Message::Presence(PresenceMessage {
        from_onion: "chatty.onion".to_string(),
        presence_type: PresenceType::Heartbeat,
        timestamp: 0,
    });
    let receipt = Message::DeliveryReceipt(DeliveryReceiptMessage { message_id: 7, timestamp: 0 });
    let mut limiter = RateLimiter::new(1, 2);
    assert!(admit_incoming_at(&mut limiter, &presence, 0));
    assert!(admit_incoming_at(&mut limiter, &presence, 0));
    assert!(!admit_incoming_at(&mut limiter, &presence, 0));
    // A receipt names no sender: it always passes and keeps no bucket.
    for _ in 0..5 {
        assert!(admit_incoming_at(&mut limiter, &receipt, 0));
    }
    assert_eq!(limiter.bucket_count(), 1);
    assert!(admit_incoming(&mut limiter, &receipt));
}

#[test]
fn burst_within_a_short_window_then_refused() {
    let mut l = RateLimiter::default_limiter();
    for i in 0..20u128 {
        assert!(l.check_at("peer_a", 1_000 + i * 1_000_000));
    }
    assert!(!l.check_at("peer_a", 1_000 + 20 * 1_000_000));
    assert!(l.check_at("peer_b", 1_000 + 21 * 1_000_000));
}
