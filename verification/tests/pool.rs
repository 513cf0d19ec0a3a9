use chattor::net::pool::{ConnectionPool, IDLE_TIMEOUT_NANOS, MAX_POOL_SIZE};

#[test]
fn test_pool_size_limit() {
    let mut cache: ConnectionPool<u32> = ConnectionPool::new();
    for i in 0..(MAX_POOL_SIZE + 10) {
        cache.insert(&format!("peer_{}", i), i as u32, i as u128);
    }
    assert!(cache.len() <= MAX_POOL_SIZE);
    assert_eq!(cache.len(), MAX_POOL_SIZE);
}

#[test]
fn test_dashmap_retain_removes_idle() {
    let mut cache: ConnectionPool<u32> = ConnectionPool::new();
    cache.insert("recent", 1, 0);
    cache.insert("also_recent", 2, 0);
    assert_eq!(cache.len(), 2);
    assert_eq!(cache.evict_idle(1_000), 0);
    assert_eq!(cache.len(), 2);
}

#[test]
fn full_pool_evicts_least_recently_used() {
    let mut cache: ConnectionPool<usize> = ConnectionPool::new();
    for i in 0..MAX_POOL_SIZE {
        // peer_7 is the oldest; everyone else was used later.
        let used = if i == 7 { 1 } else { 100 + i as u128 };
        cache.insert(&format!("peer_{}", i), i, used);
    }
    cache.insert("newcomer", 999, 500);
    assert_eq!(cache.len(), MAX_POOL_SIZE);
    assert!(cache.take("peer_7").is_none());
    assert_eq!(cache.take("newcomer").unwrap().conn, 999);
    assert_eq!(cache.take("peer_8").unwrap().last_used, 108);
}

#[test]
fn reinserting_a_peer_replaces_its_connection() {
    let mut cache: ConnectionPool<&str> = ConnectionPool::new();
    cache.insert("a", "first", 1);
    cache.insert("a", "second", 2);
    assert_eq!(cache.len(), 1);
    let pc = cache.take("a").unwrap();
    assert_eq!(pc.conn, "second");
    assert_eq!(pc.last_used, 2);
    assert!(cache.take("a").is_none());
}

#[test]
fn evict_removes_only_that_peer() {
    let mut cache: ConnectionPool<u8> = ConnectionPool::new();
    cache.insert("a", 1, 0);
    cache.insert("b", 2, 0);
    cache.evict("a");
    cache.evict("missing");
    assert_eq!(cache.len(), 1);
    assert_eq!(cache.take("b").unwrap().conn, 2);
}

#[test]
fn idle_connections_are_swept_and_not_listed() {
    let mut cache: ConnectionPool<u8> = ConnectionPool::new();
    cache.insert("old", 1, 0);
    cache.insert("new", 2, IDLE_TIMEOUT_NANOS);
    let now = IDLE_TIMEOUT_NANOS;
    assert_eq!(cache.connected_peers(now), vec!["new".to_string()]);
    assert_eq!(cache.evict_idle(now), 1);
    assert!(cache.take("old").is_none());
    assert!(cache.take("new").is_some());
}
