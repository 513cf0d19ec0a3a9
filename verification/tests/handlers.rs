use chattor::daemon::socket::{connection_step, constant_time_eq, ConnectionAction};
use chattor::db::queries::ChannelSubscription;
use chattor::handlers::channels::{publish_channel, publish_post, sync_requests};
use chattor::crypto::identity::IdentityKeypair;
use chattor::handlers::friend_request::{own_friend_code, resolve_peer_input};
use chattor::protocol::friend_code::{onion_to_friend_code, pubkey_to_onion};
use chattor::protocol::message::{ChannelType, Message};

#[test]
fn peer_input_accepts_addresses_and_codes() {
    let onion = pubkey_to_onion(&[3u8; 32]).unwrap();
    assert_eq!(resolve_peer_input(&format!("  {}  ", onion)).unwrap(), onion);
    let code = onion_to_friend_code(&onion).unwrap();
    assert_eq!(resolve_peer_input(&code).unwrap(), onion);
    let e = resolve_peer_input("hello there").unwrap_err();
    assert_eq!(
        e.to_string(),
        "Tor error: Enter a .onion address or friend code (word sequence from their Identity)"
    );
}

#[test]
fn own_code_falls_back_to_unknown() {
    assert_eq!(own_friend_code("not-an-onion"), "unknown");
    let onion = pubkey_to_onion(&[0u8; 32]).unwrap();
    assert_eq!(own_friend_code(&onion), onion_to_friend_code(&onion).unwrap());
}

#[test]
fn one_sync_request_per_subscription() {
    let subs = vec![
        ChannelSubscription {
            id: 1,
            publisher_onion: "a.onion".into(),
            channel_type: "public".into(),
            subscribed_at: 0,
            last_sync_at: Some(500),
        },
        ChannelSubscription {
            id: 2,
            publisher_onion: "b.onion".into(),
            channel_type: "friends".into(),
            subscribed_at: 0,
            last_sync_at: None,
        },
    ];
    let reqs = sync_requests(&subs, "me.onion");
    assert_eq!(reqs.len(), 2);
    assert_eq!(reqs[0].0, "a.onion");
    match &reqs[0].1 {
        Message::ChannelSyncRequest(m) => {
            assert_eq!(m.subscriber_onion, "me.onion");
            assert_eq!(m.channel_type, ChannelType::Public);
            assert_eq!(m.since_timestamp, 500);
        }
        _ => panic!("expected a sync request"),
    }
    match &reqs[1].1 {
        Message::ChannelSyncRequest(m) => {
            assert_eq!(m.channel_type, ChannelType::FriendsOnly);
            assert_eq!(m.since_timestamp, 0);
        }
        _ => panic!("expected a sync request"),
    }
}

#[test]
fn constant_time_eq_compares_contents() {
    assert!(constant_time_eq(b"token", b"token"));
    assert!(!constant_time_eq(b"token", b"tokem"));
    assert!(!constant_time_eq(b"token", b"tokens"));
    assert!(constant_time_eq(b"", b""));
}

#[test]
fn first_request_needs_the_token() {
    let token = "0123abcd";
    assert_eq!(connection_step(false, Some((None, "status")), token), (false, ConnectionAction::Unauthorized));
    assert_eq!(
        connection_step(false, Some((Some("0123abce"), "status")), token),
        (false, ConnectionAction::Unauthorized)
    );
    assert_eq!(connection_step(false, Some((Some(token), "status")), token), (true, ConnectionAction::Dispatch));
}

#[test]
fn later_requests_need_no_token() {
    assert_eq!(connection_step(true, Some((None, "friends_list")), "t"), (true, ConnectionAction::Dispatch));
    assert_eq!(connection_step(true, Some((Some("wrong"), "listen")), "t"), (true, ConnectionAction::Listen));
}

#[test]
fn unparsable_lines_change_nothing() {
    assert_eq!(connection_step(false, None, "t"), (false, ConnectionAction::ParseError));
    assert_eq!(connection_step(true, None, "t"), (true, ConnectionAction::ParseError));
}

#[test]
fn listen_streams_once_authenticated() {
    assert_eq!(connection_step(false, Some((Some("t"), "listen")), "t"), (true, ConnectionAction::Listen));
}

#[test]
fn posts_go_to_the_named_channel() {
    assert_eq!(publish_channel("public"), Some(1));
    assert_eq!(publish_channel("friends_only"), Some(2));
    assert_eq!(publish_channel("Public"), None);
    assert_eq!(publish_channel(""), None);
}

#[test]
fn published_post_verifies_from_own_address() {
    let identity = IdentityKeypair::generate().unwrap();
    let onion = identity.to_onion_address();
    let post = publish_post(&identity, &onion, "friends_only", "hello".to_string(), 1_700_000_000, 42);
    assert_eq!(post.channel_type, ChannelType::FriendsOnly);
    assert_eq!(post.post_id, 42);
    assert_eq!(post.content, "hello");
    assert_eq!(post.created_at, 1_700_000_000);
    assert!(post.verify_signature());

    let mut forged = post.clone();
    forged.content = "hullo".to_string();
    assert!(!forged.verify_signature());

    let elsewhere = publish_post(&identity, "someone-else.onion", "public", "x".to_string(), 1, 1);
    assert_eq!(elsewhere.channel_type, ChannelType::Public);
    assert!(!elsewhere.verify_signature());
}
