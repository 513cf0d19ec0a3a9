use chattor::db::schema::{CREATE_TABLES, SCHEMA_VERSION};
use chattor::net::pool::MAX_POOL_SIZE;
use chattor::tor::connection::CHATTOR_PORT;

#[test]
fn queries_test_friend_entry_display() {
    let entry = chattor::db::queries::FriendEntry {
        friend_id: 1,
        onion_address: "abcdefghijklmnopqrstuvwxyz.onion".to_string(),
        display_name: None,
        conversation_id: None,
        unread_count: 0,
    };
    assert_eq!(entry.display(), "abcdefghijkl\u{2026}");

    let entry2 = chattor::db::queries::FriendEntry {
        friend_id: 2,
        onion_address: "test.onion".to_string(),
        display_name: Some("Alice".to_string()),
        conversation_id: None,
        unread_count: 0,
    };
    assert_eq!(entry2.display(), "Alice");
}

#[test]
fn friends_test_friend_entry_display() {
    let entry = chattor::db::queries::friends::FriendEntry {
        friend_id: 1,
        onion_address: "abcdefghijklmnopqrstuvwxyz.onion".to_string(),
        display_name: None,
        conversation_id: None,
        unread_count: 0,
    };
    assert_eq!(entry.display(), "abcdefghijkl...");

    let entry2 = chattor::db::queries::friends::FriendEntry {
        friend_id: 2,
        onion_address: "test.onion".to_string(),
        display_name: Some("Alice".to_string()),
        conversation_id: None,
        unread_count: 0,
    };
    assert_eq!(entry2.display(), "Alice");
}

#[test]
fn short_addresses_are_shown_whole() {
    let entry = chattor::db::queries::FriendEntry {
        friend_id: 3,
        onion_address: "short.onion".to_string(),
        display_name: None,
        conversation_id: None,
        unread_count: 0,
    };
    assert_eq!(entry.display(), "short.onion");
}

#[test]
fn test_schema_version_defined() {
    assert_eq!(SCHEMA_VERSION, 10);
}

#[test]
fn test_create_tables_not_empty() {
    assert!(!CREATE_TABLES.is_empty());
    assert!(CREATE_TABLES.contains("CREATE TABLE"));
}

#[test]
fn test_max_pool_size_constant() {
    assert_eq!(MAX_POOL_SIZE, 50);
}

#[test]
fn test_chattor_port_constant() {
    assert_eq!(CHATTOR_PORT, 9735);
}

#[test]
fn batch_read_count_query_numbers_its_parameters() {
    assert_eq!(chattor::db::queries::channels::read_counts_batch_sql(0), None);
    assert_eq!(
        chattor::db::queries::channels::read_counts_batch_sql(1).unwrap(),
        "SELECT post_id, COUNT(*) FROM channel_post_receipts WHERE post_id IN (?1) GROUP BY post_id"
    );
    assert_eq!(
        chattor::db::queries::channels::read_counts_batch_sql(12).unwrap(),
        "SELECT post_id, COUNT(*) FROM channel_post_receipts WHERE post_id IN \
         (?1, ?2, ?3, ?4, ?5, ?6, ?7, ?8, ?9, ?10, ?11, ?12) GROUP BY post_id"
    );
}

#[test]
fn u64_parsing_agrees_with_std() {
    for s in [
        "", "+", "-", "-1", "0", "007", "+5", "42", " 1", "1 ", "1a", "18446744073709551615",
        "18446744073709551616", "99999999999999999999", "+18446744073709551615",
    ] {
        assert_eq!(chattor::text::parse_u64(s), s.parse::<u64>().ok(), "{:?}", s);
    }
}
