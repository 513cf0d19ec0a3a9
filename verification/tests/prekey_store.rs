use base64::Engine;
use chattor::crypto::prekey_store::{
    decode32, identity_secret_from_row, material_from_rows, material_rows, setting_key, stale_peer,
};
use chattor::crypto::signal::PreKeyPrivateMaterial;
use std::collections::HashMap;

/// The settings table, as the database keeps it.
#[derive(Default)]
struct Table(HashMap<String, String>);

impl Table {
    fn store(&mut self, peer: &str, m: &PreKeyPrivateMaterial, secret: &[u8; 32], created_at: i64) {
        for (k, v) in material_rows(peer, m, secret, created_at) {
            self.0.insert(k, v);
        }
    }

    fn row(&self, kind: &str, peer: &str) -> Option<&str> {
        self.0.get(&setting_key(kind, peer)).map(|v| v.as_str())
    }

    fn load(&self, peer: &str) -> Option<PreKeyPrivateMaterial> {
        material_from_rows(
            peer,
            self.row("prekey_identity", peer),
            self.row("prekey_spk", peer),
            self.row("prekey_opk", peer),
        )
        .unwrap()
    }

    fn load_signal_identity_secret(&self, peer: &str) -> Option<[u8; 32]> {
        identity_secret_from_row(self.row("signal_identity_secret", peer)).unwrap()
    }

    fn delete(&mut self, peer: &str) {
        let suffix = format!(":{}", peer);
        self.0.retain(|k, _| !(k.starts_with("prekey_") && k.ends_with(&suffix)));
        self.0.remove(&setting_key("signal_identity_secret", peer));
    }

    fn cleanup_stale(&mut self, now: u64, max_age_secs: u64) -> usize {
        let stale: Vec<String> = self
            .0
            .iter()
            .filter(|(k, _)| k.starts_with("prekey_created_at:"))
            .filter_map(|(k, v)| stale_peer(k, v, now, max_age_secs))
            .collect();
        for peer in &stale {
            self.delete(peer);
        }
        stale.len()
    }
}

fn material(with_opk: bool) -> PreKeyPrivateMaterial {
    PreKeyPrivateMaterial {
        identity_secret: [1u8; 32],
        signed_prekey_secret: [2u8; 32],
        prekey_secret: if with_opk { Some([3u8; 32]) } else { None },
    }
}

#[test]
fn test_store_and_load() {
    let mut store = Table::default();
    store.store("peer.onion", &material(true), &[9u8; 32], 1000);
    let loaded = store.load("peer.onion").unwrap();
    assert_eq!(loaded.identity_secret, [1u8; 32]);
    assert_eq!(loaded.signed_prekey_secret, [2u8; 32]);
    assert_eq!(loaded.prekey_secret, Some([3u8; 32]));
    assert_eq!(store.load_signal_identity_secret("peer.onion"), Some([9u8; 32]));
}

#[test]
fn test_load_absent_returns_none() {
    let store = Table::default();
    assert!(store.load("nobody.onion").is_none());
    assert!(store.load_signal_identity_secret("nobody.onion").is_none());
}

#[test]
fn test_store_without_opk() {
    let mut store = Table::default();
    store.store("peer.onion", &material(false), &[9u8; 32], 1000);
    let loaded = store.load("peer.onion").unwrap();
    assert_eq!(loaded.prekey_secret, None);
}

#[test]
fn test_delete_is_idempotent() {
    let mut store = Table::default();
    store.store("peer.onion", &material(true), &[9u8; 32], 1000);
    store.delete("peer.onion");
    store.delete("peer.onion");
    assert!(store.load("peer.onion").is_none());
    assert!(store.load_signal_identity_secret("peer.onion").is_none());
}

#[test]
fn test_cleanup_stale() {
    let mut store = Table::default();
    store.store("old.onion", &material(true), &[9u8; 32], 0);
    let now = 1_700_000_000u64;
    store.store("new.onion", &material(true), &[8u8; 32], now as i64);
    let cleaned = store.cleanup_stale(now, 60);
    assert_eq!(cleaned, 1);
    assert!(store.load("old.onion").is_none());
    assert!(store.load("new.onion").is_some());
}

// --- further cases -----------------------------------------------------------

#[test]
fn rows_are_written_in_order_with_their_keys() {
    let rows = material_rows("p.onion", &material(true), &[9u8; 32], -7);
    let keys: Vec<&str> = rows.iter().map(|(k, _)| k.as_str()).collect();
    assert_eq!(
        keys,
        vec![
            "prekey_identity:p.onion",
            "prekey_spk:p.onion",
            "prekey_opk:p.onion",
            "signal_identity_secret:p.onion",
            "prekey_created_at:p.onion"
        ]
    );
    assert_eq!(rows[4].1, "-7");
    assert_eq!(material_rows("p.onion", &material(false), &[9u8; 32], 5).len(), 4);
}

#[test]
fn missing_signed_prekey_is_an_error() {
    let err = material_from_rows("p.onion", Some("AAAA"), None, None).err().unwrap();
    assert_eq!(err.to_string(), "Crypto error: Missing PreKey SPK for p.onion");
}

#[test]
fn secrets_must_be_32_bytes() {
    let short = base64::engine::general_purpose::STANDARD.encode([0u8; 31]);
    let err = decode32(&short, "PreKey SPK").unwrap_err();
    assert_eq!(err.to_string(), "Crypto error: PreKey SPK has wrong length");
    let err = decode32("@@", "PreKey OPK").unwrap_err();
    assert!(err.to_string().starts_with("Crypto error: Failed to decode PreKey OPK: "));
}

#[test]
fn staleness_is_strictly_older_than_the_limit() {
    assert_eq!(stale_peer("prekey_created_at:a.onion", "100", 161, 60), Some("a.onion".to_string()));
    assert_eq!(stale_peer("prekey_created_at:a.onion", "100", 160, 60), None);
    // A time in the future is not stale.
    assert_eq!(stale_peer("prekey_created_at:a.onion", "500", 100, 60), None);
    // Unreadable times and foreign keys name no one.
    assert_eq!(stale_peer("prekey_created_at:a.onion", "-5", 1000, 60), None);
    assert_eq!(stale_peer("prekey_spk:a.onion", "0", 1000, 60), None);
}
