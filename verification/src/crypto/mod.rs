pub mod ed25519;
pub mod prekey_store;
pub mod primitives;
pub mod signal;
pub mod identity;
pub mod session_manager;
pub mod vanity;
