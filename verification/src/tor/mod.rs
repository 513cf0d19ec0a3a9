pub mod address;
pub mod connection;

pub use address::{friend_code_to_onion, onion_to_friend_code};
