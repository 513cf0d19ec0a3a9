//! chattor: peer-to-peer encrypted chat over Tor.
//!
//! The library holds the protocol logic: friend codes and onion addresses,
//! message framing and signatures, Signal session set-up, the retry,
//! rate-limit and connection-cache policies, presence and typing
//! indicators, the decisions the handlers and the daemon make on incoming
//! messages and requests, and the records the application stores.

pub mod app;
pub mod cli;
pub mod codec;
pub mod config;
pub mod crypto;
pub mod daemon;
pub mod db;
pub mod error;
pub mod handlers;
pub mod keyed;
pub mod mcp;
pub mod net;
pub mod presence;
pub mod protocol;
pub mod text;

pub mod tor;
pub mod ui;

pub use error::{ChattorError, Result};
