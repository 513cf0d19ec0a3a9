//! The crate-wide error type.

use vstd::prelude::*;
use vstd::std_specs::convert::FromSpecImpl;

use crate::text::str_to_string;

verus! {

#[verifier::external_type_specification]
#[verifier::external_body]
pub struct ExIoError(std::io::Error);

/// Every failure the library reports.
#[derive(Debug)]
pub enum ChattorError {
    Database(String),
    Io(std::io::Error),
    SignalProtocol(String),
    SessionNotFound(String),
    InvalidPreKeyBundle(String),
    DecryptionFailed(String),
    TorConnection(String),
    TorBootstrap(String),
    InvalidOnionAddress(String),
    Network(String),
    ConnectionTimeout(String),
    Crypto(String),
    Tor(String),
}

pub type Result<T> = core::result::Result<T, ChattorError>;

/// `e` is a `Crypto` error whose message is `msg`.
pub open spec fn is_crypto_error(e: ChattorError, msg: Seq<char>) -> bool {
    e matches ChattorError::Crypto(s) && s@ == msg
}

/// The fixed text that precedes the detail of each kind of error.
pub open spec fn error_prefix(e: ChattorError) -> Seq<char> {
    match e {
        ChattorError::Database(_) => "Database error: "@,
        ChattorError::Io(_) => "I/O error: "@,
        ChattorError::SignalProtocol(_) => "Signal Protocol error: "@,
        ChattorError::SessionNotFound(_) => "Session not found for "@,
        ChattorError::InvalidPreKeyBundle(_) => "Invalid PreKey bundle: "@,
        ChattorError::DecryptionFailed(_) => "Decryption failed: "@,
        ChattorError::TorConnection(_) => "Tor connection error: "@,
        ChattorError::TorBootstrap(_) => "Failed to bootstrap Tor: "@,
        ChattorError::InvalidOnionAddress(_) => "Invalid .onion address: "@,
        ChattorError::Network(_) => "Network error: "@,
        ChattorError::ConnectionTimeout(_) => "Connection timeout to "@,
        ChattorError::Crypto(_) => "Crypto error: "@,
        ChattorError::Tor(_) => "Tor error: "@,
    }
}

/// The detail carried by an error, for every kind that carries text.
pub open spec fn error_detail(e: ChattorError) -> Option<Seq<char>> {
    match e {
        ChattorError::Database(s) => Some(s@),
        ChattorError::Io(_) => None,
        ChattorError::SignalProtocol(s) => Some(s@),
        ChattorError::SessionNotFound(s) => Some(s@),
        ChattorError::InvalidPreKeyBundle(s) => Some(s@),
        ChattorError::DecryptionFailed(s) => Some(s@),
        ChattorError::TorConnection(s) => Some(s@),
        ChattorError::TorBootstrap(s) => Some(s@),
        ChattorError::InvalidOnionAddress(s) => Some(s@),
        ChattorError::Network(s) => Some(s@),
        ChattorError::ConnectionTimeout(s) => Some(s@),
        ChattorError::Crypto(s) => Some(s@),
        ChattorError::Tor(s) => Some(s@),
    }
}

/// Renders an `std::io::Error` through its `Display` implementation. The
/// text comes from the operating system and its C library, so nothing is
/// claimed of it.
#[verifier::external_body]
fn io_error_to_string(e: &std::io::Error) -> (s: String) {
    e.to_string()
}

impl ChattorError {
    /// The human-readable text of the error (what `Display` prints).
    pub fn to_string(&self) -> (s: String)
        ensures
            match error_detail(*self) {
                Some(d) => s@ == error_prefix(*self) + d,
                None => error_prefix(*self).is_prefix_of(s@),
            },
    {
        let (prefix, detail): (&str, &String) = match self {
            ChattorError::Database(s) => ("Database error: ", s),
            ChattorError::Io(e) => {
                let mut out = str_to_string("I/O error: ");
                let t = io_error_to_string(e);
                let ghost head = out@;
                out.append(t.as_str());
                assert(out@.subrange(0, head.len() as int) =~= head);
                return out;
            },
            ChattorError::SignalProtocol(s) => ("Signal Protocol error: ", s),
            ChattorError::SessionNotFound(s) => ("Session not found for ", s),
            ChattorError::InvalidPreKeyBundle(s) => ("Invalid PreKey bundle: ", s),
            ChattorError::DecryptionFailed(s) => ("Decryption failed: ", s),
            ChattorError::TorConnection(s) => ("Tor connection error: ", s),
            ChattorError::TorBootstrap(s) => ("Failed to bootstrap Tor: ", s),
            ChattorError::InvalidOnionAddress(s) => ("Invalid .onion address: ", s),
            ChattorError::Network(s) => ("Network error: ", s),
            ChattorError::ConnectionTimeout(s) => ("Connection timeout to ", s),
            ChattorError::Crypto(s) => ("Crypto error: ", s),
            ChattorError::Tor(s) => ("Tor error: ", s),
        };
        let mut out = str_to_string(prefix);
        out.append(detail.as_str());
        out
    }
}

impl From<std::io::Error> for ChattorError {
    fn from(e: std::io::Error) -> (r: Self) {
        ChattorError::Io(e)
    }
}

impl FromSpecImpl<std::io::Error> for ChattorError {
    open spec fn obeys_from_spec() -> bool {
        true
    }

    open spec fn from_spec(v: std::io::Error) -> ChattorError {
        ChattorError::Io(v)
    }
}

/// Turns a failed result into `None`, for calls whose failure must not stop
/// the surrounding flow.
pub trait LogErr<T>: Sized {
    fn log_err(self, context: &'static str) -> Option<T>;
}

impl<T, E> LogErr<T> for core::result::Result<T, E> {
    fn log_err(self, context: &'static str) -> (r: Option<T>)
        ensures
            r == match self {
                Ok(v) => Some(v),
                Err(_) => None::<T>,
            },
    {
        match self {
            Ok(v) => Some(v),
            Err(_) => None,
        }
    }
}

} // verus!
