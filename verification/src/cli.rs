//! The command line of chattor, as parsed values. The parser itself is
//! generated for the application from these shapes.

use vstd::prelude::*;

verus! {

/// Parsed command line.
#[derive(Debug, Clone)]
pub struct Cli {
    pub command: Option<Command>,
    /// Enable debug logging
    pub debug: bool,
    /// Override config directory
    pub config_dir: Option<String>,
    /// Override data directory
    pub data_dir: Option<String>,
}

#[derive(Debug, Clone)]
pub enum Command {
    /// Run interactive TUI (default if no subcommand)
    Tui { theme: Option<String> },
    /// Run headless daemon
    Daemon { passphrase_fd: Option<i32> },
    /// Show daemon status
    Status,
    /// Show own identity (friend code + .onion address)
    Identity,
    /// Friend management
    Friends { action: FriendsAction },
    /// Send a message
    Send { peer: String, message: String },
    /// Receive unread messages
    Recv { peer: Option<String> },
    /// Stream incoming messages (blocking)
    Listen,
    /// Channel management
    Channels { action: ChannelsAction },
    /// Set ephemeral message TTL
    Ephemeral { peer: String, ttl: i64 },
    /// Toggle notifications
    Notifications { state: String },
    /// Start MCP server (stdio transport)
    Mcp,
}

#[derive(Debug, Clone)]
pub enum FriendsAction {
    List,
    Add { code: String },
    Remove { onion: String },
    Requests,
    Accept { id: i64 },
    Reject { id: i64 },
}

#[derive(Debug, Clone)]
pub enum ChannelsAction {
    List,
    Publish { channel_type: String, message: String },
    Subscribe { onion: String },
    Feed { channel: Option<i64> },
}

} // verus!
