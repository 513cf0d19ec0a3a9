# chattor

Peer-to-peer encrypted chat over Tor: friends are added by a 32-word friend
code that spells the Ed25519 key of their `.onion` address, sessions are set
up with X3DH and run the Double Ratchet, and messages that cannot be
delivered at once wait in a queue with exponential backoff, for at most
50 attempts within a day.

## Layout

- `src/` — the library, verified with Verus. Each public function states
  its behaviour in `requires`/`ensures` over spec functions and views;
  the laws that relate several functions are public proof functions
  (`lemma_*`). Calls into outside crates (base32, base64, sha3,
  ed25519-dalek, x25519-dalek, libsignal-dezire, argon2, hex, uuid, rand,
  serde_json) go through small trusted wrappers whose contracts say what
  the crate's source or documentation shows.
  Signal sessions (X3DH and the Double Ratchet with encrypted headers)
  come from `libsignal-dezire`, a Rust implementation of the Signal
  protocols that stands in for `libsignal-protocol`, which this build
  cannot obtain; `curve25519-dalek` is used only to check that
  a peer's key is a point that `libsignal-dezire` can convert without
  panicking.
  - `protocol/` — friend codes, wire messages and their signatures,
    friend requests and accepts.
  - `crypto/` — identities, PreKey bundles, Signal sessions, the session
    orchestration and the PreKey material records, vanity prefixes.
  - `net/` — frame encoding, the retry schedule, the rate limiter and the
    connection cache.
  - `handlers/`, `daemon/`, `mcp/`, `ui/` — the decisions made on incoming
    messages, RPC requests, MCP requests and tools, views, and each step of
    the terminal interface (`ui::tui::tui_step`: the next screen, status
    line and typing state, and the work the loop is to do).
  - `presence.rs`, `config/`, `db/`, `text.rs`, `codec.rs`, `keyed.rs` —
    presence tracking, settings, records and SQL text, string and encoding
    helpers, and association lists keyed by text.
- `tests/` — tests that run the library with the real outside crates.
- `app/` — the command-line client: argument parsing, the Unix-socket RPC
  client, the MCP stdio server and the vanity-address miner.
