//! Application settings and where its files live.

use vstd::prelude::*;

use crate::error::{ChattorError, Result};
use crate::text::str_to_string;

verus! {

/// `base` joined with a relative path, the way `PathBuf::join` does it:
/// a `/` goes between them unless `base` is empty or already ends in one.
pub open spec fn path_join(base: Seq<char>, rel: Seq<char>) -> Seq<char> {
    if base.len() == 0 {
        rel
    } else if base.last() == '/' {
        base + rel
    } else {
        base + seq!['/'] + rel
    }
}

/// Join a relative path onto a directory.
pub fn join_path(base: &str, rel: &str) -> (r: String)
    ensures
        r@ == path_join(base@, rel@),
{
    let n = base.unicode_len();
    let mut r = str_to_string(base);
    if n > 0 && base.get_char(n - 1) != '/' {
        r.append("/");
        proof {
            reveal_strlit("/");
        }
    }
    r.append(rel);
    r
}

/// A joined path begins with the base directory and ends with the joined part.
pub proof fn lemma_join_extends(base: Seq<char>, rel: Seq<char>)
    ensures
        path_join(base, rel).len() >= base.len() + rel.len(),
        path_join(base, rel).take(base.len() as int) == base,
        path_join(base, rel).skip(path_join(base, rel).len() - rel.len()) == rel,
{
    let p = path_join(base, rel);
    if base.len() == 0 {
        assert(p.take(0) =~= base);
        assert(p.skip(p.len() - rel.len()) =~= rel);
    } else if base.last() == '/' {
        assert(p.take(base.len() as int) =~= base);
        assert(p.skip(p.len() - rel.len()) =~= rel);
    } else {
        assert(p.take(base.len() as int) =~= base);
        assert(p.skip(p.len() - rel.len()) =~= rel);
    }
}

#[derive(Debug, Clone)]
pub struct Settings {
    /// Config directory path
    pub config_dir: String,
    /// Data directory path
    pub data_dir: String,
    /// Database file path
    pub db_path: String,
    /// Enable debug logging
    pub debug: bool,
    /// Tor SOCKS port
    pub tor_socks_port: u16,
}

/// The Tor SOCKS port used unless configured otherwise.
pub const DEFAULT_TOR_SOCKS_PORT: u16 = 9050;

impl Settings {
    /// Default config directory under a home directory.
    pub fn default_config_dir(home: &str) -> (r: String)
        ensures
            r@ == path_join(home@, ".config/chattor"@),
    {
        join_path(home, ".config/chattor")
    }

    /// Default data directory under a home directory.
    pub fn default_data_dir(home: &str) -> (r: String)
        ensures
            r@ == path_join(home@, ".local/share/chattor"@),
    {
        join_path(home, ".local/share/chattor")
    }

    /// The default settings for a user whose home directory is `home`: the
    /// database `messages.db` in the data directory, no debug logging, Tor
    /// on port 9050.
    pub fn default_for_home(home: &str) -> (r: Settings)
        ensures
            r.config_dir@ == path_join(home@, ".config/chattor"@),
            r.data_dir@ == path_join(home@, ".local/share/chattor"@),
            r.db_path@ == path_join(r.data_dir@, "messages.db"@),
            !r.debug,
            r.tor_socks_port == DEFAULT_TOR_SOCKS_PORT,
    {
        let config_dir = Self::default_config_dir(home);
        let data_dir = Self::default_data_dir(home);
        let db_path = join_path(data_dir.as_str(), "messages.db");
        Settings { config_dir, data_dir, db_path, debug: false, tor_socks_port: DEFAULT_TOR_SOCKS_PORT }
    }

    /// The default settings, given the value of `HOME` if it is set.
    /// Without a home directory there is nowhere to keep the files, and the
    /// result is an I/O error ("HOME not set").
    pub fn default(home: Option<&str>) -> (r: Result<Settings>)
        ensures
            home is None <==> r is Err,
            r matches Err(e) ==> e matches ChattorError::Io(io) && io_error_kind_is_not_found(io),
            r matches Ok(s) ==> {
                &&& s.config_dir@ == path_join(home.unwrap()@, ".config/chattor"@)
                &&& s.data_dir@ == path_join(home.unwrap()@, ".local/share/chattor"@)
                &&& s.db_path@ == path_join(s.data_dir@, "messages.db"@)
                &&& !s.debug
                &&& s.tor_socks_port == DEFAULT_TOR_SOCKS_PORT
            },
    {
        match home {
            Some(h) => Ok(Self::default_for_home(h)),
            None => Err(ChattorError::Io(io_error_not_found("HOME not set"))),
        }
    }
}

/// Whether `e.kind()` is `ErrorKind::NotFound`.
pub uninterp spec fn io_error_kind_is_not_found(e: std::io::Error) -> bool;

/// `std::io::Error::new(ErrorKind::NotFound, msg)`: an error whose
/// `kind()` is `NotFound`, as `Error::new` documents. Nothing is claimed of
/// what it prints.
#[verifier::external_body]
fn io_error_not_found(msg: &str) -> (e: std::io::Error)
    ensures
        io_error_kind_is_not_found(e),
{
    std::io::Error::new(std::io::ErrorKind::NotFound, msg)
}

} // verus!
