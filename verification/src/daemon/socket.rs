//! Local socket clients: their authentication, and what the daemon does
//! with each line a client sends.

use vstd::prelude::*;

use crate::text::str_equals;

verus! {

/// Byte comparison whose running time does not depend on where the inputs
/// first differ (it always folds over every byte), so that comparing auth
/// tokens leaks nothing through timing.
pub fn constant_time_eq(a: &[u8], b: &[u8]) -> (r: bool)
    ensures
        r == (a@ == b@),
{
    if a.len() != b.len() {
        return false;
    }
    let mut acc: u8 = 0;
    let mut i: usize = 0;
    assert(a@.take(0) =~= b@.take(0));
    while i < a.len()
        invariant
            a@.len() == b@.len(),
            i <= a@.len(),
            (acc == 0) == (a@.take(i as int) == b@.take(i as int)),
        decreases a@.len() - i,
    {
        let x = a[i];
        let y = b[i];
        let old_acc = acc;
        acc = acc | (x ^ y);
        assert((old_acc | (x ^ y)) == 0 <==> (old_acc == 0 && x == y)) by (bit_vector);
        proof {
            if a@.take(i as int) == b@.take(i as int) && x == y {
                assert(a@.take(i + 1) =~= a@.take(i as int).push(x));
                assert(b@.take(i + 1) =~= b@.take(i as int).push(y));
            }
            if a@.take(i + 1) == b@.take(i + 1) {
                assert(a@.take(i + 1)[i as int] == x);
                assert(b@.take(i + 1)[i as int] == y);
                assert(a@.take(i as int) =~= a@.take(i + 1).take(i as int));
                assert(b@.take(i as int) =~= b@.take(i + 1).take(i as int));
            }
        }
        i = i + 1;
    }
    assert(a@.take(a@.len() as int) =~= a@);
    assert(b@.take(b@.len() as int) =~= b@);
    acc == 0
}

/// The RPC error code of a request refused for want of a valid auth token.
pub const UNAUTHORIZED: i32 = -32001;

/// What the daemon does with a line a client sent.
#[derive(Debug, Clone, Copy, PartialEq, Eq)]
pub enum ConnectionAction {
    /// The line is not a request: answer with a parse error and go on.
    ParseError,
    /// The first request lacks the right token: answer that the client is
    /// unauthorized and hang up.
    Unauthorized,
    /// Stream incoming message events to the client until it hangs up.
    Listen,
    /// Answer the request through the RPC dispatcher.
    Dispatch,
}

/// What the daemon does with a line, on a connection that is or is not
/// authenticated yet, given the request the line holds (`None` when it
/// does not parse): the `auth` token it carries, if any, and its method.
/// Only the first request must carry the token. Returns whether the
/// connection is authenticated afterwards, and the action.
pub fn connection_step(
    authenticated: bool,
    request: Option<(Option<&str>, &str)>,
    auth_token: &str,
) -> (r: (bool, ConnectionAction))
    ensures
        match request {
            None => r == (authenticated, ConnectionAction::ParseError),
            Some((token, method)) => if !authenticated && !(token matches Some(t) && t@ == auth_token@) {
                r == (false, ConnectionAction::Unauthorized)
            } else if method@ == "listen"@ {
                r == (true, ConnectionAction::Listen)
            } else {
                r == (true, ConnectionAction::Dispatch)
            },
        },
{
    let (token, method) = match request {
        None => return (authenticated, ConnectionAction::ParseError),
        Some(req) => req,
    };
    if !authenticated {
        let ok = match token {
            Some(t) => {
                let eq = constant_time_eq(t.as_bytes(), auth_token.as_bytes());
                proof {
                    vstd::utf8::encode_utf8_decode_utf8(t@);
                    vstd::utf8::encode_utf8_decode_utf8(auth_token@);
                }
                eq
            },
            None => false,
        };
        if !ok {
            return (false, ConnectionAction::Unauthorized);
        }
    }
    if str_equals(method, "listen") {
        (true, ConnectionAction::Listen)
    } else {
        (true, ConnectionAction::Dispatch)
    }
}

} // verus!
