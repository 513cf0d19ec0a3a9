//! Constants of peer connections over Tor.

use vstd::prelude::*;

verus! {

/// Port used for chattor peer-to-peer communication over Tor
pub const CHATTOR_PORT: u16 = 9735;

} // verus!
