//! Commands exchanged inside the running application.

use vstd::prelude::*;

verus! {

/// Commands sent to the main thread for queue processing
pub enum QueueCommand {
    ProcessQueue,
}

} // verus!
