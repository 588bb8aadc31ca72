//! The compiled-in queue handlers.

use vstd::prelude::*;
use crate::handling::QueueHandler;

verus! {

/// Consumes the user-update queue. Message handling is not implemented yet:
/// every message is accepted and discarded.
pub struct UserUpdateQueueHandler;

impl QueueHandler for UserUpdateQueueHandler {
    open spec fn spec_queue_name(&self) -> Seq<char> {
        "loved:queues:user_update"@
    }

    fn queue_name(&self) -> (name: &'static str) {
        "loved:queues:user_update"
    }

    fn handle_message(&self, _message: String) -> Result<(), String> {
        Ok(())
    }
}

} // verus!

