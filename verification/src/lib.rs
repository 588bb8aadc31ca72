//! Queue-dispatch and scheduled-task runtime.
//!
//! The crate owns a registry of message handlers, each bound to one named work
//! queue, and a manager of scheduled tasks, each bound to a cron expression.
//! The decisions of the per-queue worker loop and of the scheduler tick are
//! verified here; the transport (the queue store connection, the clock) is a
//! collaborator that hands plain values in and takes plain values back.

use vstd::prelude::*;

pub mod beatmaps;
pub mod entities;
pub mod environment;
pub mod errors;
pub mod handling;
pub mod queues;
pub mod retry;
pub mod roles;
pub mod scheduler;
pub mod session;
pub mod settings;
pub mod submissions;
pub mod users;
pub mod worker;

verus! {

/// An error that is reported to an external caller under a stable error code.
pub trait RequestError {
    /// The error code as a mathematical value.
    spec fn spec_error_code(&self) -> Seq<char>;

    /// Returns the stable, machine-readable code of this error.
    fn get_error_code(&self) -> (code: &str)
        ensures
            code@ == self.spec_error_code(),
    ;
}

} // verus!
