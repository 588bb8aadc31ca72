//! Server settings.

use vstd::prelude::*;

verus! {

/// The server-wide settings document. No setting is defined yet.
#[derive(Debug)]
pub struct ServerSettings {}

} // verus!
