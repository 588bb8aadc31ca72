//! The authenticated session a request runs under.

use vstd::prelude::*;
use crate::users::FullUser;

verus! {

/// A session carries the user it authenticates. The request layer resolves a
/// session cookie to a user and hands the user in.
pub struct Session {
    pub user: FullUser,
}

} // verus!
