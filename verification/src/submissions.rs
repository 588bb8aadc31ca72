//! Beatmapset submissions.

use vstd::prelude::*;
use crate::entities::SubmissionModel;
use crate::users::{is_display_of, DisplayUser, FullUser};

verus! {

/// The client-facing view of a submission.
#[derive(Debug, PartialEq, Eq)]
pub struct DisplaySubmission {
    pub base: SubmissionModel,
    pub id: i32,
    pub submitter: DisplayUser,
}

/// A submission together with the user who submitted it.
#[derive(Debug, PartialEq, Eq)]
pub struct FullSubmission {
    pub base: SubmissionModel,
    pub submitter: FullUser,
}

impl FullSubmission {
    /// Converts the submission into its client-facing view, the submitter
    /// replaced by the submitter's own view.
    pub fn into_display(self) -> (d: DisplaySubmission)
        ensures
            d.base == self.base,
            d.id == self.base.id,
            is_display_of(d.submitter, self.submitter),
    {
        let FullSubmission { base, submitter } = self;
        let id = base.id;
        DisplaySubmission { base, id, submitter: submitter.into_display() }
    }
}

} // verus!
