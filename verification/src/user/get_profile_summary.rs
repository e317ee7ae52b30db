//! The query for a profile's summary, for display. The profile reader
//! answers it as it stands.

use vstd::prelude::*;
use crate::foundation::UserId;

verus! {

/// Query for the summary of a user's profile.
#[derive(Clone, Debug)]
pub struct GetProfileSummaryQuery {
    /// The owner of the profile.
    pub user_id: UserId,
}

/// Handler of the profile-summary query; the caller hands the query to the
/// profile reader.
pub struct GetProfileSummaryHandler {}

impl GetProfileSummaryHandler {
    /// Creates a new handler.
    pub fn new() -> (h: Self) {
        GetProfileSummaryHandler {}
    }
}

} // verus!
