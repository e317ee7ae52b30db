//! Reading the membership statistics for the admin dashboard.

use vstd::prelude::*;
use crate::membership::model::MembershipError;

verus! {

/// Query to get membership statistics (admin only).
#[derive(Clone, Copy, Debug)]
pub struct GetMembershipStatsQuery;

/// Decisions of the statistics query: the reader's statistics, or its
/// failure as an infrastructure error.
pub struct GetMembershipStatsHandler {}

impl GetMembershipStatsHandler {
    /// Creates a new handler.
    pub fn new() -> (h: Self) {
        GetMembershipStatsHandler {}
    }

    /// The result, from the reader's answer (or the text of its error).
    pub fn handle<S>(&self, read: Result<S, String>) -> (r: Result<S, MembershipError>)
        ensures
            match read {
                Ok(s) => r == Ok::<S, MembershipError>(s),
                Err(m) => r matches Err(MembershipError::Infrastructure(m2)) && m2@ == m@,
            },
    {
        match read {
            Ok(s) => Ok(s),
            Err(m) => Err(MembershipError::Infrastructure(m)),
        }
    }
}

} // verus!
