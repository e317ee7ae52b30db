//! Checking whether a user has access.

use vstd::prelude::*;
use crate::foundation::UserId;
use crate::membership::model::MembershipError;

verus! {

/// Query to check if a user has access.
#[derive(Clone, Debug)]
pub struct CheckAccessQuery {
    pub user_id: UserId,
}

/// Result of access check.
#[derive(Clone, Copy, Debug)]
pub struct CheckAccessResult {
    /// Whether the user has access.
    pub has_access: bool,
}

/// Decisions of the access check: the reader's answer, or its failure as
/// an infrastructure error.
pub struct CheckAccessHandler {}

impl CheckAccessHandler {
    /// Creates a new handler.
    pub fn new() -> (h: Self) {
        CheckAccessHandler {}
    }

    /// The result, from the reader's answer (or the text of its error).
    pub fn handle(&self, read: Result<bool, String>) -> (r: Result<CheckAccessResult, MembershipError>)
        ensures
            match read {
                Ok(b) => r matches Ok(res) && res.has_access == b,
                Err(m) => r matches Err(MembershipError::Infrastructure(m2)) && m2@ == m@,
            },
    {
        match read {
            Ok(has_access) => Ok(CheckAccessResult { has_access }),
            Err(m) => Err(MembershipError::Infrastructure(m)),
        }
    }
}

} // verus!
