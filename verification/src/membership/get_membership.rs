//! Reading a user's membership.

use vstd::prelude::*;
use crate::foundation::UserId;
use crate::membership::model::MembershipError;

verus! {

/// Query to get a user's membership.
#[derive(Clone, Debug)]
pub struct GetMembershipQuery {
    pub user_id: UserId,
}

/// Decisions of the membership query: the reader's view (none when the user
/// has no membership), or its failure as an infrastructure error.
pub struct GetMembershipHandler {}

impl GetMembershipHandler {
    /// Creates a new handler.
    pub fn new() -> (h: Self) {
        GetMembershipHandler {}
    }

    /// The result, from the reader's answer (or the text of its error).
    pub fn handle<V>(&self, read: Result<Option<V>, String>) -> (r: Result<Option<V>, MembershipError>)
        ensures
            match read {
                Ok(v) => r == Ok::<Option<V>, MembershipError>(v),
                Err(m) => r matches Err(MembershipError::Infrastructure(m2)) && m2@ == m@,
            },
    {
        match read {
            Ok(v) => Ok(v),
            Err(m) => Err(MembershipError::Infrastructure(m)),
        }
    }
}

} // verus!
