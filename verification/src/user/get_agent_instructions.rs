//! The query for the personalisation instructions that the coaching agent
//! reads from a profile. The profile reader answers it as it stands.

use vstd::prelude::*;
use crate::foundation::UserId;
use crate::user::model::DecisionDomain;

verus! {

/// Query for the agent instructions of a user's profile, optionally for one
/// area of decisions.
#[derive(Clone, Debug)]
pub struct GetAgentInstructionsQuery {
    /// The owner of the profile.
    pub user_id: UserId,
    /// The area of decisions, if the instructions are for one.
    pub domain: Option<DecisionDomain>,
}

/// Handler of the agent-instructions query; the caller hands the query to
/// the profile reader.
pub struct GetAgentInstructionsHandler {}

impl GetAgentInstructionsHandler {
    /// Creates a new handler.
    pub fn new() -> (h: Self) {
        GetAgentInstructionsHandler {}
    }
}

} // verus!
