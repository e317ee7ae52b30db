//! Recording how a decision turned out, in the owner's profile history.

use vstd::prelude::*;
use crate::foundation::{CycleId, DomainError, ErrorCode, UserId};
use crate::user::model::{require_profile, DecisionProfile, SatisfactionLevel};

verus! {

/// Command to record a decision outcome.
#[derive(Clone, Debug)]
pub struct RecordOutcomeCommand {
    /// The owner of the profile.
    pub user_id: UserId,
    /// The decision cycle whose outcome is recorded.
    pub cycle_id: CycleId,
    /// How satisfied the user is.
    pub satisfaction: SatisfactionLevel,
    /// What actually happened.
    pub actual_consequences: String,
    /// What came unexpected.
    pub surprises: Vec<String>,
    /// Whether the user would decide the same again.
    pub would_decide_same: bool,
}

/// Result of recording an outcome.
#[derive(Clone, Copy, Debug)]
pub struct RecordOutcomeResult {
    /// Whether the outcome was recorded.
    pub success: bool,
}

/// Decisions of the record-outcome handler.
///
/// A run goes: the caller looks the user's profile up, `profile_found`; has
/// the domain build the outcome record and add it to the profile's history;
/// updates the profile; `finish`. Errors of those steps are returned as they
/// are.
pub struct RecordOutcomeHandler {}

impl RecordOutcomeHandler {
    /// Creates a new handler.
    pub fn new() -> (h: Self) {
        RecordOutcomeHandler {}
    }

    /// The profile to record into; a missing one is an error.
    pub fn profile_found(&self, found: Result<Option<DecisionProfile>, DomainError>) -> (r: Result<DecisionProfile, DomainError>)
        ensures
            match found {
                Err(e) => r == Err::<DecisionProfile, DomainError>(e),
                Ok(None) => r matches Err(e) && e.code == ErrorCode::NotFound && e.message@ == "Profile not found"@,
                Ok(Some(p)) => r == Ok::<DecisionProfile, DomainError>(p),
            },
    {
        require_profile(found)
    }

    /// The handler's result, once the repository answered the update.
    pub fn finish(&self, updated: Result<(), DomainError>) -> (r: Result<RecordOutcomeResult, DomainError>)
        ensures
            match updated {
                Err(e) => r == Err::<RecordOutcomeResult, DomainError>(e),
                Ok(()) => r == Ok::<RecordOutcomeResult, DomainError>(RecordOutcomeResult { success: true }),
            },
    {
        match updated {
            Err(e) => Err(e),
            Ok(()) => Ok(RecordOutcomeResult { success: true }),
        }
    }
}

} // verus!
