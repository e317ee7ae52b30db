//! Updating a profile from a completed decision, which takes the owner's
//! consent to analysis.

use vstd::prelude::*;
use vstd::string::*;
use crate::foundation::{DomainError, ErrorCode, UserId};
use crate::user::model::{require_profile, DecisionProfile};

verus! {

/// Command to update a profile from a completed decision; `D` is what the
/// profile analyzer reads of the decision.
#[derive(Clone, Debug)]
pub struct UpdateProfileFromDecisionCommand<D> {
    /// The owner of the profile.
    pub user_id: UserId,
    /// The decision's data for the analyzer.
    pub analysis_data: D,
}

/// Result of a profile update; `A` is what the profile analyzer reports.
#[derive(Clone, Debug)]
pub struct UpdateProfileFromDecisionResult<A> {
    /// The analyzer's report.
    pub analysis_result: A,
}

/// Decisions of the update-profile handler.
///
/// A run goes: the caller looks the user's profile up, `profile_found`;
/// `consent_checked`; has the analyzer update the profile from the decision;
/// updates the profile in the repository; `finish`.
pub struct UpdateProfileFromDecisionHandler {}

impl UpdateProfileFromDecisionHandler {
    /// Creates a new handler.
    pub fn new() -> (h: Self) {
        UpdateProfileFromDecisionHandler {}
    }

    /// The profile to update; a missing one is an error.
    pub fn profile_found(&self, found: Result<Option<DecisionProfile>, DomainError>) -> (r: Result<DecisionProfile, DomainError>)
        ensures
            match found {
                Err(e) => r == Err::<DecisionProfile, DomainError>(e),
                Ok(None) => r matches Err(e) && e.code == ErrorCode::NotFound && e.message@ == "Profile not found"@,
                Ok(Some(p)) => r == Ok::<DecisionProfile, DomainError>(p),
            },
    {
        require_profile(found)
    }

    /// Analysis needs the owner's consent to it.
    pub fn consent_checked(&self, profile: &DecisionProfile) -> (r: Result<(), DomainError>)
        ensures
            r is Ok <==> profile.consent.analysis_enabled,
            r matches Err(e) ==> e.code == ErrorCode::Forbidden && e.message@ == "Analysis consent not granted"@,
    {
        if !profile.consent.analysis_enabled {
            return Err(DomainError::new(ErrorCode::Forbidden, String::from_str("Analysis consent not granted")));
        }
        Ok(())
    }

    /// The handler's result, once the repository answered the update.
    pub fn finish<A>(&self, analysis_result: A, updated: Result<(), DomainError>) -> (r: Result<UpdateProfileFromDecisionResult<A>, DomainError>)
        ensures
            match updated {
                Err(e) => r == Err::<UpdateProfileFromDecisionResult<A>, DomainError>(e),
                Ok(()) => r == Ok::<UpdateProfileFromDecisionResult<A>, DomainError>(UpdateProfileFromDecisionResult { analysis_result }),
            },
    {
        match updated {
            Err(e) => Err(e),
            Ok(()) => Ok(UpdateProfileFromDecisionResult { analysis_result }),
        }
    }
}

} // verus!
