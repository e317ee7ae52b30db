//! Deleting a decision profile, which takes an exact confirmation phrase.

use vstd::prelude::*;
use vstd::string::*;
use crate::foundation::{DecisionProfileId, DomainError, ErrorCode, UserId};
use crate::user::model::{require_profile, DecisionProfile};

verus! {

/// Command to delete a decision profile.
#[derive(Clone, Debug)]
pub struct DeleteProfileCommand {
    /// The owner of the profile.
    pub user_id: UserId,
    /// The confirmation phrase the user typed.
    pub confirmation: String,
}

/// The phrase a deletion must be confirmed with.
pub open spec fn confirmation_phrase() -> Seq<char> {
    "DELETE MY PROFILE"@
}

/// Result of profile deletion.
#[derive(Clone, Copy, Debug)]
pub struct DeleteProfileResult {
    /// The identifier of the deleted profile.
    pub deleted_profile_id: DecisionProfileId,
}

/// Decisions of the delete-profile handler.
///
/// A run goes: `confirmation_checked`; the caller looks the user's profile
/// up, `profile_found`; deletes it by its identifier; `finish`.
pub struct DeleteProfileHandler {}

impl DeleteProfileHandler {
    /// Creates a new handler.
    pub fn new() -> (h: Self) {
        DeleteProfileHandler {}
    }

    /// The deletion must be confirmed with exactly the confirmation phrase.
    pub fn confirmation_checked(&self, cmd: &DeleteProfileCommand) -> (r: Result<(), DomainError>)
        ensures
            r is Ok <==> cmd.confirmation@ == confirmation_phrase(),
            r matches Err(e) ==> e.code == ErrorCode::ValidationFailed
                && e.message@ == "Confirmation string must be exactly 'DELETE MY PROFILE'"@,
    {
        let phrase = String::from_str("DELETE MY PROFILE");
        if cmd.confirmation != phrase {
            return Err(DomainError::validation("confirmation", "Confirmation string must be exactly 'DELETE MY PROFILE'"));
        }
        Ok(())
    }

    /// The profile to delete; a missing one is an error.
    pub fn profile_found(&self, found: Result<Option<DecisionProfile>, DomainError>) -> (r: Result<DecisionProfile, DomainError>)
        ensures
            match found {
                Err(e) => r == Err::<DecisionProfile, DomainError>(e),
                Ok(None) => r matches Err(e) && e.code == ErrorCode::NotFound && e.message@ == "Profile not found"@,
                Ok(Some(p)) => r == Ok::<DecisionProfile, DomainError>(p),
            },
    {
        require_profile(found)
    }

    /// The handler's result, once the repository answered the deletion.
    pub fn finish(&self, profile_id: DecisionProfileId, deleted: Result<(), DomainError>) -> (r: Result<DeleteProfileResult, DomainError>)
        ensures
            match deleted {
                Err(e) => r == Err::<DeleteProfileResult, DomainError>(e),
                Ok(()) => r == Ok::<DeleteProfileResult, DomainError>(DeleteProfileResult { deleted_profile_id: profile_id }),
            },
    {
        match deleted {
            Err(e) => Err(e),
            Ok(()) => Ok(DeleteProfileResult { deleted_profile_id: profile_id }),
        }
    }
}

} // verus!
