//! Creating a decision profile: only with the user's consent to collection,
//! and only one per user.

use vstd::prelude::*;
use vstd::string::*;
use crate::foundation::{DecisionProfileId, DomainError, ErrorCode, UserId};
use crate::user::model::{DecisionProfile, ProfileConsent};

verus! {

/// Command to create a new decision profile.
#[derive(Clone, Debug)]
pub struct CreateProfileCommand {
    /// The owner of the new profile.
    pub user_id: UserId,
    /// The owner's consent.
    pub consent: ProfileConsent,
}

/// Result of successful profile creation.
#[derive(Clone, Copy, Debug)]
pub struct CreateProfileResult {
    /// The new profile's identifier.
    pub profile_id: DecisionProfileId,
}

/// Decisions of the create-profile handler.
///
/// A run goes: `consent_checked`; the caller looks the user's profile up,
/// `existing_checked`; `new_profile`; stores it; `finish`.
pub struct CreateProfileHandler {}

impl CreateProfileHandler {
    /// Creates a new handler.
    pub fn new() -> (h: Self) {
        CreateProfileHandler {}
    }

    /// A profile needs the consent to collection.
    pub fn consent_checked(&self, cmd: &CreateProfileCommand) -> (r: Result<(), DomainError>)
        ensures
            r is Ok <==> cmd.consent.collection_enabled,
            r matches Err(e) ==> e.code == ErrorCode::ValidationFailed
                && e.message@ == "Consent required for profile creation"@,
    {
        if !cmd.consent.collection_enabled {
            return Err(DomainError::validation("consent", "Consent required for profile creation"));
        }
        Ok(())
    }

    /// A user has at most one profile: an existing one is a conflict.
    pub fn existing_checked(&self, found: Result<Option<DecisionProfile>, DomainError>) -> (r: Result<(), DomainError>)
        ensures
            match found {
                Err(e) => r == Err::<(), DomainError>(e),
                Ok(Some(_)) => r matches Err(e) && e.code == ErrorCode::Conflict
                    && e.message@ == "Profile already exists for this user"@,
                Ok(None) => r is Ok,
            },
    {
        match found {
            Err(e) => Err(e),
            Ok(Some(_)) => Err(DomainError::new(ErrorCode::Conflict, String::from_str("Profile already exists for this user"))),
            Ok(None) => Ok(()),
        }
    }

    /// The new, empty profile of the command's user, under a fresh identifier.
    pub fn new_profile(&self, cmd: &CreateProfileCommand) -> (p: DecisionProfile)
        ensures
            p.user_id == cmd.user_id,
            p.consent == cmd.consent,
    {
        DecisionProfile { id: DecisionProfileId::new(), user_id: cmd.user_id.clone(), consent: cmd.consent }
    }

    /// The handler's result, once the repository answered the store.
    pub fn finish(&self, profile_id: DecisionProfileId, created: Result<(), DomainError>) -> (r: Result<CreateProfileResult, DomainError>)
        ensures
            match created {
                Err(e) => r == Err::<CreateProfileResult, DomainError>(e),
                Ok(()) => r == Ok::<CreateProfileResult, DomainError>(CreateProfileResult { profile_id }),
            },
    {
        match created {
            Err(e) => Err(e),
            Ok(()) => Ok(CreateProfileResult { profile_id }),
        }
    }
}

} // verus!
