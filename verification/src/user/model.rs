//! The decision profile as the handlers see it.

use vstd::prelude::*;
use vstd::string::*;
use crate::foundation::{DecisionProfileId, DomainError, ErrorCode, Timestamp, UserId};

verus! {

/// What the user agreed to about their profile.
#[derive(Clone, Copy, Debug)]
pub struct ProfileConsent {
    /// Whether decision data may be collected into the profile.
    pub collection_enabled: bool,
    /// Whether completed decisions may be analysed into the profile.
    pub analysis_enabled: bool,
    /// Whether the coaching agent may read the profile.
    pub agent_access_enabled: bool,
    /// When the consent was given.
    pub consented_at: Timestamp,
}

/// A user's decision profile, as far as the handlers read it.
#[derive(Debug)]
pub struct DecisionProfile {
    /// The profile's identifier.
    pub id: DecisionProfileId,
    /// The owner.
    pub user_id: UserId,
    /// The owner's consent.
    pub consent: ProfileConsent,
}

impl Clone for DecisionProfile {
    fn clone(&self) -> (r: Self)
        ensures
            r == *self,
    {
        DecisionProfile { id: self.id, user_id: self.user_id.clone(), consent: self.consent }
    }
}

/// How satisfied a user is with a decision's outcome.
#[derive(Clone, Copy, Debug, PartialEq, Eq, Structural)]
pub enum SatisfactionLevel {
    VeryDissatisfied,
    Dissatisfied,
    Neutral,
    Satisfied,
    VerySatisfied,
}

/// The area of life a decision belongs to.
#[derive(Clone, Copy, Debug, PartialEq, Eq, Structural)]
pub enum DecisionDomain {
    Career,
    Financial,
    Family,
    Health,
    Relationship,
    Education,
    Business,
    Personal,
    Other,
}

/// The user's profile, looked up by owner; a missing one is a `NotFound`
/// error with the message "Profile not found".
pub fn require_profile(found: Result<Option<DecisionProfile>, DomainError>) -> (r: Result<DecisionProfile, DomainError>)
    ensures
        match found {
            Err(e) => r == Err::<DecisionProfile, DomainError>(e),
            Ok(None) => r matches Err(e) && e.code == ErrorCode::NotFound && e.message@ == "Profile not found"@,
            Ok(Some(p)) => r == Ok::<DecisionProfile, DomainError>(p),
        },
{
    match found {
        Err(e) => Err(e),
        Ok(None) => Err(DomainError::new(ErrorCode::NotFound, String::from_str("Profile not found"))),
        Ok(Some(p)) => Ok(p),
    }
}

} // verus!
