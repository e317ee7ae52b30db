//! Creating a free membership with a promo code.

use vstd::prelude::*;
use vstd::string::*;
use crate::foundation::{opt_str, EventId, MembershipId, SECONDS_PER_DAY, Timestamp, UserId};
use crate::membership::model::{Membership, MembershipError, MembershipEvent, MembershipTier};

verus! {

/// Command to create a free membership using a promo code.
#[derive(Clone, Debug)]
pub struct CreateFreeMembershipCommand {
    pub user_id: UserId,
    pub promo_code: String,
}

/// A promo code whose format the domain accepted.
#[derive(Clone, Debug)]
pub struct PromoCode {
    pub value: String,
}

/// Why the validation service refused a promo code: its message for users.
#[derive(Clone, Debug)]
pub struct PromoCodeInvalidReason {
    pub message: String,
}

impl PromoCodeInvalidReason {
    /// The message shown to users.
    pub fn user_message(&self) -> (m: String)
        ensures
            m@ == self.message@,
    {
        self.message.clone()
    }
}

/// Answer of the promo code validation service.
#[derive(Clone, Debug)]
pub enum PromoCodeValidation {
    Valid { duration_days: u32, tier: MembershipTier, campaign: String },
    Invalid(PromoCodeInvalidReason),
}

/// What the domain creates a free membership from.
#[derive(Clone, Debug)]
pub struct FreeMembershipDraft {
    pub membership_id: MembershipId,
    pub user_id: UserId,
    pub tier: MembershipTier,
    pub promo_code: String,
    pub period_start: Timestamp,
    pub period_end: Timestamp,
}

/// Result of successful free membership creation.
#[derive(Clone, Debug)]
pub struct CreateFreeMembershipResult {
    pub membership: Membership,
    pub event: MembershipEvent,
}

/// Decisions of the free membership handler.
///
/// A run goes: the caller looks up an existing membership,
/// `check_eligibility`; has the domain parse the promo code,
/// `promo_code_parsed`; asks the validation service, `promo_code_validated`;
/// has the domain create the membership from the draft and saves it; records
/// the redemption; hands the answers to `creation_event` and publishes what
/// it gives; `finish`.
pub struct CreateFreeMembershipHandler {}

impl CreateFreeMembershipHandler {
    /// Creates a new handler.
    pub fn new() -> (h: Self) {
        CreateFreeMembershipHandler {}
    }

    /// A user with a membership gets none more.
    pub fn check_eligibility(&self, cmd: &CreateFreeMembershipCommand, existing: Result<Option<Membership>, MembershipError>) -> (r: Result<(), MembershipError>)
        ensures
            match existing {
                Err(e) => r == Err::<(), MembershipError>(e),
                Ok(Some(_)) => r matches Err(MembershipError::AlreadyExists(u)) && u == cmd.user_id,
                Ok(None) => r is Ok,
            },
    {
        match existing {
            Err(e) => Err(e),
            Ok(Some(_)) => Err(MembershipError::AlreadyExists(cmd.user_id.clone())),
            Ok(None) => Ok(()),
        }
    }

    /// A code of a format the domain refused is an invalid promo code.
    pub fn promo_code_parsed(&self, cmd: &CreateFreeMembershipCommand, parsed: Result<PromoCode, String>) -> (r: Result<PromoCode, MembershipError>)
        ensures
            match parsed {
                Ok(p) => r == Ok::<PromoCode, MembershipError>(p),
                Err(why) => r matches Err(MembershipError::InvalidPromoCode { code, reason })
                    && code@ == cmd.promo_code@ && reason@ == why@,
            },
    {
        match parsed {
            Ok(p) => Ok(p),
            Err(why) => Err(MembershipError::InvalidPromoCode { code: cmd.promo_code.clone(), reason: why }),
        }
    }

    /// The membership to create for a valid code: its tier, and a period
    /// from `now` for the code's number of days, under a fresh identifier.
    /// A refused code is an invalid promo code, with the service's message.
    pub fn promo_code_validated(&self, cmd: &CreateFreeMembershipCommand, validated: Result<PromoCodeValidation, MembershipError>, now: Timestamp) -> (r: Result<FreeMembershipDraft, MembershipError>)
        requires
            -9_000_000_000_000_000_000 <= now.secs <= 9_000_000_000_000_000_000,
        ensures
            match validated {
                Err(e) => r == Err::<FreeMembershipDraft, MembershipError>(e),
                Ok(PromoCodeValidation::Invalid(reason)) => r matches Err(MembershipError::InvalidPromoCode { code, reason: why })
                    && code@ == cmd.promo_code@ && why@ == reason.message@,
                Ok(PromoCodeValidation::Valid { duration_days, tier, .. }) => r matches Ok(d)
                    && d.user_id == cmd.user_id && d.tier == tier && d.promo_code@ == cmd.promo_code@
                    && d.period_start == now && d.period_end.secs == now.secs + duration_days * SECONDS_PER_DAY,
            },
    {
        match validated {
            Err(e) => Err(e),
            Ok(PromoCodeValidation::Invalid(reason)) => Err(MembershipError::InvalidPromoCode {
                code: cmd.promo_code.clone(),
                reason: reason.user_message(),
            }),
            Ok(PromoCodeValidation::Valid { duration_days, tier, .. }) => Ok(FreeMembershipDraft {
                membership_id: MembershipId::new(),
                user_id: cmd.user_id.clone(),
                tier,
                promo_code: cmd.promo_code.clone(),
                period_start: now,
                period_end: now.add_days(duration_days as i64),
            }),
        }
    }

    /// The creation event to publish, once the membership was saved and the
    /// promo code's redemption recorded (`stored` carries the first failure of
    /// the two): a free membership with its promo code, and none unless both
    /// succeeded.
    pub fn creation_event(&self, cmd: &CreateFreeMembershipCommand, draft: &FreeMembershipDraft, stored: Result<(), MembershipError>) -> (r: Result<MembershipEvent, MembershipError>)
        ensures
            match stored {
                Err(e) => r == Err::<MembershipEvent, MembershipError>(e),
                Ok(()) => r matches Ok(ev) && (ev matches MembershipEvent::Created { membership_id, user_id, tier, is_free, promo_code, occurred_at, .. }
                    && membership_id == draft.membership_id && user_id == cmd.user_id && tier == draft.tier && is_free
                    && opt_str(promo_code) == Some(cmd.promo_code@) && occurred_at == draft.period_start),
            },
    {
        match stored {
            Err(e) => Err(e),
            Ok(()) => Ok(MembershipEvent::Created {
                event_id: EventId::new(),
                membership_id: draft.membership_id,
                user_id: cmd.user_id.clone(),
                tier: draft.tier,
                is_free: true,
                promo_code: Some(cmd.promo_code.clone()),
                occurred_at: draft.period_start,
            }),
        }
    }

    /// The handler's result.
    pub fn finish(&self, membership: Membership, event: MembershipEvent) -> (r: CreateFreeMembershipResult)
        ensures
            r.membership == membership,
            r.event == event,
    {
        CreateFreeMembershipResult { membership, event }
    }
}

} // verus!
