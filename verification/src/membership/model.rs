//! The membership data that the handlers read and hand on, and the ports'
//! payment-provider types.

use vstd::prelude::*;
use vstd::string::*;
use crate::foundation::{EventId, MembershipId, Timestamp, UserId};

verus! {

/// Membership tiers.
#[derive(Clone, Copy, Debug, PartialEq, Eq, Hash, Structural)]
pub enum MembershipTier {
    Free,
    Monthly,
    Annual,
}

impl MembershipTier {
    /// Whether the tier is billed yearly.
    pub open spec fn spec_is_annual(self) -> bool {
        self == MembershipTier::Annual
    }

    /// Whether the tier is billed yearly.
    pub fn is_annual(&self) -> (r: bool)
        ensures
            r == self.spec_is_annual(),
    {
        match self {
            MembershipTier::Annual => true,
            _ => false,
        }
    }

    /// Length in days of one billing period of the tier.
    pub open spec fn spec_period_days(self) -> i64 {
        if self.spec_is_annual() { 365 } else { 30 }
    }
}

/// Membership lifecycle status.
#[derive(Clone, Copy, Debug, PartialEq, Eq, Hash, Structural)]
pub enum MembershipStatus {
    Pending,
    Active,
    PastDue,
    Cancelled,
    Expired,
}

impl MembershipStatus {
    /// Name of the variant, as `{:?}` prints it.
    pub open spec fn spec_debug_name(self) -> Seq<char> {
        match self {
            MembershipStatus::Pending => "Pending"@,
            MembershipStatus::Active => "Active"@,
            MembershipStatus::PastDue => "PastDue"@,
            MembershipStatus::Cancelled => "Cancelled"@,
            MembershipStatus::Expired => "Expired"@,
        }
    }

    /// Name of the variant, as `{:?}` prints it.
    pub fn debug_name(&self) -> (name: String)
        ensures
            name@ == self.spec_debug_name(),
    {
        match self {
            MembershipStatus::Pending => String::from_str("Pending"),
            MembershipStatus::Active => String::from_str("Active"),
            MembershipStatus::PastDue => String::from_str("PastDue"),
            MembershipStatus::Cancelled => String::from_str("Cancelled"),
            MembershipStatus::Expired => String::from_str("Expired"),
        }
    }
}

/// A membership, as the handlers read it.
#[derive(Clone, Debug)]
pub struct Membership {
    pub id: MembershipId,
    pub user_id: UserId,
    pub tier: MembershipTier,
    pub status: MembershipStatus,
    pub current_period_start: Timestamp,
    pub current_period_end: Timestamp,
    pub stripe_customer_id: Option<String>,
    pub stripe_subscription_id: Option<String>,
    pub promo_code: Option<String>,
}

/// Why a membership expired.
#[derive(Clone, Copy, Debug, PartialEq, Eq, Structural)]
pub enum ExpiredReason {
    CancelledPeriodEnd,
    PaymentFailed,
}

/// Events of the membership lifecycle.
#[derive(Clone, Debug)]
pub enum MembershipEvent {
    Created {
        event_id: EventId,
        membership_id: MembershipId,
        user_id: UserId,
        tier: MembershipTier,
        is_free: bool,
        promo_code: Option<String>,
        occurred_at: Timestamp,
    },
    Activated {
        event_id: EventId,
        membership_id: MembershipId,
        user_id: UserId,
        tier: MembershipTier,
        period_start: Timestamp,
        period_end: Timestamp,
        occurred_at: Timestamp,
    },
    Renewed {
        event_id: EventId,
        membership_id: MembershipId,
        user_id: UserId,
        new_period_start: Timestamp,
        new_period_end: Timestamp,
        occurred_at: Timestamp,
    },
    PaymentRecovered {
        event_id: EventId,
        membership_id: MembershipId,
        user_id: UserId,
        occurred_at: Timestamp,
    },
    PaymentFailed {
        event_id: EventId,
        membership_id: MembershipId,
        user_id: UserId,
        attempt_count: u32,
        next_retry_at: Option<Timestamp>,
        occurred_at: Timestamp,
    },
    Cancelled {
        event_id: EventId,
        membership_id: MembershipId,
        user_id: UserId,
        effective_at: Timestamp,
        occurred_at: Timestamp,
    },
    Expired {
        event_id: EventId,
        membership_id: MembershipId,
        user_id: UserId,
        reason: ExpiredReason,
        occurred_at: Timestamp,
    },
}

/// Errors of the membership handlers.
#[derive(Clone, Debug)]
pub enum MembershipError {
    AlreadyExists(UserId),
    NotFoundForUser(UserId),
    InvalidTier(String),
    InvalidPromoCode { code: String, reason: String },
    PaymentFailed(String),
    InvalidState { current_state: String, reason: String },
    InvalidWebhookSignature,
    Infrastructure(String),
}

/// An error of the payment provider.
#[derive(Clone, Debug)]
pub struct PaymentError {
    pub message: String,
}

/// Maps the outcome of a membership state change made by the domain: a
/// refusal becomes `InvalidState`, naming the status before the change.
pub fn transition_applied(before: &Membership, applied: Result<Membership, String>) -> (r: Result<Membership, MembershipError>)
    ensures
        match applied {
            Ok(m) => r == Ok::<Membership, MembershipError>(m),
            Err(reason) => r matches Err(MembershipError::InvalidState { current_state, reason: why })
                && current_state@ == before.status.spec_debug_name() && why@ == reason@,
        },
{
    match applied {
        Ok(m) => Ok(m),
        Err(reason) => Err(MembershipError::InvalidState { current_state: before.status.debug_name(), reason }),
    }
}

} // verus!
