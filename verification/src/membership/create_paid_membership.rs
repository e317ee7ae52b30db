//! Initiating a paid membership: a pending membership is created and the
//! user is sent to the payment provider's checkout. The membership is
//! activated when the webhook confirms payment.

use vstd::prelude::*;
use vstd::string::*;
use crate::foundation::{clone_opt, opt_str, EventId, MembershipId, Timestamp, UserId};
use crate::membership::model::{Membership, MembershipError, MembershipEvent, MembershipTier, PaymentError};

verus! {

/// Command to initiate a paid membership checkout.
#[derive(Clone, Debug)]
pub struct CreatePaidMembershipCommand {
    pub user_id: UserId,
    pub email: String,
    pub tier: MembershipTier,
    pub success_url: String,
    pub cancel_url: String,
    pub promo_code: Option<String>,
}

/// A checkout session at the payment provider.
#[derive(Clone, Debug)]
pub struct CheckoutSession {
    pub id: String,
    pub url: String,
    pub expires_at: i64,
}

/// A customer at the payment provider.
#[derive(Clone, Debug)]
pub struct Customer {
    pub id: String,
    pub email: String,
}

/// Request to create a customer at the payment provider.
#[derive(Clone, Debug)]
pub struct CreateCustomerRequest {
    pub user_id: UserId,
    pub email: String,
    pub name: Option<String>,
    pub idempotency_key: Option<String>,
}

/// Request to create a checkout session.
#[derive(Clone, Debug)]
pub struct CreateCheckoutRequest {
    pub user_id: UserId,
    pub email: String,
    pub tier: MembershipTier,
    pub success_url: String,
    pub cancel_url: String,
    pub promo_code: Option<String>,
}

/// What the domain creates a pending paid membership from.
#[derive(Clone, Debug)]
pub struct PaidMembershipDraft {
    pub membership_id: MembershipId,
    pub user_id: UserId,
    pub tier: MembershipTier,
    pub stripe_customer_id: String,
}

/// Result of successful checkout initiation.
#[derive(Clone, Debug)]
pub struct CreatePaidMembershipResult {
    pub membership: Membership,
    pub checkout_session: CheckoutSession,
    pub event: MembershipEvent,
}

/// Decisions of the paid membership handler.
///
/// A run goes: the caller looks up an existing membership,
/// `check_eligibility`; creates the customer, `customer_created`; has the
/// domain create the pending membership from the draft and saves it; hands
/// the answer to `checkout_request`; creates the checkout session,
/// `checkout_created`; publishes the event; `finish`.
pub struct CreatePaidMembershipHandler {}

impl CreatePaidMembershipHandler {
    /// Creates a new handler.
    pub fn new() -> (h: Self) {
        CreatePaidMembershipHandler {}
    }

    /// A user with a membership gets none more; the free tier goes through
    /// promo codes, not checkout. Otherwise: the customer to create, keyed
    /// for idempotency by the user.
    pub fn check_eligibility(&self, cmd: &CreatePaidMembershipCommand, existing: Result<Option<Membership>, MembershipError>) -> (r: Result<CreateCustomerRequest, MembershipError>)
        ensures
            match existing {
                Err(e) => r == Err::<CreateCustomerRequest, MembershipError>(e),
                Ok(Some(_)) => r matches Err(MembershipError::AlreadyExists(u)) && u == cmd.user_id,
                Ok(None) => if cmd.tier == MembershipTier::Free {
                    r matches Err(MembershipError::InvalidTier(m))
                        && m@ == "Cannot use checkout for free tier. Use promo code instead."@
                } else {
                    r matches Ok(req) && req.user_id == cmd.user_id && req.email@ == cmd.email@ && req.name is None
                        && opt_str(req.idempotency_key) == Some("customer-"@ + cmd.user_id.value@)
                },
            },
    {
        match existing {
            Err(e) => return Err(e),
            Ok(Some(_)) => return Err(MembershipError::AlreadyExists(cmd.user_id.clone())),
            Ok(None) => {},
        }
        if cmd.tier == MembershipTier::Free {
            return Err(MembershipError::InvalidTier(
                String::from_str("Cannot use checkout for free tier. Use promo code instead."),
            ));
        }
        Ok(CreateCustomerRequest {
            user_id: cmd.user_id.clone(),
            email: cmd.email.clone(),
            name: None,
            idempotency_key: Some(String::from_str("customer-").concat(cmd.user_id.value.as_str())),
        })
    }

    /// The pending membership to create for the new customer, under a fresh
    /// identifier; a failed customer creation is a payment failure.
    pub fn customer_created(&self, cmd: &CreatePaidMembershipCommand, created: Result<Customer, PaymentError>) -> (r: Result<PaidMembershipDraft, MembershipError>)
        ensures
            match created {
                Err(e) => r matches Err(MembershipError::PaymentFailed(m)) && m@ == e.message@,
                Ok(c) => r matches Ok(d) && d.user_id == cmd.user_id && d.tier == cmd.tier
                    && d.stripe_customer_id@ == c.id@,
            },
    {
        match created {
            Err(e) => Err(MembershipError::PaymentFailed(e.message)),
            Ok(c) => Ok(PaidMembershipDraft {
                membership_id: MembershipId::new(),
                user_id: cmd.user_id.clone(),
                tier: cmd.tier,
                stripe_customer_id: c.id,
            }),
        }
    }

    /// The checkout session to create, once the repository answered the save
    /// of the pending membership: none unless the save succeeded.
    pub fn checkout_request(&self, cmd: &CreatePaidMembershipCommand, saved: Result<(), MembershipError>) -> (r: Result<CreateCheckoutRequest, MembershipError>)
        ensures
            match saved {
                Err(e) => r == Err::<CreateCheckoutRequest, MembershipError>(e),
                Ok(()) => r matches Ok(req)
                    && req.user_id == cmd.user_id
                    && req.email@ == cmd.email@
                    && req.tier == cmd.tier
                    && req.success_url@ == cmd.success_url@
                    && req.cancel_url@ == cmd.cancel_url@
                    && opt_str(req.promo_code) == opt_str(cmd.promo_code),
            },
    {
        match saved {
            Err(e) => Err(e),
            Ok(()) => Ok(CreateCheckoutRequest {
                user_id: cmd.user_id.clone(),
                email: cmd.email.clone(),
                tier: cmd.tier,
                success_url: cmd.success_url.clone(),
                cancel_url: cmd.cancel_url.clone(),
                promo_code: clone_opt(&cmd.promo_code),
            }),
        }
    }

    /// The creation event to publish once the checkout session exists; a
    /// failed checkout creation is a payment failure.
    pub fn checkout_created(&self, cmd: &CreatePaidMembershipCommand, draft: &PaidMembershipDraft, created: Result<CheckoutSession, PaymentError>) -> (r: Result<(CheckoutSession, MembershipEvent), MembershipError>)
        ensures
            match created {
                Err(e) => r matches Err(MembershipError::PaymentFailed(m)) && m@ == e.message@,
                Ok(s) => r matches Ok((s2, MembershipEvent::Created { membership_id, user_id, tier, is_free, promo_code, .. }))
                    && s2 == s && membership_id == draft.membership_id && user_id == cmd.user_id && tier == cmd.tier
                    && !is_free && opt_str(promo_code) == opt_str(cmd.promo_code),
            },
    {
        match created {
            Err(e) => Err(MembershipError::PaymentFailed(e.message)),
            Ok(session) => Ok((
                session,
                MembershipEvent::Created {
                    event_id: EventId::new(),
                    membership_id: draft.membership_id,
                    user_id: cmd.user_id.clone(),
                    tier: cmd.tier,
                    is_free: false,
                    promo_code: clone_opt(&cmd.promo_code),
                    occurred_at: Timestamp::now(),
                },
            )),
        }
    }

    /// The handler's result.
    pub fn finish(&self, membership: Membership, checkout_session: CheckoutSession, event: MembershipEvent) -> (r: CreatePaidMembershipResult)
        ensures
            r.membership == membership,
            r.checkout_session == checkout_session,
            r.event == event,
    {
        CreatePaidMembershipResult { membership, checkout_session, event }
    }
}

} // verus!
