//! Processing payment provider webhooks: checkout completions activate
//! memberships, paid invoices renew them (or recover past-due ones), failed
//! payments mark them past due, and deleted subscriptions expire them.

use vstd::prelude::*;
use vstd::string::*;
use crate::foundation::{clone_opt, opt_str, uuid_text, EventId, SECONDS_PER_DAY, Timestamp};
use crate::membership::model::{ExpiredReason, Membership, MembershipError, MembershipEvent, MembershipStatus, PaymentError};

verus! {

/// Command to handle a payment webhook.
#[derive(Clone, Debug)]
pub struct HandlePaymentWebhookCommand {
    /// Raw webhook payload.
    pub payload: Vec<u8>,
    /// Webhook signature header.
    pub signature: String,
}

/// Result of webhook processing.
#[derive(Clone, Debug)]
pub enum HandlePaymentWebhookResult {
    /// Checkout completed, membership activated.
    MembershipActivated { membership_id: String, user_id: String },
    /// Invoice paid, membership renewed.
    MembershipRenewed { membership_id: String, user_id: String },
    /// Payment failed, membership marked past due.
    PaymentFailed { membership_id: String, user_id: String, attempt_count: u32 },
    /// Subscription deleted, membership expired.
    MembershipExpired { membership_id: String, user_id: String },
    /// Event acknowledged but no action taken.
    Acknowledged,
    /// Event ignored (unknown or unsupported type).
    Ignored,
}

/// Status of a subscription at the payment provider.
#[derive(Clone, Copy, Debug, PartialEq, Eq, Structural)]
pub enum SubscriptionStatus {
    Active,
    PastDue,
    Canceled,
    Incomplete,
    Trialing,
    Unpaid,
}

/// Kinds of webhook event.
#[derive(Clone, Debug)]
pub enum WebhookEventType {
    CheckoutSessionCompleted,
    InvoicePaid,
    InvoicePaymentFailed,
    SubscriptionDeleted,
    SubscriptionUpdated,
    SubscriptionCreated,
    TrialWillEnd,
    Unknown(String),
}

/// Data carried by a webhook event.
#[derive(Clone, Debug)]
pub enum WebhookEventData {
    Checkout { session_id: String, customer_id: String, subscription_id: Option<String>, user_id: Option<String> },
    Invoice { invoice_id: String, customer_id: String, subscription_id: Option<String>, amount_paid: i64, currency: String },
    Subscription { subscription_id: String, customer_id: String, status: SubscriptionStatus, current_period_end: i64 },
    Raw { json: String },
}

/// A verified webhook event.
#[derive(Clone, Debug)]
pub struct WebhookEvent {
    pub id: String,
    pub event_type: WebhookEventType,
    pub data: WebhookEventData,
    pub created_at: i64,
}

/// How the membership an event is about is found.
#[derive(Clone, Debug)]
pub enum MembershipLookup {
    ByCustomer(String),
    BySubscription(String),
}

/// What an event does to its membership.
#[derive(Clone, Debug)]
pub enum WebhookAction {
    /// Activate, recording the subscription.
    Activate { subscription_id: Option<String> },
    /// Renew the period, or recover a past-due membership.
    Renew,
    /// Mark past due.
    MarkPastDue,
    /// Expire.
    Expire,
}

/// What a verified event leads to.
#[derive(Clone, Debug)]
pub enum WebhookPlan {
    /// Nothing more to do.
    Done(HandlePaymentWebhookResult),
    /// Find the membership, then act on it.
    Act(MembershipLookup, WebhookAction),
}

/// A change of membership state for the domain to make.
#[derive(Clone, Debug)]
pub enum MembershipTransition {
    Activate { now: Timestamp, period_end: Timestamp, subscription_id: Option<String> },
    Renew { now: Timestamp, period_end: Timestamp },
    RecoverPayment { period_end: Timestamp },
    MarkPastDue,
    Expire,
}

/// Attempt count recorded when a payment fails.
pub const FAILED_PAYMENT_ATTEMPT: u32 = 1;

/// Days until the payment provider retries a failed payment.
pub const PAYMENT_RETRY_DAYS: i64 = 3;

/// Decisions of the payment webhook handler.
///
/// A run goes: the caller verifies the signature and parses the event,
/// `route`; where an action follows, finds the membership by the lookup
/// given, `membership_found`; has the domain make the transition,
/// `model::transition_applied`; updates the membership; hands the answer to
/// `membership_event` and publishes what it gives; `finish`.
pub struct HandlePaymentWebhookHandler {}

impl HandlePaymentWebhookHandler {
    /// Creates a new handler.
    pub fn new() -> (h: Self) {
        HandlePaymentWebhookHandler {}
    }

    /// Routes a verified event; a failed verification is an invalid signature.
    pub fn route(&self, verified: Result<WebhookEvent, PaymentError>) -> (r: Result<WebhookPlan, MembershipError>)
        ensures
            match verified {
                Err(_) => r matches Err(MembershipError::InvalidWebhookSignature),
                Ok(event) => match event.event_type {
                    WebhookEventType::CheckoutSessionCompleted => match event.data {
                        WebhookEventData::Checkout { customer_id, subscription_id, .. } =>
                            r matches Ok(WebhookPlan::Act(MembershipLookup::ByCustomer(c), WebhookAction::Activate { subscription_id: s }))
                                && c@ == customer_id@ && opt_str(s) == opt_str(subscription_id),
                        _ => r matches Err(MembershipError::Infrastructure(m))
                            && m@ == "Unexpected webhook data type for checkout.session.completed"@,
                    },
                    WebhookEventType::InvoicePaid => match event.data {
                        WebhookEventData::Invoice { subscription_id: Some(s), .. } =>
                            r matches Ok(WebhookPlan::Act(MembershipLookup::BySubscription(s2), WebhookAction::Renew)) && s2@ == s@,
                        WebhookEventData::Invoice { subscription_id: None, .. } =>
                            r matches Err(MembershipError::Infrastructure(m)) && m@ == "Invoice has no subscription ID"@,
                        _ => r matches Err(MembershipError::Infrastructure(m))
                            && m@ == "Unexpected webhook data type for invoice.paid"@,
                    },
                    WebhookEventType::InvoicePaymentFailed => match event.data {
                        WebhookEventData::Invoice { subscription_id: Some(s), .. } =>
                            r matches Ok(WebhookPlan::Act(MembershipLookup::BySubscription(s2), WebhookAction::MarkPastDue)) && s2@ == s@,
                        WebhookEventData::Invoice { subscription_id: None, .. } =>
                            r matches Err(MembershipError::Infrastructure(m)) && m@ == "Invoice has no subscription ID"@,
                        _ => r matches Err(MembershipError::Infrastructure(m))
                            && m@ == "Unexpected webhook data type for invoice.payment_failed"@,
                    },
                    WebhookEventType::SubscriptionDeleted => match event.data {
                        WebhookEventData::Subscription { subscription_id, .. } =>
                            r matches Ok(WebhookPlan::Act(MembershipLookup::BySubscription(s2), WebhookAction::Expire))
                                && s2@ == subscription_id@,
                        _ => r matches Err(MembershipError::Infrastructure(m))
                            && m@ == "Unexpected webhook data type for subscription.deleted"@,
                    },
                    WebhookEventType::SubscriptionUpdated => r matches Ok(WebhookPlan::Done(HandlePaymentWebhookResult::Acknowledged)),
                    WebhookEventType::SubscriptionCreated => r matches Ok(WebhookPlan::Done(HandlePaymentWebhookResult::Acknowledged)),
                    WebhookEventType::TrialWillEnd => r matches Ok(WebhookPlan::Done(HandlePaymentWebhookResult::Acknowledged)),
                    WebhookEventType::Unknown(_) => r matches Ok(WebhookPlan::Done(HandlePaymentWebhookResult::Ignored)),
                },
            },
    {
        let event = match verified {
            Err(_) => return Err(MembershipError::InvalidWebhookSignature),
            Ok(e) => e,
        };
        match event.event_type {
            WebhookEventType::CheckoutSessionCompleted => match event.data {
                WebhookEventData::Checkout { customer_id, subscription_id, .. } =>
                    Ok(WebhookPlan::Act(MembershipLookup::ByCustomer(customer_id), WebhookAction::Activate { subscription_id })),
                _ => Err(MembershipError::Infrastructure(String::from_str("Unexpected webhook data type for checkout.session.completed"))),
            },
            WebhookEventType::InvoicePaid => match event.data {
                WebhookEventData::Invoice { subscription_id: Some(s), .. } =>
                    Ok(WebhookPlan::Act(MembershipLookup::BySubscription(s), WebhookAction::Renew)),
                WebhookEventData::Invoice { subscription_id: None, .. } =>
                    Err(MembershipError::Infrastructure(String::from_str("Invoice has no subscription ID"))),
                _ => Err(MembershipError::Infrastructure(String::from_str("Unexpected webhook data type for invoice.paid"))),
            },
            WebhookEventType::InvoicePaymentFailed => match event.data {
                WebhookEventData::Invoice { subscription_id: Some(s), .. } =>
                    Ok(WebhookPlan::Act(MembershipLookup::BySubscription(s), WebhookAction::MarkPastDue)),
                WebhookEventData::Invoice { subscription_id: None, .. } =>
                    Err(MembershipError::Infrastructure(String::from_str("Invoice has no subscription ID"))),
                _ => Err(MembershipError::Infrastructure(String::from_str("Unexpected webhook data type for invoice.payment_failed"))),
            },
            WebhookEventType::SubscriptionDeleted => match event.data {
                WebhookEventData::Subscription { subscription_id, .. } =>
                    Ok(WebhookPlan::Act(MembershipLookup::BySubscription(subscription_id), WebhookAction::Expire)),
                _ => Err(MembershipError::Infrastructure(String::from_str("Unexpected webhook data type for subscription.deleted"))),
            },
            WebhookEventType::SubscriptionUpdated => Ok(WebhookPlan::Done(HandlePaymentWebhookResult::Acknowledged)),
            WebhookEventType::SubscriptionCreated => Ok(WebhookPlan::Done(HandlePaymentWebhookResult::Acknowledged)),
            WebhookEventType::TrialWillEnd => Ok(WebhookPlan::Done(HandlePaymentWebhookResult::Acknowledged)),
            WebhookEventType::Unknown(_) => Ok(WebhookPlan::Done(HandlePaymentWebhookResult::Ignored)),
        }
    }

    /// The membership found by the lookup, and the transition to make. The
    /// new period runs from `now` for 365 days on an annual tier and 30
    /// otherwise; a paid invoice recovers a past-due membership and renews
    /// any other.
    pub fn membership_found(&self, lookup: &MembershipLookup, action: &WebhookAction, found: Result<Option<Membership>, MembershipError>, now: Timestamp) -> (r: Result<(Membership, MembershipTransition), MembershipError>)
        requires
            -9_000_000_000_000_000_000 <= now.secs <= 9_000_000_000_000_000_000,
        ensures
            match found {
                Err(e) => r == Err::<(Membership, MembershipTransition), MembershipError>(e),
                Ok(None) => r matches Err(MembershipError::Infrastructure(m)) && m@ == (match lookup {
                    MembershipLookup::ByCustomer(c) => "No membership found for customer "@ + c@,
                    MembershipLookup::BySubscription(s) => "No membership found for subscription "@ + s@,
                }),
                Ok(Some(m)) => r matches Ok((m2, t)) && m2 == m && {
                    let period_end = now.secs + m.tier.spec_period_days() * SECONDS_PER_DAY;
                    match action {
                        WebhookAction::Activate { subscription_id } => t matches MembershipTransition::Activate { now: n, period_end: p, subscription_id: s }
                            && n == now && p.secs == period_end && opt_str(s) == opt_str(*subscription_id),
                        WebhookAction::Renew => if m.status == MembershipStatus::PastDue {
                            t matches MembershipTransition::RecoverPayment { period_end: p } && p.secs == period_end
                        } else {
                            t matches MembershipTransition::Renew { now: n, period_end: p } && n == now && p.secs == period_end
                        },
                        WebhookAction::MarkPastDue => t is MarkPastDue,
                        WebhookAction::Expire => t is Expire,
                    }
                },
            },
    {
        let membership = match found {
            Err(e) => return Err(e),
            Ok(None) => {
                let text = match lookup {
                    MembershipLookup::ByCustomer(c) => String::from_str("No membership found for customer ").concat(c.as_str()),
                    MembershipLookup::BySubscription(s) => String::from_str("No membership found for subscription ").concat(s.as_str()),
                };
                return Err(MembershipError::Infrastructure(text));
            },
            Ok(Some(m)) => m,
        };
        let days: i64 = if membership.tier.is_annual() { 365 } else { 30 };
        let period_end = now.add_days(days);
        let t = match action {
            WebhookAction::Activate { subscription_id } => MembershipTransition::Activate {
                now,
                period_end,
                subscription_id: clone_opt(subscription_id),
            },
            WebhookAction::Renew => if membership.status == MembershipStatus::PastDue {
                MembershipTransition::RecoverPayment { period_end }
            } else {
                MembershipTransition::Renew { now, period_end }
            },
            WebhookAction::MarkPastDue => MembershipTransition::MarkPastDue,
            WebhookAction::Expire => MembershipTransition::Expire,
        };
        Ok((membership, t))
    }

    /// The event to publish, once the repository answered the update of the
    /// changed membership: none unless it succeeded.
    pub fn membership_event(&self, transition: &MembershipTransition, membership: &Membership, now: Timestamp, stored: Result<(), MembershipError>) -> (r: Result<MembershipEvent, MembershipError>)
        requires
            -9_000_000_000_000_000_000 <= now.secs <= 9_000_000_000_000_000_000,
        ensures
            match stored {
                Err(err) => r == Err::<MembershipEvent, MembershipError>(err),
                Ok(()) => r matches Ok(e) && match transition {
                    MembershipTransition::Activate { now: n, period_end, .. } => e matches MembershipEvent::Activated {
                        membership_id, user_id, tier, period_start, period_end: p, occurred_at, ..
                    } && membership_id == membership.id && user_id == membership.user_id && tier == membership.tier
                        && period_start == *n && p == *period_end && occurred_at == *n,
                    MembershipTransition::Renew { now: n, period_end } => e matches MembershipEvent::Renewed {
                        membership_id, user_id, new_period_start, new_period_end, occurred_at, ..
                    } && membership_id == membership.id && user_id == membership.user_id
                        && new_period_start == *n && new_period_end == *period_end && occurred_at == *n,
                    MembershipTransition::RecoverPayment { .. } => e matches MembershipEvent::PaymentRecovered {
                        membership_id, user_id, occurred_at, ..
                    } && membership_id == membership.id && user_id == membership.user_id && occurred_at == now,
                    MembershipTransition::MarkPastDue => e matches MembershipEvent::PaymentFailed {
                        membership_id, user_id, attempt_count, next_retry_at, occurred_at, ..
                    } && membership_id == membership.id && user_id == membership.user_id
                        && attempt_count == FAILED_PAYMENT_ATTEMPT && occurred_at == now
                        && next_retry_at == Some(Timestamp { secs: (now.secs + PAYMENT_RETRY_DAYS * SECONDS_PER_DAY) as i64 }),
                    MembershipTransition::Expire => e matches MembershipEvent::Expired {
                        membership_id, user_id, reason, occurred_at, ..
                    } && membership_id == membership.id && user_id == membership.user_id
                        && reason == ExpiredReason::CancelledPeriodEnd && occurred_at == now,
                },
            },
    {
        if let Err(err) = stored {
            return Err(err);
        }
        let e = match transition {
            MembershipTransition::Activate { now: n, period_end, .. } => MembershipEvent::Activated {
                event_id: EventId::new(),
                membership_id: membership.id,
                user_id: membership.user_id.clone(),
                tier: membership.tier,
                period_start: *n,
                period_end: *period_end,
                occurred_at: *n,
            },
            MembershipTransition::Renew { now: n, period_end } => MembershipEvent::Renewed {
                event_id: EventId::new(),
                membership_id: membership.id,
                user_id: membership.user_id.clone(),
                new_period_start: *n,
                new_period_end: *period_end,
                occurred_at: *n,
            },
            MembershipTransition::RecoverPayment { .. } => MembershipEvent::PaymentRecovered {
                event_id: EventId::new(),
                membership_id: membership.id,
                user_id: membership.user_id.clone(),
                occurred_at: now,
            },
            MembershipTransition::MarkPastDue => MembershipEvent::PaymentFailed {
                event_id: EventId::new(),
                membership_id: membership.id,
                user_id: membership.user_id.clone(),
                attempt_count: FAILED_PAYMENT_ATTEMPT,
                next_retry_at: Some(now.add_days(PAYMENT_RETRY_DAYS)),
                occurred_at: now,
            },
            MembershipTransition::Expire => MembershipEvent::Expired {
                event_id: EventId::new(),
                membership_id: membership.id,
                user_id: membership.user_id.clone(),
                reason: ExpiredReason::CancelledPeriodEnd,
                occurred_at: now,
            },
        };
        Ok(e)
    }

    /// The handler's result once the event was published: renewals and
    /// recoveries both report a renewal.
    pub fn finish(&self, transition: &MembershipTransition, membership: &Membership) -> (r: HandlePaymentWebhookResult)
        ensures
            match transition {
                MembershipTransition::Activate { .. } => r matches HandlePaymentWebhookResult::MembershipActivated { membership_id, user_id }
                    && membership_id@ == uuid_text(membership.id.value) && user_id@ == membership.user_id.value@,
                MembershipTransition::Renew { .. } => r matches HandlePaymentWebhookResult::MembershipRenewed { membership_id, user_id }
                    && membership_id@ == uuid_text(membership.id.value) && user_id@ == membership.user_id.value@,
                MembershipTransition::RecoverPayment { .. } => r matches HandlePaymentWebhookResult::MembershipRenewed { membership_id, user_id }
                    && membership_id@ == uuid_text(membership.id.value) && user_id@ == membership.user_id.value@,
                MembershipTransition::MarkPastDue => r matches HandlePaymentWebhookResult::PaymentFailed { membership_id, user_id, attempt_count }
                    && membership_id@ == uuid_text(membership.id.value) && user_id@ == membership.user_id.value@
                    && attempt_count == FAILED_PAYMENT_ATTEMPT,
                MembershipTransition::Expire => r matches HandlePaymentWebhookResult::MembershipExpired { membership_id, user_id }
                    && membership_id@ == uuid_text(membership.id.value) && user_id@ == membership.user_id.value@,
            },
    {
        let membership_id = membership.id.to_string();
        let user_id = membership.user_id.to_string();
        match transition {
            MembershipTransition::Activate { .. } => HandlePaymentWebhookResult::MembershipActivated { membership_id, user_id },
            MembershipTransition::Renew { .. } => HandlePaymentWebhookResult::MembershipRenewed { membership_id, user_id },
            MembershipTransition::RecoverPayment { .. } => HandlePaymentWebhookResult::MembershipRenewed { membership_id, user_id },
            MembershipTransition::MarkPastDue => HandlePaymentWebhookResult::PaymentFailed {
                membership_id,
                user_id,
                attempt_count: FAILED_PAYMENT_ATTEMPT,
            },
            MembershipTransition::Expire => HandlePaymentWebhookResult::MembershipExpired { membership_id, user_id },
        }
    }
}

} // verus!
