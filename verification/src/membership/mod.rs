//! Membership handlers: free memberships by promo code, paid memberships by
//! checkout, cancellation, payment webhooks, and the membership queries.

pub mod cancel_membership;
pub mod check_access;
pub mod create_free_membership;
pub mod create_paid_membership;
pub mod get_membership;
pub mod get_membership_stats;
pub mod handle_payment_webhook;
pub mod model;
