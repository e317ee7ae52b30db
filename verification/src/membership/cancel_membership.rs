//! Cancelling a membership. Cancellation takes effect at the end of the
//! current billing period; users keep access until then.

use vstd::prelude::*;
use crate::foundation::{EventId, Timestamp, UserId};
use crate::membership::model::{Membership, MembershipError, MembershipEvent};

verus! {

/// Command to cancel a membership.
#[derive(Clone, Debug)]
pub struct CancelMembershipCommand {
    pub user_id: UserId,
}

/// Result of successful membership cancellation.
#[derive(Clone, Debug)]
pub struct CancelMembershipResult {
    pub membership: Membership,
    pub event: MembershipEvent,
    /// When access will end (period_end).
    pub effective_at: Timestamp,
}

/// Decisions of the cancellation handler.
///
/// A run goes: the caller finds the user's membership, `membership_found`;
/// has the domain cancel it, `model::transition_applied`; updates it in the
/// repository; hands the answer to `cancellation_event` and publishes what it
/// gives; and returns `finish`.
pub struct CancelMembershipHandler {}

impl CancelMembershipHandler {
    /// Creates a new handler.
    pub fn new() -> (h: Self) {
        CancelMembershipHandler {}
    }

    /// The membership to cancel and when the cancellation takes effect:
    /// the end of its current period.
    pub fn membership_found(&self, cmd: &CancelMembershipCommand, found: Result<Option<Membership>, MembershipError>) -> (r: Result<(Membership, Timestamp), MembershipError>)
        ensures
            match found {
                Err(e) => r == Err::<(Membership, Timestamp), MembershipError>(e),
                Ok(None) => r matches Err(MembershipError::NotFoundForUser(u)) && u == cmd.user_id,
                Ok(Some(m)) => r matches Ok((m2, at)) && m2 == m && at == m.current_period_end,
            },
    {
        match found {
            Err(e) => Err(e),
            Ok(None) => Err(MembershipError::NotFoundForUser(cmd.user_id.clone())),
            Ok(Some(m)) => {
                let at = m.current_period_end;
                Ok((m, at))
            },
        }
    }

    /// The event to publish, once the repository answered the update of the
    /// cancelled membership: none unless it succeeded.
    pub fn cancellation_event(&self, cmd: &CancelMembershipCommand, membership: &Membership, effective_at: Timestamp, stored: Result<(), MembershipError>) -> (r: Result<MembershipEvent, MembershipError>)
        ensures
            match stored {
                Err(e) => r == Err::<MembershipEvent, MembershipError>(e),
                Ok(()) => r matches Ok(ev) && (ev matches MembershipEvent::Cancelled { membership_id, user_id, effective_at: at, .. }
                    && membership_id == membership.id && user_id == cmd.user_id && at == effective_at),
            },
    {
        match stored {
            Err(e) => Err(e),
            Ok(()) => Ok(MembershipEvent::Cancelled {
                event_id: EventId::new(),
                membership_id: membership.id,
                user_id: cmd.user_id.clone(),
                effective_at,
                occurred_at: Timestamp::now(),
            }),
        }
    }

    /// The handler's result.
    pub fn finish(&self, membership: Membership, event: MembershipEvent, effective_at: Timestamp) -> (r: CancelMembershipResult)
        ensures
            r.membership == membership,
            r.event == event,
            r.effective_at == effective_at,
    {
        CancelMembershipResult { membership, event, effective_at }
    }
}

} // verus!
