//! Tracking the cycles of a session: on each `cycle.created` event the
//! session adds the cycle to its list and a `CycleAddedToSession` event is
//! published. This keeps the Session and Cycle modules eventually
//! consistent without coupling them.

use vstd::prelude::*;
use vstd::string::*;
use crate::foundation::{opt_str, uuid_text, CycleId, DomainError, ErrorCode, EventId, Publication, SessionId, Timestamp};
use crate::session::model::Session;

verus! {

/// External CycleCreated event from the Cycle module: the payload of
/// `cycle.created` events.
#[derive(Clone, Copy, Debug)]
pub struct CycleCreated {
    /// The cycle that was created.
    pub cycle_id: CycleId,
    /// The session this cycle belongs to.
    pub session_id: SessionId,
    /// Parent cycle if this is a branch.
    pub parent_cycle_id: Option<CycleId>,
    /// When the cycle was created.
    pub created_at: Timestamp,
}

/// Event published when a cycle joins a session.
#[derive(Clone, Copy, Debug)]
pub struct CycleAddedToSession {
    pub event_id: EventId,
    pub session_id: SessionId,
    pub cycle_id: CycleId,
    pub is_root_cycle: bool,
    pub added_at: Timestamp,
}

/// Handler of `cycle.created` events.
///
/// A run goes: the caller parses the payload, `payload_parsed`; loads the
/// session, `session_found`; adds the cycle to it with `Session::add_cycle`
/// (which says whether it is the root cycle, and adds a cycle that is
/// already listed no second time) and updates it; hands the answer to
/// `added_event` and publishes what it gives, caused by the incoming event.
pub struct SessionCycleTracker {}

impl SessionCycleTracker {
    /// Creates a new SessionCycleTracker.
    pub fn new() -> (h: Self) {
        SessionCycleTracker {}
    }

    /// The handler's name.
    pub fn name(&self) -> (n: &'static str)
        ensures
            n@ == "SessionCycleTracker"@,
    {
        "SessionCycleTracker"
    }

    /// A payload that does not parse is a validation error with the
    /// parser's message.
    pub fn payload_parsed(&self, parsed: Result<CycleCreated, String>) -> (r: Result<CycleCreated, DomainError>)
        ensures
            match parsed {
                Ok(c) => r == Ok::<CycleCreated, DomainError>(c),
                Err(m) => r matches Err(e) && e.code == ErrorCode::ValidationFailed && e.message@ == m@,
            },
    {
        match parsed {
            Ok(c) => Ok(c),
            Err(m) => Err(DomainError::new(ErrorCode::ValidationFailed, m)),
        }
    }

    /// The session the cycle belongs to; a missing one is an error.
    pub fn session_found(&self, created: &CycleCreated, found: Result<Option<Session>, DomainError>) -> (r: Result<Session, DomainError>)
        ensures
            match found {
                Err(e) => r matches Err(e2) && e2 == e,
                Ok(None) => r matches Err(e) && e.code == ErrorCode::SessionNotFound
                    && e.message@ == "Session not found: "@ + uuid_text(created.session_id.value),
                Ok(Some(s)) => r matches Ok(s2) && s2 == s,
            },
    {
        match found {
            Err(e) => Err(e),
            Ok(None) => Err(DomainError::new(
                ErrorCode::SessionNotFound,
                String::from_str("Session not found: ").concat(created.session_id.to_string().as_str()),
            )),
            Ok(Some(s)) => Ok(s),
        }
    }

    /// The event to publish, once the repository answered the update of the session:
    /// none unless it succeeded.
    pub fn added_event(&self, created: &CycleCreated, is_root: bool, causation_id: String, stored: Result<(), DomainError>) -> (r: Result<Publication<CycleAddedToSession>, DomainError>)
        ensures
            match stored {
                Err(e) => r == Err::<Publication<CycleAddedToSession>, DomainError>(e),
                Ok(()) => r matches Ok(p)
                    && p.event.session_id == created.session_id
                    && p.event.cycle_id == created.cycle_id
                    && p.event.is_root_cycle == is_root
                    && opt_str(p.causation_id) == Some(causation_id@)
                    && p.correlation_id is None
                    && p.user_id is None,
            },
    {
        match stored {
            Err(e) => Err(e),
            Ok(()) => {
                let event = CycleAddedToSession {
                    event_id: EventId::new(),
                    session_id: created.session_id,
                    cycle_id: created.cycle_id,
                    is_root_cycle: is_root,
                    added_at: Timestamp::now(),
                };
                Ok(Publication::caused_by(event, causation_id))
            },
        }
    }
}

} // verus!
