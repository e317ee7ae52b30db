//! Creating a new cycle in a session.

use vstd::prelude::*;
use vstd::string::*;
use crate::foundation::{opt_str, uuid_text, CommandMetadata, CycleId, DomainError, EventId, Publication, SessionId, Timestamp};
use crate::cycle::model::Cycle;
use crate::ports::{AccessDeniedReason, AccessResult};

verus! {

/// Command to create a new cycle.
#[derive(Clone, Copy, Debug)]
pub struct CreateCycleCommand {
    /// Session to create the cycle in.
    pub session_id: SessionId,
}

/// Result of successful cycle creation.
#[derive(Debug)]
pub struct CreateCycleResult {
    /// The created cycle.
    pub cycle: Cycle,
    /// The emitted event.
    pub event: CycleCreatedEvent,
}

/// Event published when a cycle is created; the payload that the session
/// cycle tracker expects.
#[derive(Clone, Copy, Debug)]
pub struct CycleCreatedEvent {
    /// Unique event identifier.
    pub event_id: EventId,
    /// The cycle that was created.
    pub cycle_id: CycleId,
    /// The session this cycle belongs to.
    pub session_id: SessionId,
    /// Parent cycle if this is a branch.
    pub parent_cycle_id: Option<CycleId>,
    /// When the cycle was created.
    pub created_at: Timestamp,
}

impl CycleCreatedEvent {
    /// The event's type.
    pub fn event_type(&self) -> (t: &'static str)
        ensures
            t@ == "cycle.created"@,
    {
        "cycle.created"
    }
}

/// Error type for cycle creation.
#[derive(Clone, Debug)]
pub enum CreateCycleError {
    /// Session not found.
    SessionNotFound(SessionId),
    /// Access denied by membership check.
    AccessDenied(AccessDeniedReason),
    /// Domain error.
    Domain(DomainError),
}

impl CreateCycleError {
    /// The error's text.
    pub open spec fn spec_text(self) -> Seq<char> {
        match self {
            CreateCycleError::SessionNotFound(id) => "Session not found: "@ + uuid_text(id.value),
            CreateCycleError::AccessDenied(reason) => "Access denied: "@ + reason.description@,
            CreateCycleError::Domain(e) => e.message@,
        }
    }

    /// The error's text.
    pub fn to_string(&self) -> (text: String)
        ensures
            text@ == self.spec_text(),
    {
        match self {
            CreateCycleError::SessionNotFound(id) => String::from_str("Session not found: ").concat(id.to_string().as_str()),
            CreateCycleError::AccessDenied(reason) => String::from_str("Access denied: ").concat(reason.description.as_str()),
            CreateCycleError::Domain(e) => e.to_string(),
        }
    }
}

impl From<DomainError> for CreateCycleError {
    fn from(err: DomainError) -> (e: Self) {
        CreateCycleError::Domain(err)
    }
}

impl vstd::std_specs::convert::FromSpecImpl<DomainError> for CreateCycleError {
    open spec fn obeys_from_spec() -> bool {
        true
    }

    open spec fn from_spec(err: DomainError) -> Self {
        CreateCycleError::Domain(err)
    }
}

/// Decisions of the create-cycle handler.
///
/// A run goes: the caller finds the session, `session_found`; asks the access
/// checker whether the command's user may create a cycle in it,
/// `access_checked`; has the domain create the cycle and saves it; hands the
/// answer to `created_event` and publishes what it gives; `finish`.
pub struct CreateCycleHandler {}

impl CreateCycleHandler {
    /// Creates a new handler.
    pub fn new() -> (h: Self) {
        CreateCycleHandler {}
    }

    /// The session to create the cycle in (by its identifier); a missing
    /// one is an error.
    pub fn session_found(&self, cmd: &CreateCycleCommand, found: Result<Option<SessionId>, DomainError>) -> (r: Result<SessionId, CreateCycleError>)
        ensures
            match found {
                Err(e) => r matches Err(CreateCycleError::Domain(e2)) && e2 == e,
                Ok(None) => r matches Err(CreateCycleError::SessionNotFound(id)) && id == cmd.session_id,
                Ok(Some(s)) => r == Ok::<SessionId, CreateCycleError>(s),
            },
    {
        match found {
            Err(e) => Err(CreateCycleError::Domain(e)),
            Ok(None) => Err(CreateCycleError::SessionNotFound(cmd.session_id)),
            Ok(Some(s)) => Ok(s),
        }
    }

    /// The membership check: a refusal is `AccessDenied` with its reason.
    pub fn access_checked(&self, checked: Result<AccessResult, DomainError>) -> (r: Result<(), CreateCycleError>)
        ensures
            match checked {
                Err(e) => r matches Err(CreateCycleError::Domain(e2)) && e2 == e,
                Ok(AccessResult::Allowed) => r is Ok,
                Ok(AccessResult::Denied(reason)) => r matches Err(CreateCycleError::AccessDenied(r2)) && r2 == reason,
            },
    {
        match checked {
            Err(e) => Err(CreateCycleError::Domain(e)),
            Ok(AccessResult::Allowed) => Ok(()),
            Ok(AccessResult::Denied(reason)) => Err(CreateCycleError::AccessDenied(reason)),
        }
    }

    /// The event to publish, once the repository answered the save of the new cycle:
    /// none unless it succeeded.
    pub fn created_event(&self, cmd: &CreateCycleCommand, cycle: &Cycle, metadata: &CommandMetadata, stored: Result<(), DomainError>) -> (r: Result<Publication<CycleCreatedEvent>, CreateCycleError>)
        ensures
            match stored {
                Err(e) => r matches Err(CreateCycleError::Domain(e2)) && e2 == e,
                Ok(()) => r matches Ok(p)
                    && p.event.cycle_id == cycle.id
                    && p.event.session_id == cmd.session_id
                    && p.event.parent_cycle_id is None
                    && p.event.created_at == cycle.created_at
                    && opt_str(p.correlation_id) == Some(metadata.correlation_id@)
                    && opt_str(p.user_id) == Some(metadata.user_id.value@)
                    && p.causation_id is None,
            },
    {
        match stored {
            Err(e) => Err(CreateCycleError::Domain(e)),
            Ok(()) => {
                let event = CycleCreatedEvent {
                    event_id: EventId::new(),
                    cycle_id: cycle.id,
                    session_id: cmd.session_id,
                    parent_cycle_id: None,
                    created_at: cycle.created_at,
                };
                Ok(Publication::for_command(event, metadata))
            },
        }
    }

    /// The handler's result, once the event was published.
    pub fn finish(&self, cycle: Cycle, event: CycleCreatedEvent) -> (r: CreateCycleResult)
        ensures
            r.cycle == cycle,
            r.event == event,
    {
        CreateCycleResult { cycle, event }
    }
}

} // verus!
