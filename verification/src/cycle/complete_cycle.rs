//! Completing a cycle: its status moves from Active to Completed, which
//! ends the decision-making process for this cycle.

use vstd::prelude::*;
use vstd::string::*;
use crate::foundation::{opt_str, uuid_text, CommandMetadata, CycleId, DomainError, EventId, Publication, Timestamp};
use crate::cycle::model::Cycle;

verus! {

/// Command for the handler.
#[derive(Clone, Copy, Debug)]
pub struct CompleteCycleCommand {
    /// The cycle containing the component.
    pub cycle_id: CycleId,
}

/// Result of the handler.
#[derive(Debug)]
pub struct CompleteCycleResult {
    /// The updated cycle.
    pub cycle: Cycle,
    /// The emitted event.
    pub event: CycleCompletedEvent,
}

/// Event published when a cycle is completed.
#[derive(Clone, Copy, Debug)]
pub struct CycleCompletedEvent {
    /// Unique event identifier.
    pub event_id: EventId,
    /// The cycle.
    pub cycle_id: CycleId,
    /// When it happened.
    pub completed_at: Timestamp,
}

impl CycleCompletedEvent {
    /// The event's type.
    pub fn event_type(&self) -> (t: &'static str)
        ensures
            t@ == "cycle.completed"@,
    {
        "cycle.completed"
    }
}

/// Error type for completing a cycle.
#[derive(Clone, Debug)]
pub enum CompleteCycleError {
    /// Cycle not found.
    CycleNotFound(CycleId),
    /// Domain error.
    Domain(DomainError),
}

impl CompleteCycleError {
    /// The error's text.
    pub open spec fn spec_text(self) -> Seq<char> {
        match self {
            CompleteCycleError::CycleNotFound(id) => "Cycle not found: "@ + uuid_text(id.value),
            CompleteCycleError::Domain(e) => e.message@,
        }
    }

    /// The error's text.
    pub fn to_string(&self) -> (text: String)
        ensures
            text@ == self.spec_text(),
    {
        match self {
            CompleteCycleError::CycleNotFound(id) => String::from_str("Cycle not found: ").concat(id.to_string().as_str()),
            CompleteCycleError::Domain(e) => e.to_string(),
        }
    }
}

impl From<DomainError> for CompleteCycleError {
    fn from(err: DomainError) -> (e: Self) {
        CompleteCycleError::Domain(err)
    }
}

impl vstd::std_specs::convert::FromSpecImpl<DomainError> for CompleteCycleError {
    open spec fn obeys_from_spec() -> bool {
        true
    }

    open spec fn from_spec(err: DomainError) -> Self {
        CompleteCycleError::Domain(err)
    }
}

/// Decisions of the handler.
///
/// A run goes: the caller finds the cycle, `cycle_found`; has the domain
/// complete it; updates the cycle in the repository; hands the answer to
/// `completed_event` and publishes what it gives; `finish`. Errors of the
/// repository and the domain become `Domain`; no event is published unless
/// the update succeeded.
pub struct CompleteCycleHandler {}

impl CompleteCycleHandler {
    /// Creates a new handler.
    pub fn new() -> (h: Self) {
        CompleteCycleHandler {}
    }

    /// The cycle to work on; a missing one is an error.
    pub fn cycle_found(&self, cmd: &CompleteCycleCommand, found: Result<Option<Cycle>, DomainError>) -> (r: Result<Cycle, CompleteCycleError>)
        ensures
            match found {
                Err(e) => r matches Err(CompleteCycleError::Domain(e2)) && e2 == e,
                Ok(None) => r matches Err(CompleteCycleError::CycleNotFound(id)) && id == cmd.cycle_id,
                Ok(Some(c)) => r matches Ok(c2) && c2 == c,
            },
    {
        match found {
            Err(e) => Err(CompleteCycleError::Domain(e)),
            Ok(None) => Err(CompleteCycleError::CycleNotFound(cmd.cycle_id)),
            Ok(Some(c)) => Ok(c),
        }
    }

    /// The event to publish, once the repository answered the update of the cycle:
    /// none unless it succeeded.
    pub fn completed_event(&self, cmd: &CompleteCycleCommand, metadata: &CommandMetadata, stored: Result<(), DomainError>) -> (r: Result<Publication<CycleCompletedEvent>, CompleteCycleError>)
        ensures
            match stored {
                Err(e) => r matches Err(CompleteCycleError::Domain(e2)) && e2 == e,
                Ok(()) => r matches Ok(p)
                    && p.event.cycle_id == cmd.cycle_id
                    && opt_str(p.correlation_id) == Some(metadata.correlation_id@)
                    && opt_str(p.user_id) == Some(metadata.user_id.value@)
                    && p.causation_id is None,
            },
    {
        match stored {
            Err(e) => Err(CompleteCycleError::Domain(e)),
            Ok(()) => {
                let event = CycleCompletedEvent { event_id: EventId::new(), cycle_id: cmd.cycle_id, completed_at: Timestamp::now() };
                Ok(Publication::for_command(event, metadata))
            },
        }
    }

    /// The handler's result, once the event was published.
    pub fn finish(&self, cycle: Cycle, event: CycleCompletedEvent) -> (r: CompleteCycleResult)
        ensures
            r.cycle == cycle,
            r.event == event,
    {
        CompleteCycleResult { cycle, event }
    }
}

} // verus!
