//! Starting a component of a cycle: the component moves from NotStarted to
//! InProgress and becomes the current step. Components are started in
//! order; the domain checks it.

use vstd::prelude::*;
use vstd::string::*;
use crate::foundation::{opt_str, uuid_text, CommandMetadata, ComponentType, CycleId, DomainError, EventId, Publication, Timestamp};
use crate::cycle::model::Cycle;

verus! {

/// Command for the handler.
#[derive(Clone, Copy, Debug)]
pub struct StartComponentCommand {
    /// The cycle containing the component.
    pub cycle_id: CycleId,
    /// The component type to start.
    pub component_type: ComponentType,
}

/// Result of the handler.
#[derive(Debug)]
pub struct StartComponentResult {
    /// The updated cycle.
    pub cycle: Cycle,
    /// The emitted event.
    pub event: ComponentStartedEvent,
}

/// Event published when a component is started.
#[derive(Clone, Copy, Debug)]
pub struct ComponentStartedEvent {
    /// Unique event identifier.
    pub event_id: EventId,
    /// The cycle.
    pub cycle_id: CycleId,
    /// The component that was started.
    pub component_type: ComponentType,
    /// When it happened.
    pub started_at: Timestamp,
}

impl ComponentStartedEvent {
    /// The event's type.
    pub fn event_type(&self) -> (t: &'static str)
        ensures
            t@ == "component.started.v1"@,
    {
        "component.started.v1"
    }
}

/// Error type for starting a component.
#[derive(Clone, Debug)]
pub enum StartComponentError {
    /// Cycle not found.
    CycleNotFound(CycleId),
    /// Domain error.
    Domain(DomainError),
}

impl StartComponentError {
    /// The error's text.
    pub open spec fn spec_text(self) -> Seq<char> {
        match self {
            StartComponentError::CycleNotFound(id) => "Cycle not found: "@ + uuid_text(id.value),
            StartComponentError::Domain(e) => e.message@,
        }
    }

    /// The error's text.
    pub fn to_string(&self) -> (text: String)
        ensures
            text@ == self.spec_text(),
    {
        match self {
            StartComponentError::CycleNotFound(id) => String::from_str("Cycle not found: ").concat(id.to_string().as_str()),
            StartComponentError::Domain(e) => e.to_string(),
        }
    }
}

impl From<DomainError> for StartComponentError {
    fn from(err: DomainError) -> (e: Self) {
        StartComponentError::Domain(err)
    }
}

impl vstd::std_specs::convert::FromSpecImpl<DomainError> for StartComponentError {
    open spec fn obeys_from_spec() -> bool {
        true
    }

    open spec fn from_spec(err: DomainError) -> Self {
        StartComponentError::Domain(err)
    }
}

/// Decisions of the handler.
///
/// A run goes: the caller finds the cycle, `cycle_found`; has the domain
/// start the component; updates the cycle in the repository; hands the answer
/// to `started_event` and publishes what it gives; `finish`. Errors of the
/// repository and the domain become `Domain`; no event is published unless
/// the update succeeded.
pub struct StartComponentHandler {}

impl StartComponentHandler {
    /// Creates a new handler.
    pub fn new() -> (h: Self) {
        StartComponentHandler {}
    }

    /// The cycle to work on; a missing one is an error.
    pub fn cycle_found(&self, cmd: &StartComponentCommand, found: Result<Option<Cycle>, DomainError>) -> (r: Result<Cycle, StartComponentError>)
        ensures
            match found {
                Err(e) => r matches Err(StartComponentError::Domain(e2)) && e2 == e,
                Ok(None) => r matches Err(StartComponentError::CycleNotFound(id)) && id == cmd.cycle_id,
                Ok(Some(c)) => r matches Ok(c2) && c2 == c,
            },
    {
        match found {
            Err(e) => Err(StartComponentError::Domain(e)),
            Ok(None) => Err(StartComponentError::CycleNotFound(cmd.cycle_id)),
            Ok(Some(c)) => Ok(c),
        }
    }

    /// The event to publish, once the repository answered the update of the cycle:
    /// none unless it succeeded.
    pub fn started_event(&self, cmd: &StartComponentCommand, metadata: &CommandMetadata, stored: Result<(), DomainError>) -> (r: Result<Publication<ComponentStartedEvent>, StartComponentError>)
        ensures
            match stored {
                Err(e) => r matches Err(StartComponentError::Domain(e2)) && e2 == e,
                Ok(()) => r matches Ok(p)
                    && p.event.cycle_id == cmd.cycle_id
                    && p.event.component_type == cmd.component_type
                    && opt_str(p.correlation_id) == Some(metadata.correlation_id@)
                    && opt_str(p.user_id) == Some(metadata.user_id.value@)
                    && p.causation_id is None,
            },
    {
        match stored {
            Err(e) => Err(StartComponentError::Domain(e)),
            Ok(()) => {
                let event = ComponentStartedEvent { event_id: EventId::new(), cycle_id: cmd.cycle_id, component_type: cmd.component_type, started_at: Timestamp::now() };
                Ok(Publication::for_command(event, metadata))
            },
        }
    }

    /// The handler's result, once the event was published.
    pub fn finish(&self, cycle: Cycle, event: ComponentStartedEvent) -> (r: StartComponentResult)
        ensures
            r.cycle == cycle,
            r.event == event,
    {
        StartComponentResult { cycle, event }
    }
}

} // verus!
