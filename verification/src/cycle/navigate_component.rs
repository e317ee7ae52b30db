//! Navigating to a component: back to one already started, or on to the
//! next one when its prerequisites are met; the domain checks it.

use vstd::prelude::*;
use vstd::string::*;
use crate::foundation::{opt_str, uuid_text, CommandMetadata, ComponentType, CycleId, DomainError, EventId, Publication, Timestamp};
use crate::cycle::model::Cycle;

verus! {

/// Command for the handler.
#[derive(Clone, Copy, Debug)]
pub struct NavigateComponentCommand {
    /// The cycle containing the component.
    pub cycle_id: CycleId,
    /// The component type to navigate to.
    pub target: ComponentType,
}

/// Result of the handler.
#[derive(Clone, Copy, Debug)]
pub struct NavigateComponentResult {
    /// The emitted event.
    pub event: NavigatedToComponentEvent,
}

/// Event published when navigation to a component occurs.
#[derive(Clone, Copy, Debug)]
pub struct NavigatedToComponentEvent {
    /// Unique event identifier.
    pub event_id: EventId,
    /// The cycle.
    pub cycle_id: CycleId,
    /// The component that was navigated to.
    pub component_type: ComponentType,
    /// When it happened.
    pub navigated_at: Timestamp,
}

impl NavigatedToComponentEvent {
    /// The event's type.
    pub fn event_type(&self) -> (t: &'static str)
        ensures
            t@ == "component.navigated_to"@,
    {
        "component.navigated_to"
    }
}

/// Error type for navigating to a component.
#[derive(Clone, Debug)]
pub enum NavigateComponentError {
    /// Cycle not found.
    CycleNotFound(CycleId),
    /// Domain error.
    Domain(DomainError),
}

impl NavigateComponentError {
    /// The error's text.
    pub open spec fn spec_text(self) -> Seq<char> {
        match self {
            NavigateComponentError::CycleNotFound(id) => "Cycle not found: "@ + uuid_text(id.value),
            NavigateComponentError::Domain(e) => e.message@,
        }
    }

    /// The error's text.
    pub fn to_string(&self) -> (text: String)
        ensures
            text@ == self.spec_text(),
    {
        match self {
            NavigateComponentError::CycleNotFound(id) => String::from_str("Cycle not found: ").concat(id.to_string().as_str()),
            NavigateComponentError::Domain(e) => e.to_string(),
        }
    }
}

impl From<DomainError> for NavigateComponentError {
    fn from(err: DomainError) -> (e: Self) {
        NavigateComponentError::Domain(err)
    }
}

impl vstd::std_specs::convert::FromSpecImpl<DomainError> for NavigateComponentError {
    open spec fn obeys_from_spec() -> bool {
        true
    }

    open spec fn from_spec(err: DomainError) -> Self {
        NavigateComponentError::Domain(err)
    }
}

/// Decisions of the handler.
///
/// A run goes: the caller finds the cycle, `cycle_found`; has the domain
/// navigate to the component; updates the cycle in the repository; hands the
/// answer to `navigated_event` and publishes what it gives; `finish`. Errors
/// of the repository and the domain become `Domain`; no event is published
/// unless the update succeeded.
pub struct NavigateComponentHandler {}

impl NavigateComponentHandler {
    /// Creates a new handler.
    pub fn new() -> (h: Self) {
        NavigateComponentHandler {}
    }

    /// The cycle to work on; a missing one is an error.
    pub fn cycle_found(&self, cmd: &NavigateComponentCommand, found: Result<Option<Cycle>, DomainError>) -> (r: Result<Cycle, NavigateComponentError>)
        ensures
            match found {
                Err(e) => r matches Err(NavigateComponentError::Domain(e2)) && e2 == e,
                Ok(None) => r matches Err(NavigateComponentError::CycleNotFound(id)) && id == cmd.cycle_id,
                Ok(Some(c)) => r matches Ok(c2) && c2 == c,
            },
    {
        match found {
            Err(e) => Err(NavigateComponentError::Domain(e)),
            Ok(None) => Err(NavigateComponentError::CycleNotFound(cmd.cycle_id)),
            Ok(Some(c)) => Ok(c),
        }
    }

    /// The event to publish, once the repository answered the update of the cycle:
    /// none unless it succeeded.
    pub fn navigated_event(&self, cmd: &NavigateComponentCommand, metadata: &CommandMetadata, stored: Result<(), DomainError>) -> (r: Result<Publication<NavigatedToComponentEvent>, NavigateComponentError>)
        ensures
            match stored {
                Err(e) => r matches Err(NavigateComponentError::Domain(e2)) && e2 == e,
                Ok(()) => r matches Ok(p)
                    && p.event.cycle_id == cmd.cycle_id
                    && p.event.component_type == cmd.target
                    && opt_str(p.correlation_id) == Some(metadata.correlation_id@)
                    && opt_str(p.user_id) == Some(metadata.user_id.value@)
                    && p.causation_id is None,
            },
    {
        match stored {
            Err(e) => Err(NavigateComponentError::Domain(e)),
            Ok(()) => {
                let event = NavigatedToComponentEvent { event_id: EventId::new(), cycle_id: cmd.cycle_id, component_type: cmd.target, navigated_at: Timestamp::now() };
                Ok(Publication::for_command(event, metadata))
            },
        }
    }

    /// The handler's result, once the event was published.
    pub fn finish(&self, event: NavigatedToComponentEvent) -> (r: NavigateComponentResult)
        ensures
            r.event == event,
    {
        NavigateComponentResult { event }
    }
}

} // verus!
