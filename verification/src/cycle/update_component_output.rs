//! Updating a component's output: the structured data produced by the
//! conversations of that component. The component must be in progress; the
//! domain checks it.

use vstd::prelude::*;
use vstd::string::*;
use crate::foundation::{opt_str, uuid_text, CommandMetadata, ComponentType, CycleId, DomainError, EventId, Publication, Timestamp};
use crate::cycle::model::Cycle;
use crate::json::JsonValue;

verus! {

/// Command for the handler.
#[derive(Debug)]
pub struct UpdateComponentOutputCommand {
    /// The cycle containing the component.
    pub cycle_id: CycleId,
    /// The component type to update.
    pub component_type: ComponentType,
    /// The new output data (its structure varies by component type).
    pub output: JsonValue,
}

/// Result of the handler.
#[derive(Debug)]
pub struct UpdateComponentOutputResult {
    /// The updated cycle.
    pub cycle: Cycle,
    /// The emitted event.
    pub event: ComponentOutputUpdatedEvent,
}

/// Event published when a component's output is updated.
#[derive(Clone, Copy, Debug)]
pub struct ComponentOutputUpdatedEvent {
    /// Unique event identifier.
    pub event_id: EventId,
    /// The cycle.
    pub cycle_id: CycleId,
    /// The component that was updated.
    pub component_type: ComponentType,
    /// When it happened.
    pub updated_at: Timestamp,
}

impl ComponentOutputUpdatedEvent {
    /// The event's type.
    pub fn event_type(&self) -> (t: &'static str)
        ensures
            t@ == "component.output_updated.v1"@,
    {
        "component.output_updated.v1"
    }
}

/// Error type for updating a component's output.
#[derive(Clone, Debug)]
pub enum UpdateComponentOutputError {
    /// Cycle not found.
    CycleNotFound(CycleId),
    /// Domain error.
    Domain(DomainError),
}

impl UpdateComponentOutputError {
    /// The error's text.
    pub open spec fn spec_text(self) -> Seq<char> {
        match self {
            UpdateComponentOutputError::CycleNotFound(id) => "Cycle not found: "@ + uuid_text(id.value),
            UpdateComponentOutputError::Domain(e) => e.message@,
        }
    }

    /// The error's text.
    pub fn to_string(&self) -> (text: String)
        ensures
            text@ == self.spec_text(),
    {
        match self {
            UpdateComponentOutputError::CycleNotFound(id) => String::from_str("Cycle not found: ").concat(id.to_string().as_str()),
            UpdateComponentOutputError::Domain(e) => e.to_string(),
        }
    }
}

impl From<DomainError> for UpdateComponentOutputError {
    fn from(err: DomainError) -> (e: Self) {
        UpdateComponentOutputError::Domain(err)
    }
}

impl vstd::std_specs::convert::FromSpecImpl<DomainError> for UpdateComponentOutputError {
    open spec fn obeys_from_spec() -> bool {
        true
    }

    open spec fn from_spec(err: DomainError) -> Self {
        UpdateComponentOutputError::Domain(err)
    }
}

/// Decisions of the handler.
///
/// A run goes: the caller finds the cycle, `cycle_found`; has the domain set
/// the output; updates the cycle in the repository; hands the answer to
/// `output_updated_event` and publishes what it gives; `finish`. Errors of
/// the repository and the domain become `Domain`; no event is published
/// unless the update succeeded.
pub struct UpdateComponentOutputHandler {}

impl UpdateComponentOutputHandler {
    /// Creates a new handler.
    pub fn new() -> (h: Self) {
        UpdateComponentOutputHandler {}
    }

    /// The cycle to work on; a missing one is an error.
    pub fn cycle_found(&self, cmd: &UpdateComponentOutputCommand, found: Result<Option<Cycle>, DomainError>) -> (r: Result<Cycle, UpdateComponentOutputError>)
        ensures
            match found {
                Err(e) => r matches Err(UpdateComponentOutputError::Domain(e2)) && e2 == e,
                Ok(None) => r matches Err(UpdateComponentOutputError::CycleNotFound(id)) && id == cmd.cycle_id,
                Ok(Some(c)) => r matches Ok(c2) && c2 == c,
            },
    {
        match found {
            Err(e) => Err(UpdateComponentOutputError::Domain(e)),
            Ok(None) => Err(UpdateComponentOutputError::CycleNotFound(cmd.cycle_id)),
            Ok(Some(c)) => Ok(c),
        }
    }

    /// The event to publish, once the repository answered the update of the cycle:
    /// none unless it succeeded.
    pub fn output_updated_event(&self, cmd: &UpdateComponentOutputCommand, metadata: &CommandMetadata, stored: Result<(), DomainError>) -> (r: Result<Publication<ComponentOutputUpdatedEvent>, UpdateComponentOutputError>)
        ensures
            match stored {
                Err(e) => r matches Err(UpdateComponentOutputError::Domain(e2)) && e2 == e,
                Ok(()) => r matches Ok(p)
                    && p.event.cycle_id == cmd.cycle_id
                    && p.event.component_type == cmd.component_type
                    && opt_str(p.correlation_id) == Some(metadata.correlation_id@)
                    && opt_str(p.user_id) == Some(metadata.user_id.value@)
                    && p.causation_id is None,
            },
    {
        match stored {
            Err(e) => Err(UpdateComponentOutputError::Domain(e)),
            Ok(()) => {
                let event = ComponentOutputUpdatedEvent { event_id: EventId::new(), cycle_id: cmd.cycle_id, component_type: cmd.component_type, updated_at: Timestamp::now() };
                Ok(Publication::for_command(event, metadata))
            },
        }
    }

    /// The handler's result, once the event was published.
    pub fn finish(&self, cycle: Cycle, event: ComponentOutputUpdatedEvent) -> (r: UpdateComponentOutputResult)
        ensures
            r.cycle == cycle,
            r.event == event,
    {
        UpdateComponentOutputResult { cycle, event }
    }
}

} // verus!
