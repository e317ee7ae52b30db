//! Routing a user intent to the component it targets.

use vstd::prelude::*;
use vstd::string::*;
use crate::foundation::{uuid_text, ComponentType, CycleId, DomainError};
use crate::ai_engine::model::{StateStorageError};

verus! {

/// What the user wants to do next.
#[derive(Clone, Copy, Debug, PartialEq, Eq, Structural)]
pub enum UserIntent {
    /// Keep working on the current component.
    Continue,
    /// Go to a given component.
    Navigate(ComponentType),
    /// The current component is done.
    Complete,
}

/// Command to route user intent
#[derive(Clone, Copy, Debug)]
pub struct RouteIntentCommand {
    pub cycle_id: CycleId,
    pub intent: UserIntent,
}

/// Result of routing intent
#[derive(Clone, Copy, Debug)]
pub struct RouteIntentResult {
    pub target_component: ComponentType,
}

/// Error type of the handler.
#[derive(Clone, Debug)]
pub enum RouteIntentError {
    /// Conversation not found
    NotFound(CycleId),
    /// Storage error
    Storage(String),
    /// Orchestrator error (invalid transition, etc.)
    Orchestrator(String),
    /// Domain error
    Domain(DomainError),
}

impl RouteIntentError {
    /// The error's text.
    pub open spec fn spec_text(self) -> Seq<char> {
        match self {
            RouteIntentError::NotFound(id) => "Conversation not found for cycle: "@ + uuid_text(id.value),
            RouteIntentError::Storage(m) => "Storage error: "@ + m@,
            RouteIntentError::Orchestrator(m) => "Orchestrator error: "@ + m@,
            RouteIntentError::Domain(e) => e.message@,
        }
    }

    /// The error's text.
    pub fn to_string(&self) -> (text: String)
        ensures
            text@ == self.spec_text(),
    {
        match self {
            RouteIntentError::NotFound(id) => String::from_str("Conversation not found for cycle: ").concat(id.to_string().as_str()),
            RouteIntentError::Storage(m) => String::from_str("Storage error: ").concat(m.as_str()),
            RouteIntentError::Orchestrator(m) => String::from_str("Orchestrator error: ").concat(m.as_str()),
            RouteIntentError::Domain(e) => e.to_string(),
        }
    }

    /// A storage error: a missing state is `NotFound`, anything else is
    /// `Storage` with the error's text.
    pub fn from_storage(err: StateStorageError) -> (e: Self)
        ensures
            match err {
                StateStorageError::NotFound(id) => e matches RouteIntentError::NotFound(id2) && id2 == id,
                StateStorageError::Failure(m) => e matches RouteIntentError::Storage(m2) && m2@ == m@,
            },
    {
        match err {
            StateStorageError::NotFound(cycle_id) => RouteIntentError::NotFound(cycle_id),
            StateStorageError::Failure(m) => RouteIntentError::Storage(m),
        }
    }
}

impl From<DomainError> for RouteIntentError {
    fn from(err: DomainError) -> (e: Self) {
        RouteIntentError::Domain(err)
    }
}

impl vstd::std_specs::convert::FromSpecImpl<DomainError> for RouteIntentError {
    open spec fn obeys_from_spec() -> bool {
        true
    }

    open spec fn from_spec(err: DomainError) -> Self {
        RouteIntentError::Domain(err)
    }
}

/// Decisions of the routing handler.
///
/// A run goes: the caller loads the conversation state (a failure goes
/// through `RouteIntentError::from_storage`); has the orchestrator built from
/// it route the intent; `routed`.
pub struct RouteIntentHandler {}

impl RouteIntentHandler {
    /// Creates a new handler.
    pub fn new() -> (h: Self) {
        RouteIntentHandler {}
    }

    /// The target the orchestrator chose; a refusal of the orchestrator
    /// (building it from the state, or routing) is an orchestrator error.
    pub fn routed(&self, routed: Result<ComponentType, String>) -> (r: Result<RouteIntentResult, RouteIntentError>)
        ensures
            match routed {
                Ok(t) => r matches Ok(res) && res.target_component == t,
                Err(m) => r matches Err(RouteIntentError::Orchestrator(m2)) && m2@ == m@,
            },
    {
        match routed {
            Ok(target_component) => Ok(RouteIntentResult { target_component }),
            Err(m) => Err(RouteIntentError::Orchestrator(m)),
        }
    }
}

} // verus!
