//! Starting the AI conversation of a cycle.

use vstd::prelude::*;
use vstd::string::*;
use crate::foundation::{uuid_text, ComponentType, CycleId, DomainError, SessionId};
use crate::ai_engine::model::{ConversationState, StateStorageError};

verus! {

/// Command to start an AI conversation
#[derive(Clone, Copy, Debug)]
pub struct StartConversationCommand {
    pub cycle_id: CycleId,
    pub session_id: SessionId,
    pub initial_component: ComponentType,
}

/// Result of starting a conversation
#[derive(Clone, Debug)]
pub struct StartConversationResult {
    pub state: ConversationState,
}

/// Error type for starting conversations
#[derive(Clone, Debug)]
pub enum StartConversationError {
    /// Conversation already exists for this cycle
    AlreadyExists(CycleId),
    /// Storage error
    Storage(String),
    /// Domain error
    Domain(DomainError),
}

impl StartConversationError {
    /// The error's text.
    pub open spec fn spec_text(self) -> Seq<char> {
        match self {
            StartConversationError::AlreadyExists(id) => "Conversation already exists for cycle: "@ + uuid_text(id.value),
            StartConversationError::Storage(m) => "Storage error: "@ + m@,
            StartConversationError::Domain(e) => e.message@,
        }
    }

    /// The error's text.
    pub fn to_string(&self) -> (text: String)
        ensures
            text@ == self.spec_text(),
    {
        match self {
            StartConversationError::AlreadyExists(id) =>
                String::from_str("Conversation already exists for cycle: ").concat(id.to_string().as_str()),
            StartConversationError::Storage(m) => String::from_str("Storage error: ").concat(m.as_str()),
            StartConversationError::Domain(e) => e.to_string(),
        }
    }

    /// A storage error, whatever it is, as `Storage` with its text.
    pub fn from_storage(err: StateStorageError) -> (e: Self)
        ensures
            e matches StartConversationError::Storage(m) && m@ == err.spec_text(),
    {
        StartConversationError::Storage(err.to_string())
    }
}

impl From<DomainError> for StartConversationError {
    fn from(err: DomainError) -> (e: Self) {
        StartConversationError::Domain(err)
    }
}

impl vstd::std_specs::convert::FromSpecImpl<DomainError> for StartConversationError {
    open spec fn obeys_from_spec() -> bool {
        true
    }

    open spec fn from_spec(err: DomainError) -> Self {
        StartConversationError::Domain(err)
    }
}

/// Decisions of the start-conversation handler.
///
/// A run goes: the caller asks the storage whether a conversation exists,
/// `existence_checked`; saves the new state; `saved`.
pub struct StartConversationHandler {}

impl StartConversationHandler {
    /// Creates a new handler.
    pub fn new() -> (h: Self) {
        StartConversationHandler {}
    }

    /// A cycle has at most one conversation; otherwise the new, empty
    /// conversation at the command's initial component.
    pub fn existence_checked(&self, cmd: &StartConversationCommand, present: Result<bool, StateStorageError>) -> (r: Result<ConversationState, StartConversationError>)
        ensures
            match present {
                Err(e) => r matches Err(StartConversationError::Storage(m)) && m@ == e.spec_text(),
                Ok(true) => r matches Err(StartConversationError::AlreadyExists(id)) && id == cmd.cycle_id,
                Ok(false) => r matches Ok(s) && s.cycle_id == cmd.cycle_id && s.session_id == cmd.session_id
                    && s.current_step == cmd.initial_component && s.messages@.len() == 0,
            },
    {
        match present {
            Err(e) => Err(StartConversationError::from_storage(e)),
            Ok(true) => Err(StartConversationError::AlreadyExists(cmd.cycle_id)),
            Ok(false) => Ok(ConversationState::new(cmd.cycle_id, cmd.session_id, cmd.initial_component)),
        }
    }

    /// The handler's result, once the storage saved the state.
    pub fn saved(&self, state: ConversationState, saved: Result<(), StateStorageError>) -> (r: Result<StartConversationResult, StartConversationError>)
        ensures
            match saved {
                Err(e) => r matches Err(StartConversationError::Storage(m)) && m@ == e.spec_text(),
                Ok(()) => r matches Ok(res) && res.state == state,
            },
    {
        match saved {
            Err(e) => Err(StartConversationError::from_storage(e)),
            Ok(()) => Ok(StartConversationResult { state }),
        }
    }
}

} // verus!
