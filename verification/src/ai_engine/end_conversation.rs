//! Ending the AI conversation of a cycle: its state and outputs are deleted.

use vstd::prelude::*;
use vstd::string::*;
use crate::foundation::{uuid_text, CycleId, DomainError};
use crate::ai_engine::model::{StateStorageError};

verus! {

/// Command to end a conversation
#[derive(Clone, Copy, Debug)]
pub struct EndConversationCommand {
    pub cycle_id: CycleId,
}

/// Error type of the handler.
#[derive(Clone, Debug)]
pub enum EndConversationError {
    /// Conversation not found
    NotFound(CycleId),
    /// Storage error
    Storage(String),
    /// Domain error
    Domain(DomainError),
}

impl EndConversationError {
    /// The error's text.
    pub open spec fn spec_text(self) -> Seq<char> {
        match self {
            EndConversationError::NotFound(id) => "Conversation not found for cycle: "@ + uuid_text(id.value),
            EndConversationError::Storage(m) => "Storage error: "@ + m@,
            EndConversationError::Domain(e) => e.message@,
        }
    }

    /// The error's text.
    pub fn to_string(&self) -> (text: String)
        ensures
            text@ == self.spec_text(),
    {
        match self {
            EndConversationError::NotFound(id) => String::from_str("Conversation not found for cycle: ").concat(id.to_string().as_str()),
            EndConversationError::Storage(m) => String::from_str("Storage error: ").concat(m.as_str()),
            EndConversationError::Domain(e) => e.to_string(),
        }
    }

    /// A storage error: a missing state is `NotFound`, anything else is
    /// `Storage` with the error's text.
    pub fn from_storage(err: StateStorageError) -> (e: Self)
        ensures
            match err {
                StateStorageError::NotFound(id) => e matches EndConversationError::NotFound(id2) && id2 == id,
                StateStorageError::Failure(m) => e matches EndConversationError::Storage(m2) && m2@ == m@,
            },
    {
        match err {
            StateStorageError::NotFound(cycle_id) => EndConversationError::NotFound(cycle_id),
            StateStorageError::Failure(m) => EndConversationError::Storage(m),
        }
    }
}

impl From<DomainError> for EndConversationError {
    fn from(err: DomainError) -> (e: Self) {
        EndConversationError::Domain(err)
    }
}

impl vstd::std_specs::convert::FromSpecImpl<DomainError> for EndConversationError {
    open spec fn obeys_from_spec() -> bool {
        true
    }

    open spec fn from_spec(err: DomainError) -> Self {
        EndConversationError::Domain(err)
    }
}

/// Decisions of the end-conversation handler.
///
/// A run goes: the caller asks the storage whether a conversation exists,
/// `existence_checked`; deletes it; `deleted`.
pub struct EndConversationHandler {}

impl EndConversationHandler {
    /// Creates a new handler.
    pub fn new() -> (h: Self) {
        EndConversationHandler {}
    }

    /// Only an existing conversation can be ended.
    pub fn existence_checked(&self, cmd: &EndConversationCommand, present: Result<bool, StateStorageError>) -> (r: Result<(), EndConversationError>)
        ensures
            match present {
                Err(StateStorageError::NotFound(id)) => r matches Err(EndConversationError::NotFound(id2)) && id2 == id,
                Err(StateStorageError::Failure(m)) => r matches Err(EndConversationError::Storage(m2)) && m2@ == m@,
                Ok(false) => r matches Err(EndConversationError::NotFound(id)) && id == cmd.cycle_id,
                Ok(true) => r is Ok,
            },
    {
        match present {
            Err(e) => Err(EndConversationError::from_storage(e)),
            Ok(false) => Err(EndConversationError::NotFound(cmd.cycle_id)),
            Ok(true) => Ok(()),
        }
    }

    /// The handler's result, once the storage deleted the conversation.
    pub fn deleted(&self, deleted: Result<(), StateStorageError>) -> (r: Result<(), EndConversationError>)
        ensures
            match deleted {
                Err(StateStorageError::NotFound(id)) => r matches Err(EndConversationError::NotFound(id2)) && id2 == id,
                Err(StateStorageError::Failure(m)) => r matches Err(EndConversationError::Storage(m2)) && m2@ == m@,
                Ok(()) => r is Ok,
            },
    {
        match deleted {
            Err(e) => Err(EndConversationError::from_storage(e)),
            Ok(()) => Ok(()),
        }
    }
}

} // verus!
