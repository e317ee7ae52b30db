//! Reading the AI conversation state of a cycle.

use vstd::prelude::*;
use vstd::string::*;
use crate::foundation::{uuid_text, CycleId, DomainError};
use crate::ai_engine::model::{ConversationState, StateStorageError};

verus! {

/// Query to get conversation state
#[derive(Clone, Copy, Debug)]
pub struct GetConversationStateQuery {
    pub cycle_id: CycleId,
}

/// Result of getting conversation state
#[derive(Clone, Debug)]
pub struct GetConversationStateResult {
    pub state: ConversationState,
}

/// Error type of the handler.
#[derive(Clone, Debug)]
pub enum GetConversationStateError {
    /// Conversation not found
    NotFound(CycleId),
    /// Storage error
    Storage(String),
    /// Domain error
    Domain(DomainError),
}

impl GetConversationStateError {
    /// The error's text.
    pub open spec fn spec_text(self) -> Seq<char> {
        match self {
            GetConversationStateError::NotFound(id) => "Conversation not found for cycle: "@ + uuid_text(id.value),
            GetConversationStateError::Storage(m) => "Storage error: "@ + m@,
            GetConversationStateError::Domain(e) => e.message@,
        }
    }

    /// The error's text.
    pub fn to_string(&self) -> (text: String)
        ensures
            text@ == self.spec_text(),
    {
        match self {
            GetConversationStateError::NotFound(id) => String::from_str("Conversation not found for cycle: ").concat(id.to_string().as_str()),
            GetConversationStateError::Storage(m) => String::from_str("Storage error: ").concat(m.as_str()),
            GetConversationStateError::Domain(e) => e.to_string(),
        }
    }

    /// A storage error: a missing state is `NotFound`, anything else is
    /// `Storage` with the error's text.
    pub fn from_storage(err: StateStorageError) -> (e: Self)
        ensures
            match err {
                StateStorageError::NotFound(id) => e matches GetConversationStateError::NotFound(id2) && id2 == id,
                StateStorageError::Failure(m) => e matches GetConversationStateError::Storage(m2) && m2@ == m@,
            },
    {
        match err {
            StateStorageError::NotFound(cycle_id) => GetConversationStateError::NotFound(cycle_id),
            StateStorageError::Failure(m) => GetConversationStateError::Storage(m),
        }
    }
}

impl From<DomainError> for GetConversationStateError {
    fn from(err: DomainError) -> (e: Self) {
        GetConversationStateError::Domain(err)
    }
}

impl vstd::std_specs::convert::FromSpecImpl<DomainError> for GetConversationStateError {
    open spec fn obeys_from_spec() -> bool {
        true
    }

    open spec fn from_spec(err: DomainError) -> Self {
        GetConversationStateError::Domain(err)
    }
}

/// Decisions of the conversation state query.
pub struct GetConversationStateHandler {}

impl GetConversationStateHandler {
    /// Creates a new handler.
    pub fn new() -> (h: Self) {
        GetConversationStateHandler {}
    }

    /// The result, from what the storage loaded.
    pub fn handle(&self, loaded: Result<ConversationState, StateStorageError>) -> (r: Result<GetConversationStateResult, GetConversationStateError>)
        ensures
            match loaded {
                Err(StateStorageError::NotFound(id)) => r matches Err(GetConversationStateError::NotFound(id2)) && id2 == id,
                Err(StateStorageError::Failure(m)) => r matches Err(GetConversationStateError::Storage(m2)) && m2@ == m@,
                Ok(s) => r matches Ok(res) && res.state == s,
            },
    {
        match loaded {
            Err(e) => Err(GetConversationStateError::from_storage(e)),
            Ok(state) => Ok(GetConversationStateResult { state }),
        }
    }
}

} // verus!
