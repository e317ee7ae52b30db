//! Sending a user message in the AI conversation of a cycle.

use vstd::prelude::*;
use vstd::string::*;
use crate::foundation::{uuid_text, CycleId, DomainError};
use crate::ai_engine::model::{ConversationState, StateStorageError};

verus! {

use crate::stream_message::MessageRole;

/// Command to send a message in a conversation
#[derive(Clone, Debug)]
pub struct SendMessageCommand {
    pub cycle_id: CycleId,
    pub message: String,
}

/// Result of sending a message
#[derive(Clone, Debug)]
pub struct SendMessageResult {
    pub updated_state: ConversationState,
    pub ai_response: String,
}

/// Error type of the handler.
#[derive(Clone, Debug)]
pub enum SendMessageError {
    /// Conversation not found
    NotFound(CycleId),
    /// Storage error
    Storage(String),
    /// Orchestrator error (invalid transition, etc.)
    Orchestrator(String),
    /// Domain error
    Domain(DomainError),
}

impl SendMessageError {
    /// The error's text.
    pub open spec fn spec_text(self) -> Seq<char> {
        match self {
            SendMessageError::NotFound(id) => "Conversation not found for cycle: "@ + uuid_text(id.value),
            SendMessageError::Storage(m) => "Storage error: "@ + m@,
            SendMessageError::Orchestrator(m) => "Orchestrator error: "@ + m@,
            SendMessageError::Domain(e) => e.message@,
        }
    }

    /// The error's text.
    pub fn to_string(&self) -> (text: String)
        ensures
            text@ == self.spec_text(),
    {
        match self {
            SendMessageError::NotFound(id) => String::from_str("Conversation not found for cycle: ").concat(id.to_string().as_str()),
            SendMessageError::Storage(m) => String::from_str("Storage error: ").concat(m.as_str()),
            SendMessageError::Orchestrator(m) => String::from_str("Orchestrator error: ").concat(m.as_str()),
            SendMessageError::Domain(e) => e.to_string(),
        }
    }

    /// A storage error: a missing state is `NotFound`, anything else is
    /// `Storage` with the error's text.
    pub fn from_storage(err: StateStorageError) -> (e: Self)
        ensures
            match err {
                StateStorageError::NotFound(id) => e matches SendMessageError::NotFound(id2) && id2 == id,
                StateStorageError::Failure(m) => e matches SendMessageError::Storage(m2) && m2@ == m@,
            },
    {
        match err {
            StateStorageError::NotFound(cycle_id) => SendMessageError::NotFound(cycle_id),
            StateStorageError::Failure(m) => SendMessageError::Storage(m),
        }
    }
}

impl From<DomainError> for SendMessageError {
    fn from(err: DomainError) -> (e: Self) {
        SendMessageError::Domain(err)
    }
}

impl vstd::std_specs::convert::FromSpecImpl<DomainError> for SendMessageError {
    open spec fn obeys_from_spec() -> bool {
        true
    }

    open spec fn from_spec(err: DomainError) -> Self {
        SendMessageError::Domain(err)
    }
}

/// The acknowledgment given as the AI's answer: it names the component the
/// conversation is on.
pub open spec fn acknowledgment(state: ConversationState) -> Seq<char> {
    "I understand you're working on "@ + state.current_step.spec_debug_name() + ". Let me help you with that."@
}

/// Decisions of the send-message handler.
///
/// A run goes: the caller loads the state (a failure goes through
/// `SendMessageError::from_storage`); `exchange`; saves the updated state,
/// `saved`.
pub struct SendMessageHandler {}

impl SendMessageHandler {
    /// Creates a new handler.
    pub fn new() -> (h: Self) {
        SendMessageHandler {}
    }

    /// The AI's answer to a message in the given state.
    pub fn generate_ai_response(&self, state: &ConversationState, message: &str) -> (r: String)
        ensures
            r@ == acknowledgment(*state),
    {
        String::from_str("I understand you're working on ")
            .concat(state.current_step.debug_name().as_str())
            .concat(". Let me help you with that.")
    }

    /// Adds the user's message and the AI's answer to the conversation.
    pub fn exchange(&self, cmd: &SendMessageCommand, state: ConversationState) -> (r: (ConversationState, String))
        ensures
            r.0.cycle_id == state.cycle_id,
            r.0.session_id == state.session_id,
            r.0.current_step == state.current_step,
            r.0.messages@.len() == state.messages@.len() + 2,
            forall|k: int| 0 <= k < state.messages@.len() ==> #[trigger] r.0.messages@[k] == state.messages@[k],
            r.0.messages@[state.messages@.len() as int].role == MessageRole::User,
            r.0.messages@[state.messages@.len() as int].content@ == cmd.message@,
            r.0.messages@[(state.messages@.len() + 1) as int].role == MessageRole::Assistant,
            r.0.messages@[(state.messages@.len() + 1) as int].content@ == acknowledgment(state),
            r.1@ == acknowledgment(state),
    {
        let mut state = state;
        let ghost before = state.messages@;
        state.add_message(MessageRole::User, cmd.message.clone());
        let ghost with_user = state.messages@;
        let ai_response = self.generate_ai_response(&state, cmd.message.as_str());
        state.add_message(MessageRole::Assistant, ai_response.clone());
        proof {
            assert(state.messages@[before.len() as int] == with_user[before.len() as int]);
        }
        (state, ai_response)
    }

    /// The handler's result, once the storage saved the state.
    pub fn saved(&self, state: ConversationState, ai_response: String, saved: Result<(), StateStorageError>) -> (r: Result<SendMessageResult, SendMessageError>)
        ensures
            match saved {
                Err(StateStorageError::NotFound(id)) => r matches Err(SendMessageError::NotFound(id2)) && id2 == id,
                Err(StateStorageError::Failure(m)) => r matches Err(SendMessageError::Storage(m2)) && m2@ == m@,
                Ok(()) => r matches Ok(res) && res.updated_state == state && res.ai_response == ai_response,
            },
    {
        match saved {
            Err(e) => Err(SendMessageError::from_storage(e)),
            Ok(()) => Ok(SendMessageResult { updated_state: state, ai_response }),
        }
    }
}

} // verus!
