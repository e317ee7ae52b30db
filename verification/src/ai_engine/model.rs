//! The AI engine's conversation state and its storage port's error.

use vstd::prelude::*;
use vstd::string::*;
use crate::foundation::{uuid_text, ComponentType, CycleId, SessionId};
use crate::stream_message::MessageRole;

verus! {

/// A message of an AI engine conversation.
#[derive(Clone, Debug)]
pub struct ConversationMessage {
    pub role: MessageRole,
    pub content: String,
}

/// The state of the AI conversation of a cycle.
#[derive(Clone, Debug)]
pub struct ConversationState {
    pub cycle_id: CycleId,
    pub session_id: SessionId,
    /// The component the conversation is working on.
    pub current_step: ComponentType,
    /// The conversation so far, in order.
    pub messages: Vec<ConversationMessage>,
}

impl ConversationState {
    /// A new conversation of a cycle, starting at the given component.
    pub fn new(cycle_id: CycleId, session_id: SessionId, initial_component: ComponentType) -> (s: Self)
        ensures
            s.cycle_id == cycle_id,
            s.session_id == session_id,
            s.current_step == initial_component,
            s.messages@.len() == 0,
    {
        ConversationState { cycle_id, session_id, current_step: initial_component, messages: Vec::new() }
    }

    /// Appends a message to the conversation.
    pub fn add_message(&mut self, role: MessageRole, content: String)
        ensures
            final(self).cycle_id == old(self).cycle_id,
            final(self).session_id == old(self).session_id,
            final(self).current_step == old(self).current_step,
            final(self).messages@.len() == old(self).messages@.len() + 1,
            forall|k: int| 0 <= k < old(self).messages@.len() ==> #[trigger] final(self).messages@[k] == old(self).messages@[k],
            final(self).messages@.last().role == role,
            final(self).messages@.last().content == content,
    {
        self.messages.push(ConversationMessage { role, content });
    }
}

/// Errors of the conversation state storage.
#[derive(Clone, Debug)]
pub enum StateStorageError {
    /// No state is stored for the cycle.
    NotFound(CycleId),
    /// Any other failure, with its text.
    Failure(String),
}

impl StateStorageError {
    /// The error's text.
    pub open spec fn spec_text(self) -> Seq<char> {
        match self {
            StateStorageError::NotFound(id) => "State not found for cycle: "@ + uuid_text(id.value),
            StateStorageError::Failure(m) => m@,
        }
    }

    /// The error's text.
    pub fn to_string(&self) -> (text: String)
        ensures
            text@ == self.spec_text(),
    {
        match self {
            StateStorageError::NotFound(id) => String::from_str("State not found for cycle: ").concat(id.to_string().as_str()),
            StateStorageError::Failure(m) => m.clone(),
        }
    }
}

} // verus!
