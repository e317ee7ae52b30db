//! Reading a conversation by component or by identifier.

use vstd::prelude::*;
use vstd::string::*;
use crate::foundation::{uuid_text, ComponentId, ConversationId, DomainError, ErrorCode};

verus! {

/// Query to get a conversation.
#[derive(Clone, Debug)]
pub struct GetConversationQuery {
    pub component_id: ComponentId,
}

/// Decisions of the conversation query handler: a missing conversation is
/// an error, a failed read passes through.
pub struct GetConversationHandler {}

impl GetConversationHandler {
    /// Creates a new handler.
    pub fn new() -> (h: Self) {
        GetConversationHandler {}
    }

    /// The answer to a query by component, from what the reader returned.
    pub fn handle<V>(&self, query: &GetConversationQuery, read: Result<Option<V>, DomainError>) -> (r: Result<V, DomainError>)
        ensures
            match read {
                Ok(Some(v)) => r == Ok::<V, DomainError>(v),
                Ok(None) => r matches Err(e) && e.code == ErrorCode::ConversationNotFound
                    && e.message@ == "No conversation found for component "@ + uuid_text(query.component_id.value),
                Err(e) => r matches Err(e2) && e2.code == e.code && e2.message@ == e.message@,
            },
    {
        match read {
            Ok(Some(view)) => Ok(view),
            Ok(None) => Err(DomainError::new(
                ErrorCode::ConversationNotFound,
                String::from_str("No conversation found for component ").concat(query.component_id.to_string().as_str()),
            )),
            Err(e) => Err(e),
        }
    }

    /// The answer to a query by conversation identifier.
    pub fn get_by_id<V>(&self, conversation_id: &ConversationId, read: Result<Option<V>, DomainError>) -> (r: Result<V, DomainError>)
        ensures
            match read {
                Ok(Some(v)) => r == Ok::<V, DomainError>(v),
                Ok(None) => r matches Err(e) && e.code == ErrorCode::ConversationNotFound
                    && e.message@ == "Conversation not found: "@ + uuid_text(conversation_id.value),
                Err(e) => r matches Err(e2) && e2.code == e.code && e2.message@ == e.message@,
            },
    {
        match read {
            Ok(Some(view)) => Ok(view),
            Ok(None) => Err(DomainError::new(
                ErrorCode::ConversationNotFound,
                String::from_str("Conversation not found: ").concat(conversation_id.to_string().as_str()),
            )),
            Err(e) => Err(e),
        }
    }
}

} // verus!
