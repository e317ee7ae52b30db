//! Sending a message in a component conversation.

use vstd::prelude::*;
use vstd::string::*;
use crate::foundation::{uuid_text, ComponentId, ConversationId, DomainError, ErrorCode};
use crate::stream_message::StoredMessage;

verus! {

/// Command to send a message in a conversation.
#[derive(Clone, Debug)]
pub struct SendMessageCommand {
    pub component_id: ComponentId,
    pub content: String,
}

/// Result of sending a message.
#[derive(Clone, Debug)]
pub struct SendMessageResult {
    pub conversation_id: ConversationId,
    pub message: StoredMessage,
}

/// Errors of the conversation repository.
#[derive(Clone, Debug)]
pub enum ConversationRepositoryError {
    NotFound(ConversationId),
    Database(String),
    Serialization(String),
}

/// Maps a repository error to a domain error.
pub fn map_repository_error(e: ConversationRepositoryError) -> (d: DomainError)
    ensures
        match e {
            ConversationRepositoryError::NotFound(id) => d.code == ErrorCode::ConversationNotFound
                && d.message@ == "Conversation not found: "@ + uuid_text(id.value),
            ConversationRepositoryError::Database(msg) => d.code == ErrorCode::DatabaseError && d.message@ == msg@,
            ConversationRepositoryError::Serialization(msg) => d.code == ErrorCode::InternalError
                && d.message@ == "Serialization error: "@ + msg@,
        },
{
    match e {
        ConversationRepositoryError::NotFound(id) => DomainError::new(
            ErrorCode::ConversationNotFound,
            String::from_str("Conversation not found: ").concat(id.to_string().as_str()),
        ),
        ConversationRepositoryError::Database(msg) => DomainError::new(ErrorCode::DatabaseError, msg),
        ConversationRepositoryError::Serialization(msg) => DomainError::new(
            ErrorCode::InternalError,
            String::from_str("Serialization error: ").concat(msg.as_str()),
        ),
    }
}

/// Decisions of the send-message handler.
///
/// A run goes: the caller loads the conversation by component,
/// `conversation_found`; adds the user message to it (the domain may refuse
/// it) and updates it in the repository; `finish`.
pub struct SendMessageHandler {}

impl SendMessageHandler {
    /// Creates a new handler.
    pub fn new() -> (h: Self) {
        SendMessageHandler {}
    }

    /// The conversation to add the message to; a missing one is an error.
    pub fn conversation_found<C>(&self, cmd: &SendMessageCommand, found: Result<Option<C>, ConversationRepositoryError>) -> (r: Result<C, DomainError>)
        ensures
            match found {
                Ok(Some(c)) => r == Ok::<C, DomainError>(c),
                Ok(None) => r matches Err(e) && e.code == ErrorCode::ConversationNotFound
                    && e.message@ == "No conversation found for component "@ + uuid_text(cmd.component_id.value),
                Err(ConversationRepositoryError::NotFound(id)) => r matches Err(e) && e.code == ErrorCode::ConversationNotFound
                    && e.message@ == "Conversation not found: "@ + uuid_text(id.value),
                Err(ConversationRepositoryError::Database(m)) => r matches Err(e) && e.code == ErrorCode::DatabaseError
                    && e.message@ == m@,
                Err(ConversationRepositoryError::Serialization(m)) => r matches Err(e) && e.code == ErrorCode::InternalError
                    && e.message@ == "Serialization error: "@ + m@,
            },
    {
        match found {
            Ok(Some(conv)) => Ok(conv),
            Ok(None) => Err(DomainError::new(
                ErrorCode::ConversationNotFound,
                String::from_str("No conversation found for component ").concat(cmd.component_id.to_string().as_str()),
            )),
            Err(e) => Err(map_repository_error(e)),
        }
    }

    /// The result once the message was added and the conversation updated.
    pub fn finish(&self, conversation_id: ConversationId, added: Result<StoredMessage, DomainError>, updated: Result<(), ConversationRepositoryError>) -> (r: Result<SendMessageResult, DomainError>)
        ensures
            match added {
                Err(e) => r matches Err(e2) && e2.code == e.code && e2.message@ == e.message@,
                Ok(m) => match updated {
                    Ok(()) => r matches Ok(res) && res.conversation_id == conversation_id && res.message == m,
                    Err(ConversationRepositoryError::Database(msg)) => r matches Err(e) && e.code == ErrorCode::DatabaseError
                        && e.message@ == msg@,
                    Err(ConversationRepositoryError::NotFound(id)) => r matches Err(e) && e.code == ErrorCode::ConversationNotFound
                        && e.message@ == "Conversation not found: "@ + uuid_text(id.value),
                    Err(ConversationRepositoryError::Serialization(msg)) => r matches Err(e) && e.code == ErrorCode::InternalError
                        && e.message@ == "Serialization error: "@ + msg@,
                },
            },
    {
        let message = match added {
            Err(e) => return Err(e),
            Ok(m) => m,
        };
        match updated {
            Err(e) => Err(map_repository_error(e)),
            Ok(()) => Ok(SendMessageResult { conversation_id, message }),
        }
    }
}

} // verus!
