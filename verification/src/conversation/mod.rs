//! Conversation handlers: sending a message, reading a conversation, and
//! regenerating the last AI response.

pub mod get_conversation;
pub mod regenerate_response;
pub mod send_message;
