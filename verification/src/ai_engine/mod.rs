//! AI engine handlers: starting, messaging in, routing within, reading and
//! ending the AI conversation of a cycle.

pub mod end_conversation;
pub mod get_conversation_state;
pub mod model;
pub mod route_intent;
pub mod send_message;
pub mod start_conversation;
