//! Application layer of the decision-coaching backend: the decisions that the
//! command, query and event handlers make, written as verified functions.
//!
//! Each handler is split along its awaits: the library decides, from what an
//! outside call answered, whether the handler fails (and with which error),
//! finishes (and with which result), or which call comes next with which
//! arguments. The caller owns the ports and performs the calls.

pub mod foundation;
pub mod json;
pub mod stream_message;
pub mod ai_engine;
pub mod analysis;
pub mod conversation;
pub mod cycle;
pub mod membership;
pub mod ports;
pub mod session;
pub mod user;
pub mod dashboard;
