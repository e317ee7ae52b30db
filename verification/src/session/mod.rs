//! Session handlers: creating, reading, listing and renaming sessions, and
//! tracking the cycles of a session.

pub mod model;
pub mod create_session;
pub mod get_session;
pub mod list_user_sessions;
pub mod rename_session;
pub mod session_cycle_tracker;
