//! Decision profiles: creating, deleting and updating them, and the queries
//! that read them.

pub mod model;
pub mod create_profile;
pub mod delete_profile;
pub mod get_agent_instructions;
pub mod get_profile_summary;
pub mod record_outcome;
pub mod update_profile_from_decision;
