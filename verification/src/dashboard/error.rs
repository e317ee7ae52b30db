//! Errors of the dashboard reader and its queries.

use vstd::prelude::*;
use crate::foundation::{ComponentType, CycleId, SessionId};

verus! {

/// Why a dashboard query failed.
#[derive(Clone, Debug)]
pub enum DashboardError {
    /// The query itself is malformed.
    InvalidInput(String),
    /// The user may not see the data.
    Unauthorized,
    /// The session does not exist.
    SessionNotFound(SessionId),
    /// The cycle does not exist.
    CycleNotFound(CycleId),
    /// The cycle has no such component.
    ComponentNotFound(ComponentType),
    /// The store failed.
    Database(String),
}

} // verus!
