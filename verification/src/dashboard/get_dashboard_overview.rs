//! The overview of a session's dashboard, which the dashboard reader answers
//! as it stands.

use vstd::prelude::*;
use crate::foundation::{CycleId, SessionId, UserId};

verus! {

/// Query for the overview of a session's dashboard.
#[derive(Clone, Debug)]
pub struct GetDashboardOverviewQuery {
    /// The session.
    pub session_id: SessionId,
    /// A cycle of the session; the active one where none is given.
    pub cycle_id: Option<CycleId>,
    /// The user asking, for authorization.
    pub user_id: UserId,
}

/// Handler of the overview query; the caller hands the query to the
/// dashboard reader.
pub struct GetDashboardOverviewHandler {}

impl GetDashboardOverviewHandler {
    /// Creates a new handler.
    pub fn new() -> (h: Self) {
        GetDashboardOverviewHandler {}
    }
}

} // verus!
