//! Comparing cycles side by side. A comparison needs at least two cycles;
//! the dashboard reader builds it.

use vstd::prelude::*;
use vstd::string::*;
use crate::foundation::{CycleId, UserId};
use crate::dashboard::error::DashboardError;

verus! {

/// Query to compare several cycles.
#[derive(Clone, Debug)]
pub struct CompareCyclesQuery {
    /// The cycles to compare (at least two).
    pub cycle_ids: Vec<CycleId>,
    /// The user asking, for authorization.
    pub user_id: UserId,
}

/// Decisions of the compare-cycles handler.
///
/// A run goes: `query_checked`; the caller hands the cycles and the user to
/// the dashboard reader and returns its answer as it stands.
pub struct CompareCyclesHandler {}

impl CompareCyclesHandler {
    /// Creates a new handler.
    pub fn new() -> (h: Self) {
        CompareCyclesHandler {}
    }

    /// A comparison takes at least two cycles.
    pub fn query_checked(&self, query: &CompareCyclesQuery) -> (r: Result<(), DashboardError>)
        ensures
            r is Ok <==> query.cycle_ids@.len() >= 2,
            r matches Err(e) ==> e matches DashboardError::InvalidInput(m)
                && m@ == "At least 2 cycles required for comparison"@,
    {
        if query.cycle_ids.len() < 2 {
            return Err(DashboardError::InvalidInput(String::from_str("At least 2 cycles required for comparison")));
        }
        Ok(())
    }
}

} // verus!
