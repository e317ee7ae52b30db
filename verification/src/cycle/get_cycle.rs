//! Query for the full view of a cycle for UI display (component statuses, progress and branching), none when the cycle is not found.
//!
//! The reader answers the query as it is; the handler adds nothing to it.

use vstd::prelude::*;
use crate::foundation::CycleId;

verus! {

/// Query for the full view of a cycle for UI display (component statuses, progress and branching), none when the cycle is not found.
#[derive(Clone, Copy, Debug)]
pub struct GetCycleQuery {
    /// The cycle ID to retrieve.
    pub cycle_id: CycleId,
}

/// Handler of the query: the reader's answer is the result.
pub struct GetCycleHandler {}

impl GetCycleHandler {
    /// Creates a new handler.
    pub fn new() -> (h: Self) {
        GetCycleHandler {}
    }
}

} // verus!
