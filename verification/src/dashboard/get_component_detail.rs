//! The detail view of one component of a cycle, which the dashboard reader
//! answers as it stands.

use vstd::prelude::*;
use crate::foundation::{ComponentType, CycleId, UserId};

verus! {

/// Query for the detail of one component.
#[derive(Clone, Debug)]
pub struct GetComponentDetailQuery {
    /// The cycle that holds the component.
    pub cycle_id: CycleId,
    /// The component's type.
    pub component_type: ComponentType,
    /// The user asking, for authorization.
    pub user_id: UserId,
}

/// Handler of the component-detail query; the caller hands the query to the
/// dashboard reader.
pub struct GetComponentDetailHandler {}

impl GetComponentDetailHandler {
    /// Creates a new handler.
    pub fn new() -> (h: Self) {
        GetComponentDetailHandler {}
    }
}

} // verus!
