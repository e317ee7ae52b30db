//! Query for the cycle tree of a session with the PrOACT letter statuses of each node, none when the session has no cycles.
//!
//! The reader answers the query as it is; the handler adds nothing to it.

use vstd::prelude::*;
use crate::foundation::SessionId;

verus! {

/// Query for the cycle tree of a session with the PrOACT letter statuses of each node, none when the session has no cycles.
#[derive(Clone, Copy, Debug)]
pub struct GetProactTreeViewQuery {
    /// The session to get the PrOACT tree for.
    pub session_id: SessionId,
}

/// Handler of the query: the reader's answer is the result.
pub struct GetProactTreeViewHandler {}

impl GetProactTreeViewHandler {
    /// Creates a new handler.
    pub fn new() -> (h: Self) {
        GetProactTreeViewHandler {}
    }
}

} // verus!
