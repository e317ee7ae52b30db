//! Query for the hierarchical tree of a session's cycles (the primary cycle and its branches), none when the session has no cycles.
//!
//! The reader answers the query as it is; the handler adds nothing to it.

use vstd::prelude::*;
use crate::foundation::SessionId;

verus! {

/// Query for the hierarchical tree of a session's cycles (the primary cycle and its branches), none when the session has no cycles.
#[derive(Clone, Copy, Debug)]
pub struct GetCycleTreeQuery {
    /// The session to get the cycle tree for.
    pub session_id: SessionId,
}

/// Handler of the query: the reader's answer is the result.
pub struct GetCycleTreeHandler {}

impl GetCycleTreeHandler {
    /// Creates a new handler.
    pub fn new() -> (h: Self) {
        GetCycleTreeHandler {}
    }
}

} // verus!
