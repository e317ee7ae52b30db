//! The session data that the handlers read and hand on.

use vstd::prelude::*;
use crate::foundation::{CycleId, DomainError, SessionId, SessionStatus, Timestamp, UserId};
use crate::ports::AccessDeniedReason;

verus! {

/// A decision session, as the handlers read it.
#[derive(Debug)]
pub struct Session {
    pub id: SessionId,
    pub user_id: UserId,
    pub title: String,
    pub description: Option<String>,
    pub status: SessionStatus,
    pub cycle_ids: Vec<CycleId>,
    pub created_at: Timestamp,
    pub updated_at: Timestamp,
}

/// The cycle list after adding `cycle_id`: unchanged when the cycle is
/// already listed, else the cycle appended.
pub open spec fn with_cycle(ids: Seq<CycleId>, cycle_id: CycleId) -> Seq<CycleId> {
    if ids.contains(cycle_id) { ids } else { ids.push(cycle_id) }
}

/// Whether `cycle_id` occurs exactly once in `ids`.
pub open spec fn listed_once(ids: Seq<CycleId>, cycle_id: CycleId) -> bool {
    exists|i: int| #![trigger ids[i]] 0 <= i < ids.len() && ids[i] == cycle_id
        && forall|j: int| #![trigger ids[j]] 0 <= j < ids.len() && ids[j] == cycle_id ==> j == i
}

impl Session {
    /// Adds a cycle to the session's list, once: a cycle that is already
    /// listed is not added again. Says whether the cycle is the session's
    /// root cycle, that is whether the session had no cycle before.
    pub fn add_cycle(&mut self, cycle_id: CycleId) -> (is_root: bool)
        ensures
            final(self).cycle_ids@ == with_cycle(old(self).cycle_ids@, cycle_id),
            is_root == (old(self).cycle_ids@.len() == 0),
            final(self).id == old(self).id,
            final(self).user_id == old(self).user_id,
            final(self).title@ == old(self).title@,
            final(self).description == old(self).description,
            final(self).status == old(self).status,
            final(self).created_at == old(self).created_at,
            final(self).updated_at == old(self).updated_at,
    {
        let is_root = self.cycle_ids.len() == 0;
        let mut i: usize = 0;
        while i < self.cycle_ids.len()
            invariant
                i <= self.cycle_ids@.len(),
                is_root == (self.cycle_ids@.len() == 0),
                forall|k: int| 0 <= k < i ==> self.cycle_ids@[k] != cycle_id,
            decreases self.cycle_ids@.len() - i,
        {
            if self.cycle_ids[i] == cycle_id {
                return is_root;
            }
            i = i + 1;
        }
        self.cycle_ids.push(cycle_id);
        is_root
    }
}

/// Adding a cycle twice lists it once: the second addition changes
/// nothing and does not mark the cycle as root; a cycle not listed before
/// is then listed exactly once, at the end.
pub proof fn law_add_cycle_idempotent(ids: Seq<CycleId>, cycle_id: CycleId)
    ensures
        with_cycle(with_cycle(ids, cycle_id), cycle_id) == with_cycle(ids, cycle_id),
        with_cycle(ids, cycle_id).contains(cycle_id),
        with_cycle(ids, cycle_id).len() > 0,
        !ids.contains(cycle_id) ==> listed_once(with_cycle(ids, cycle_id), cycle_id),
        !ids.contains(cycle_id) ==> with_cycle(ids, cycle_id).len() == ids.len() + 1,
{
    let r = with_cycle(ids, cycle_id);
    if ids.contains(cycle_id) {
    } else {
        assert(r[ids.len() as int] == cycle_id);
        assert forall|j: int| #![trigger r[j]] 0 <= j < r.len() && r[j] == cycle_id implies j == ids.len() as int by {
            if j < ids.len() {
                assert(ids[j] == cycle_id);
            }
        }
    }
}

/// Errors of the session handlers.
#[derive(Clone, Debug)]
pub enum SessionError {
    /// The membership check refused the action.
    AccessDenied(AccessDeniedReason),
    /// No session with this identifier.
    NotFound(SessionId),
    /// The user does not own the session.
    Forbidden,
    /// An error of the domain or a port.
    Domain(DomainError),
}

impl From<DomainError> for SessionError {
    fn from(err: DomainError) -> (e: Self) {
        SessionError::Domain(err)
    }
}

impl vstd::std_specs::convert::FromSpecImpl<DomainError> for SessionError {
    open spec fn obeys_from_spec() -> bool {
        true
    }

    open spec fn from_spec(err: DomainError) -> Self {
        SessionError::Domain(err)
    }
}

/// A session as the reader shows it.
#[derive(Clone, Debug)]
pub struct SessionView {
    pub id: SessionId,
    pub user_id: UserId,
    pub title: String,
    pub description: Option<String>,
    pub status: SessionStatus,
    pub cycle_count: u32,
    pub created_at: Timestamp,
    pub updated_at: Timestamp,
}

} // verus!
