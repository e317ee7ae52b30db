//! The cycle data that the handlers read and hand on.

use vstd::prelude::*;
use crate::foundation::{ComponentStatus, ComponentType, CycleId, SessionId, Timestamp};
use crate::json::JsonValue;

verus! {

/// Lifecycle status of a cycle.
#[derive(Clone, Copy, Debug, PartialEq, Eq, Structural)]
pub enum CycleStatus {
    Active,
    Completed,
    Archived,
}

/// A component of a cycle: its progress and structured output.
#[derive(Debug)]
pub struct Component {
    pub component_type: ComponentType,
    pub status: ComponentStatus,
    pub output: JsonValue,
}

/// A decision cycle, as the handlers read it.
#[derive(Debug)]
pub struct Cycle {
    pub id: CycleId,
    pub session_id: SessionId,
    pub parent_cycle_id: Option<CycleId>,
    pub status: CycleStatus,
    pub current_step: ComponentType,
    pub components: Vec<Component>,
    pub created_at: Timestamp,
}

/// Index of the first component of the given type, if any.
pub open spec fn component_index(components: Seq<Component>, t: ComponentType) -> Option<int>
    decreases components.len(),
{
    if components.len() == 0 {
        None
    } else {
        match component_index(components.drop_last(), t) {
            Some(k) => Some(k),
            None => if components.last().component_type == t { Some(components.len() - 1) } else { None },
        }
    }
}

impl Cycle {
    /// The component of the given type, if the cycle has one.
    pub fn component(&self, t: ComponentType) -> (r: Option<&Component>)
        ensures
            match component_index(self.components@, t) {
                Some(k) => r == Some(&self.components@[k]),
                None => r is None,
            },
    {
        let mut i: usize = 0;
        while i < self.components.len()
            invariant
                i <= self.components.len(),
                component_index(self.components@.take(i as int), t) is None,
            decreases self.components.len() - i,
        {
            proof {
                assert(self.components@.take(i as int + 1).drop_last() =~= self.components@.take(i as int));
            }
            if self.components[i].component_type == t {
                proof {
                    lemma_index_prefix(self.components@, t, i as int + 1);
                }
                return Some(&self.components[i]);
            }
            i = i + 1;
        }
        proof {
            assert(self.components@.take(self.components@.len() as int) =~= self.components@);
        }
        None
    }
}

/// A cycle's component of a type is found exactly when the cycle has a
/// component of that type, whatever its status or output; what is found is
/// the first component of that type.
pub proof fn law_component_found_iff_present(components: Seq<Component>, t: ComponentType)
    ensures
        component_index(components, t) is Some <==>
            exists|k: int| 0 <= k < components.len() && #[trigger] components[k].component_type == t,
        component_index(components, t) matches Some(k) ==> 0 <= k < components.len()
            && components[k].component_type == t
            && forall|j: int| 0 <= j < k ==> #[trigger] components[j].component_type != t,
    decreases components.len(),
{
    if components.len() > 0 {
        let rest = components.drop_last();
        law_component_found_iff_present(rest, t);
        if exists|k: int| 0 <= k < components.len() && #[trigger] components[k].component_type == t {
            let k = choose|k: int| 0 <= k < components.len() && #[trigger] components[k].component_type == t;
            if k < rest.len() {
                assert(rest[k] == components[k]);
            }
        }
        if exists|k: int| 0 <= k < rest.len() && #[trigger] rest[k].component_type == t {
            let k = choose|k: int| 0 <= k < rest.len() && #[trigger] rest[k].component_type == t;
            assert(components[k] == rest[k]);
        }
        match component_index(components, t) {
            Some(k) => {
                assert forall|j: int| 0 <= j < k implies #[trigger] components[j].component_type != t by {
                    assert(components[j] == rest[j]);
                }
            },
            None => {},
        }
    }
}

/// The first component of a type found in a prefix is the first in the whole.
pub proof fn lemma_index_prefix(components: Seq<Component>, t: ComponentType, n: int)
    requires
        0 <= n <= components.len(),
        component_index(components.take(n), t) is Some,
    ensures
        component_index(components, t) == component_index(components.take(n), t),
    decreases components.len() - n,
{
    if n < components.len() {
        assert(components.take(n + 1).drop_last() =~= components.take(n));
        lemma_index_prefix(components, t, n + 1);
    } else {
        assert(components.take(n) =~= components);
    }
}

} // verus!
