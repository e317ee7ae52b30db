//! Reading a component of a cycle: its status and full output.

use vstd::prelude::*;
use vstd::string::*;
use crate::foundation::{uuid_text, ComponentStatus, ComponentType, CycleId, DomainError, ErrorCode};
use crate::cycle::model::{component_index, Cycle};
use crate::json::JsonValue;

verus! {

/// Query to get a component from a cycle.
#[derive(Clone, Copy, Debug)]
pub struct GetComponentQuery {
    /// The cycle containing the component.
    pub cycle_id: CycleId,
    /// The component type to retrieve.
    pub component_type: ComponentType,
}

/// Result of successful component query.
#[derive(Debug)]
pub struct GetComponentResult {
    /// The cycle ID.
    pub cycle_id: CycleId,
    /// The component type.
    pub component_type: ComponentType,
    /// The component status.
    pub status: ComponentStatus,
    /// The component output.
    pub output: JsonValue,
}

/// Error type for getting a component.
#[derive(Clone, Debug)]
pub enum GetComponentError {
    /// Cycle not found.
    CycleNotFound(CycleId),
    /// Component not found.
    ComponentNotFound(CycleId, ComponentType),
    /// Infrastructure error.
    Infrastructure(String),
}

impl GetComponentError {
    /// The error's text.
    pub open spec fn spec_text(self) -> Seq<char> {
        match self {
            GetComponentError::CycleNotFound(id) => "Cycle not found: "@ + uuid_text(id.value),
            GetComponentError::ComponentNotFound(id, t) =>
                "Component "@ + t.spec_debug_name() + " not found in cycle: "@ + uuid_text(id.value),
            GetComponentError::Infrastructure(m) => "Infrastructure error: "@ + m@,
        }
    }

    /// The error's text.
    pub fn to_string(&self) -> (text: String)
        ensures
            text@ == self.spec_text(),
    {
        match self {
            GetComponentError::CycleNotFound(id) => String::from_str("Cycle not found: ").concat(id.to_string().as_str()),
            GetComponentError::ComponentNotFound(id, t) => String::from_str("Component ")
                .concat(t.debug_name().as_str())
                .concat(" not found in cycle: ")
                .concat(id.to_string().as_str()),
            GetComponentError::Infrastructure(m) => String::from_str("Infrastructure error: ").concat(m.as_str()),
        }
    }

    /// A domain error, by its kind: a missing cycle or component (under a
    /// fresh identifier, since the error does not carry one), or an
    /// infrastructure error with the error's message.
    pub fn from(err: DomainError) -> (e: Self)
        ensures
            err.code == ErrorCode::CycleNotFound ==> e is CycleNotFound,
            err.code == ErrorCode::ComponentNotFound ==> (e matches GetComponentError::ComponentNotFound(_, t)
                && t == ComponentType::IssueRaising),
            err.code != ErrorCode::CycleNotFound && err.code != ErrorCode::ComponentNotFound ==>
                (e matches GetComponentError::Infrastructure(m) && m@ == err.message@),
    {
        match err.code {
            ErrorCode::CycleNotFound => GetComponentError::CycleNotFound(CycleId::new()),
            ErrorCode::ComponentNotFound => GetComponentError::ComponentNotFound(CycleId::new(), ComponentType::IssueRaising),
            _ => GetComponentError::Infrastructure(err.message),
        }
    }
}

/// Decisions of the component query, from the cycle the repository read.
pub struct GetComponentHandler {}

impl GetComponentHandler {
    /// Creates a new handler.
    pub fn new() -> (h: Self) {
        GetComponentHandler {}
    }

    /// The component's status and output; a missing cycle or component is
    /// an error, and a failed read is mapped by `GetComponentError::from`.
    pub fn handle(&self, query: &GetComponentQuery, found: Result<Option<Cycle>, DomainError>) -> (r: Result<GetComponentResult, GetComponentError>)
        ensures
            match found {
                Err(e) => if e.code == ErrorCode::CycleNotFound {
                    r matches Err(GetComponentError::CycleNotFound(_))
                } else if e.code == ErrorCode::ComponentNotFound {
                    r matches Err(GetComponentError::ComponentNotFound(_, t)) && t == ComponentType::IssueRaising
                } else {
                    r matches Err(GetComponentError::Infrastructure(m)) && m@ == e.message@
                },
                Ok(None) => r matches Err(GetComponentError::CycleNotFound(id)) && id == query.cycle_id,
                Ok(Some(c)) => match component_index(c.components@, query.component_type) {
                    None => r matches Err(GetComponentError::ComponentNotFound(id, t))
                        && id == query.cycle_id && t == query.component_type,
                    Some(k) => r matches Ok(res) && res.cycle_id == query.cycle_id
                        && res.component_type == query.component_type
                        && res.status == c.components@[k].status && res.output == c.components@[k].output,
                },
            },
            found is Err ==> r is Err,
    {
        let cycle = match found {
            Err(e) => return Err(GetComponentError::from(e)),
            Ok(None) => return Err(GetComponentError::CycleNotFound(query.cycle_id)),
            Ok(Some(c)) => c,
        };
        let ghost components = cycle.components@;
        let k = match find_component(&cycle, query.component_type) {
            None => return Err(GetComponentError::ComponentNotFound(query.cycle_id, query.component_type)),
            Some(k) => k,
        };
        let mut components = cycle.components;
        let component = components.remove(k);
        Ok(GetComponentResult {
            cycle_id: query.cycle_id,
            component_type: query.component_type,
            status: component.status,
            output: component.output,
        })
    }
}

/// Position of the first component of the given type, if any.
pub fn find_component(cycle: &Cycle, t: ComponentType) -> (r: Option<usize>)
    ensures
        match component_index(cycle.components@, t) {
            Some(k) => r == Some(k as usize) && 0 <= k < cycle.components@.len(),
            None => r is None,
        },
{
    let mut i: usize = 0;
    while i < cycle.components.len()
        invariant
            i <= cycle.components.len(),
            component_index(cycle.components@.take(i as int), t) is None,
        decreases cycle.components.len() - i,
    {
        proof {
            assert(cycle.components@.take(i as int + 1).drop_last() =~= cycle.components@.take(i as int));
        }
        if cycle.components[i].component_type == t {
            proof {
                crate::cycle::model::lemma_index_prefix(cycle.components@, t, i as int + 1);
            }
            return Some(i);
        }
        i = i + 1;
    }
    proof {
        assert(cycle.components@.take(cycle.components@.len() as int) =~= cycle.components@);
    }
    None
}

} // verus!
