//! Branching a cycle: exploring a "what-if" without losing existing work.
//! A branch copies the components completed before the branch point, marks
//! the branch point for revision, and starts fresh after it; the domain
//! makes the branch.

use vstd::prelude::*;
use vstd::string::*;
use crate::foundation::{opt_str, uuid_text, CommandMetadata, ComponentType, CycleId, DomainError, EventId, Publication, SessionId, Timestamp};
use crate::cycle::model::Cycle;
use crate::ports::{AccessDeniedReason, AccessResult};

verus! {

/// Command to branch an existing cycle at a specific component.
#[derive(Clone, Debug)]
pub struct BranchCycleCommand {
    /// The cycle to branch from.
    pub parent_cycle_id: CycleId,
    /// The component where branching occurs; it is marked for revision in
    /// the new branch.
    pub branch_point: ComponentType,
    /// Optional label for the branch (e.g., "Remote Option").
    pub branch_label: Option<String>,
}

/// Result of successful cycle branching.
#[derive(Debug)]
pub struct BranchCycleResult {
    /// The newly created branch cycle.
    pub branch: Cycle,
    /// The emitted event.
    pub event: CycleBranchedEvent,
}

/// Event published when a cycle is branched.
#[derive(Clone, Copy, Debug)]
pub struct CycleBranchedEvent {
    /// Unique event identifier.
    pub event_id: EventId,
    /// The new branch cycle that was created.
    pub cycle_id: CycleId,
    /// The parent cycle that was branched from.
    pub parent_cycle_id: CycleId,
    /// The session this cycle belongs to.
    pub session_id: SessionId,
    /// The component where branching occurred.
    pub branch_point: ComponentType,
    /// When the branch was created.
    pub created_at: Timestamp,
}

impl CycleBranchedEvent {
    /// The event's type.
    pub fn event_type(&self) -> (t: &'static str)
        ensures
            t@ == "cycle.branched"@,
    {
        "cycle.branched"
    }
}

/// Error type for cycle branching.
#[derive(Clone, Debug)]
pub enum BranchCycleError {
    /// Parent cycle not found.
    CycleNotFound(CycleId),
    /// Access denied by membership check.
    AccessDenied(AccessDeniedReason),
    /// Domain error (e.g., invalid branch point).
    Domain(DomainError),
}

impl BranchCycleError {
    /// The error's text.
    pub open spec fn spec_text(self) -> Seq<char> {
        match self {
            BranchCycleError::CycleNotFound(id) => "Cycle not found: "@ + uuid_text(id.value),
            BranchCycleError::AccessDenied(reason) => "Access denied: "@ + reason.description@,
            BranchCycleError::Domain(e) => e.message@,
        }
    }

    /// The error's text.
    pub fn to_string(&self) -> (text: String)
        ensures
            text@ == self.spec_text(),
    {
        match self {
            BranchCycleError::CycleNotFound(id) => String::from_str("Cycle not found: ").concat(id.to_string().as_str()),
            BranchCycleError::AccessDenied(reason) => String::from_str("Access denied: ").concat(reason.description.as_str()),
            BranchCycleError::Domain(e) => e.to_string(),
        }
    }
}

impl From<DomainError> for BranchCycleError {
    fn from(err: DomainError) -> (e: Self) {
        BranchCycleError::Domain(err)
    }
}

impl vstd::std_specs::convert::FromSpecImpl<DomainError> for BranchCycleError {
    open spec fn obeys_from_spec() -> bool {
        true
    }

    open spec fn from_spec(err: DomainError) -> Self {
        BranchCycleError::Domain(err)
    }
}

/// Decisions of the branch-cycle handler.
///
/// A run goes: the caller finds the parent cycle, `parent_found`; asks the
/// access checker whether the command's user may create a cycle in the
/// parent's session, `access_checked`; has the domain branch the parent at
/// the branch point with the label, and saves the branch; hands the answer to
/// `branched_event` and publishes what it gives; `finish`.
pub struct BranchCycleHandler {}

impl BranchCycleHandler {
    /// Creates a new handler.
    pub fn new() -> (h: Self) {
        BranchCycleHandler {}
    }

    /// The cycle to branch from; a missing one is an error.
    pub fn parent_found(&self, cmd: &BranchCycleCommand, found: Result<Option<Cycle>, DomainError>) -> (r: Result<Cycle, BranchCycleError>)
        ensures
            match found {
                Err(e) => r matches Err(BranchCycleError::Domain(e2)) && e2 == e,
                Ok(None) => r matches Err(BranchCycleError::CycleNotFound(id)) && id == cmd.parent_cycle_id,
                Ok(Some(c)) => r matches Ok(c2) && c2 == c,
            },
    {
        match found {
            Err(e) => Err(BranchCycleError::Domain(e)),
            Ok(None) => Err(BranchCycleError::CycleNotFound(cmd.parent_cycle_id)),
            Ok(Some(c)) => Ok(c),
        }
    }

    /// The membership check: a refusal is `AccessDenied` with its reason.
    pub fn access_checked(&self, checked: Result<AccessResult, DomainError>) -> (r: Result<(), BranchCycleError>)
        ensures
            match checked {
                Err(e) => r matches Err(BranchCycleError::Domain(e2)) && e2 == e,
                Ok(AccessResult::Allowed) => r is Ok,
                Ok(AccessResult::Denied(reason)) => r matches Err(BranchCycleError::AccessDenied(r2)) && r2 == reason,
            },
    {
        match checked {
            Err(e) => Err(BranchCycleError::Domain(e)),
            Ok(AccessResult::Allowed) => Ok(()),
            Ok(AccessResult::Denied(reason)) => Err(BranchCycleError::AccessDenied(reason)),
        }
    }

    /// The event to publish, once the repository answered the save of the branch:
    /// none unless it succeeded.
    pub fn branched_event(&self, cmd: &BranchCycleCommand, parent: &Cycle, branch: &Cycle, metadata: &CommandMetadata, stored: Result<(), DomainError>) -> (r: Result<Publication<CycleBranchedEvent>, BranchCycleError>)
        ensures
            match stored {
                Err(e) => r matches Err(BranchCycleError::Domain(e2)) && e2 == e,
                Ok(()) => r matches Ok(p)
                    && p.event.cycle_id == branch.id
                    && p.event.parent_cycle_id == cmd.parent_cycle_id
                    && p.event.session_id == parent.session_id
                    && p.event.branch_point == cmd.branch_point
                    && p.event.created_at == branch.created_at
                    && opt_str(p.correlation_id) == Some(metadata.correlation_id@)
                    && opt_str(p.user_id) == Some(metadata.user_id.value@)
                    && p.causation_id is None,
            },
    {
        match stored {
            Err(e) => Err(BranchCycleError::Domain(e)),
            Ok(()) => {
                let event = CycleBranchedEvent {
                    event_id: EventId::new(),
                    cycle_id: branch.id,
                    parent_cycle_id: cmd.parent_cycle_id,
                    session_id: parent.session_id,
                    branch_point: cmd.branch_point,
                    created_at: branch.created_at,
                };
                Ok(Publication::for_command(event, metadata))
            },
        }
    }

    /// The handler's result, once the event was published.
    pub fn finish(&self, branch: Cycle, event: CycleBranchedEvent) -> (r: BranchCycleResult)
        ensures
            r.branch == branch,
            r.event == event,
    {
        BranchCycleResult { branch, event }
    }
}

} // verus!
