//! Archiving a cycle. Archived cycles cannot be modified and serve as
//! historical records; both active and completed cycles can be archived.

use vstd::prelude::*;
use vstd::string::*;
use crate::foundation::{opt_str, uuid_text, CommandMetadata, CycleId, DomainError, EventId, Publication, Timestamp};
use crate::cycle::model::Cycle;

verus! {

/// Command to archive a cycle.
#[derive(Clone, Copy, Debug)]
pub struct ArchiveCycleCommand {
    /// The cycle to archive.
    pub cycle_id: CycleId,
}

/// Result of successful cycle archival.
#[derive(Clone, Copy, Debug)]
pub struct ArchiveCycleResult {
    /// The emitted event.
    pub event: CycleArchivedEvent,
}

/// Event published when a cycle is archived.
#[derive(Clone, Copy, Debug)]
pub struct CycleArchivedEvent {
    /// Unique event identifier.
    pub event_id: EventId,
    /// The cycle that was archived.
    pub cycle_id: CycleId,
    /// When the cycle was archived.
    pub archived_at: Timestamp,
}

impl CycleArchivedEvent {
    /// The event's type.
    pub fn event_type(&self) -> (t: &'static str)
        ensures
            t@ == "cycle.archived"@,
    {
        "cycle.archived"
    }
}

/// Error type for archiving a cycle.
#[derive(Clone, Debug)]
pub enum ArchiveCycleError {
    /// Cycle not found.
    CycleNotFound(CycleId),
    /// Domain error (e.g., cycle already archived).
    Domain(DomainError),
}

impl ArchiveCycleError {
    /// The error's text.
    pub open spec fn spec_text(self) -> Seq<char> {
        match self {
            ArchiveCycleError::CycleNotFound(id) => "Cycle not found: "@ + uuid_text(id.value),
            ArchiveCycleError::Domain(e) => e.message@,
        }
    }

    /// The error's text.
    pub fn to_string(&self) -> (text: String)
        ensures
            text@ == self.spec_text(),
    {
        match self {
            ArchiveCycleError::CycleNotFound(id) => String::from_str("Cycle not found: ").concat(id.to_string().as_str()),
            ArchiveCycleError::Domain(e) => e.to_string(),
        }
    }
}

impl From<DomainError> for ArchiveCycleError {
    fn from(err: DomainError) -> (e: Self) {
        ArchiveCycleError::Domain(err)
    }
}

impl vstd::std_specs::convert::FromSpecImpl<DomainError> for ArchiveCycleError {
    open spec fn obeys_from_spec() -> bool {
        true
    }

    open spec fn from_spec(err: DomainError) -> Self {
        ArchiveCycleError::Domain(err)
    }
}

/// Decisions of the archive handler.
///
/// A run goes: the caller finds the cycle, `cycle_found`; has the domain
/// archive it; updates it in the repository; hands the answer to
/// `archived_event` and publishes what it gives; `finish`. Errors of the
/// repository and the domain become `Domain`.
pub struct ArchiveCycleHandler {}

impl ArchiveCycleHandler {
    /// Creates a new handler.
    pub fn new() -> (h: Self) {
        ArchiveCycleHandler {}
    }

    /// The cycle to archive; a missing one is an error.
    pub fn cycle_found(&self, cmd: &ArchiveCycleCommand, found: Result<Option<Cycle>, DomainError>) -> (r: Result<Cycle, ArchiveCycleError>)
        ensures
            match found {
                Err(e) => r matches Err(ArchiveCycleError::Domain(e2)) && e2 == e,
                Ok(None) => r matches Err(ArchiveCycleError::CycleNotFound(id)) && id == cmd.cycle_id,
                Ok(Some(c)) => r matches Ok(c2) && c2 == c,
            },
    {
        match found {
            Err(e) => Err(ArchiveCycleError::Domain(e)),
            Ok(None) => Err(ArchiveCycleError::CycleNotFound(cmd.cycle_id)),
            Ok(Some(c)) => Ok(c),
        }
    }

    /// The event to publish, once the repository answered the update of the cycle:
    /// none unless it succeeded.
    pub fn archived_event(&self, cmd: &ArchiveCycleCommand, metadata: &CommandMetadata, stored: Result<(), DomainError>) -> (r: Result<Publication<CycleArchivedEvent>, ArchiveCycleError>)
        ensures
            match stored {
                Err(e) => r matches Err(ArchiveCycleError::Domain(e2)) && e2 == e,
                Ok(()) => r matches Ok(p)
                    && p.event.cycle_id == cmd.cycle_id
                    && opt_str(p.correlation_id) == Some(metadata.correlation_id@)
                    && opt_str(p.user_id) == Some(metadata.user_id.value@)
                    && p.causation_id is None,
            },
    {
        match stored {
            Err(e) => Err(ArchiveCycleError::Domain(e)),
            Ok(()) => {
                let event = CycleArchivedEvent { event_id: EventId::new(), cycle_id: cmd.cycle_id, archived_at: Timestamp::now() };
                Ok(Publication::for_command(event, metadata))
            },
        }
    }

    /// The handler's result, once the event was published.
    pub fn finish(&self, event: CycleArchivedEvent) -> (r: ArchiveCycleResult)
        ensures
            r.event == event,
    {
        ArchiveCycleResult { event }
    }
}

} // verus!
