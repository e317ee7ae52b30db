//! Regenerating a decision document from a cycle's current state and
//! persisting it (database and filesystem, behind the document repository).

use vstd::prelude::*;
use vstd::string::*;
use crate::foundation::{clone_opt, is_random_uuid, uuid_text, CycleId, DecisionDocumentId, DomainError, SessionId, UserId};
use crate::cycle::model::Cycle;
use crate::ports::{DecisionDocument, DocumentError, DocumentFormat, GenerationOptions};
use crate::session::model::Session;

verus! {

/// Command to regenerate a decision document.
#[derive(Clone, Copy, Debug)]
pub struct RegenerateDocumentCommand {
    /// Cycle to regenerate document for.
    pub cycle_id: CycleId,
    /// Output format.
    pub format: DocumentFormat,
}

impl RegenerateDocumentCommand {
    /// Creates a command for full document regeneration.
    pub fn full(cycle_id: CycleId) -> (cmd: Self)
        ensures
            cmd.cycle_id == cycle_id,
            cmd.format == DocumentFormat::Full,
    {
        RegenerateDocumentCommand { cycle_id, format: DocumentFormat::Full }
    }

    /// Creates a command for summary document regeneration.
    pub fn summary(cycle_id: CycleId) -> (cmd: Self)
        ensures
            cmd.cycle_id == cycle_id,
            cmd.format == DocumentFormat::Summary,
    {
        RegenerateDocumentCommand { cycle_id, format: DocumentFormat::Summary }
    }
}

/// Result of successful document regeneration.
#[derive(Clone, Debug)]
pub struct RegenerateDocumentResult {
    /// The regenerated document ID.
    pub document_id: DecisionDocumentId,
    /// The cycle ID the document was regenerated from.
    pub cycle_id: CycleId,
    /// The session ID.
    pub session_id: SessionId,
    /// The new version number.
    pub version: u32,
    /// The regenerated markdown content.
    pub content: String,
    /// The format used.
    pub format: DocumentFormat,
    /// Whether this was a new document or an update.
    pub is_new: bool,
}

/// Error type for document regeneration.
#[derive(Clone, Debug)]
pub enum RegenerateDocumentError {
    /// Cycle not found.
    CycleNotFound(CycleId),
    /// Session not found (data integrity issue).
    SessionNotFound(SessionId),
    /// Document generation failed.
    GenerationFailed(String),
    /// Failed to persist document.
    PersistFailed(String),
    /// Domain error.
    Domain(DomainError),
}

impl RegenerateDocumentError {
    /// The error's text.
    pub open spec fn spec_text(self) -> Seq<char> {
        match self {
            RegenerateDocumentError::CycleNotFound(id) => "Cycle not found: "@ + uuid_text(id.value),
            RegenerateDocumentError::SessionNotFound(id) => "Session not found (data integrity issue): "@ + uuid_text(id.value),
            RegenerateDocumentError::GenerationFailed(m) => "Document generation failed: "@ + m@,
            RegenerateDocumentError::PersistFailed(m) => "Failed to persist document: "@ + m@,
            RegenerateDocumentError::Domain(e) => e.message@,
        }
    }

    /// The error's text.
    pub fn to_string(&self) -> (text: String)
        ensures
            text@ == self.spec_text(),
    {
        match self {
            RegenerateDocumentError::CycleNotFound(id) => String::from_str("Cycle not found: ").concat(id.to_string().as_str()),
            RegenerateDocumentError::SessionNotFound(id) =>
                String::from_str("Session not found (data integrity issue): ").concat(id.to_string().as_str()),
            RegenerateDocumentError::GenerationFailed(m) => String::from_str("Document generation failed: ").concat(m.as_str()),
            RegenerateDocumentError::PersistFailed(m) => String::from_str("Failed to persist document: ").concat(m.as_str()),
            RegenerateDocumentError::Domain(e) => e.to_string(),
        }
    }

    /// A failed generation, with the generator's text.
    pub fn from_document_error(err: DocumentError) -> (e: Self)
        ensures
            e matches RegenerateDocumentError::GenerationFailed(m) && m@ == err.message@,
    {
        RegenerateDocumentError::GenerationFailed(err.to_string())
    }
}

impl From<DomainError> for RegenerateDocumentError {
    fn from(err: DomainError) -> (e: Self) {
        RegenerateDocumentError::Domain(err)
    }
}

impl vstd::std_specs::convert::FromSpecImpl<DomainError> for RegenerateDocumentError {
    open spec fn obeys_from_spec() -> bool {
        true
    }

    open spec fn from_spec(err: DomainError) -> Self {
        RegenerateDocumentError::Domain(err)
    }
}

/// How the regenerated content is persisted.
#[derive(Clone, Debug)]
pub enum PersistPlan {
    /// The cycle's document gets the new content and is updated.
    UpdateExisting(DecisionDocument),
    /// A first document for the cycle is created, owned by the session's user.
    CreateNew { cycle_id: CycleId, user_id: UserId },
}

/// Decisions of the regenerate-document handler.
///
/// A run goes: the caller finds the cycle, `cycle_found`; the session,
/// `session_found`; generates the content with `generation_options` (a
/// failure is `GenerationFailed`); looks up the cycle's document,
/// `persist_plan`; updates or saves `document_to_persist` as the plan says
/// (a failure is `PersistFailed`); `finish`.
pub struct RegenerateDocumentHandler {}

impl RegenerateDocumentHandler {
    /// Creates a new handler.
    pub fn new() -> (h: Self) {
        RegenerateDocumentHandler {}
    }

    /// The cycle to regenerate from; a missing one is an error.
    pub fn cycle_found(&self, cmd: &RegenerateDocumentCommand, found: Result<Option<Cycle>, DomainError>) -> (r: Result<Cycle, RegenerateDocumentError>)
        ensures
            match found {
                Err(e) => r matches Err(RegenerateDocumentError::Domain(e2)) && e2 == e,
                Ok(None) => r matches Err(RegenerateDocumentError::CycleNotFound(id)) && id == cmd.cycle_id,
                Ok(Some(c)) => r matches Ok(c2) && c2 == c,
            },
    {
        match found {
            Err(e) => Err(RegenerateDocumentError::Domain(e)),
            Ok(None) => Err(RegenerateDocumentError::CycleNotFound(cmd.cycle_id)),
            Ok(Some(c)) => Ok(c),
        }
    }

    /// The cycle's session, for its title and owner; a missing one is a
    /// data integrity error.
    pub fn session_found(&self, cycle: &Cycle, found: Result<Option<Session>, DomainError>) -> (r: Result<Session, RegenerateDocumentError>)
        ensures
            match found {
                Err(e) => r matches Err(RegenerateDocumentError::Domain(e2)) && e2 == e,
                Ok(None) => r matches Err(RegenerateDocumentError::SessionNotFound(id)) && id == cycle.session_id,
                Ok(Some(s)) => r matches Ok(s2) && s2 == s,
            },
    {
        match found {
            Err(e) => Err(RegenerateDocumentError::Domain(e)),
            Ok(None) => Err(RegenerateDocumentError::SessionNotFound(cycle.session_id)),
            Ok(Some(s)) => Ok(s),
        }
    }

    /// Options of the generation: empty sections and metadata only for a
    /// full document, version info always.
    pub fn generation_options(&self, cmd: &RegenerateDocumentCommand) -> (o: GenerationOptions)
        ensures
            o.format == cmd.format,
            o.include_empty_sections == (cmd.format == DocumentFormat::Full),
            o.include_metadata == (cmd.format == DocumentFormat::Full),
            o.include_version_info,
    {
        let full = cmd.format == DocumentFormat::Full;
        GenerationOptions {
            format: cmd.format,
            include_empty_sections: full,
            include_metadata: full,
            include_version_info: true,
        }
    }

    /// An existing document of the cycle is updated; otherwise a new one
    /// is created for the session's user.
    pub fn persist_plan(&self, cmd: &RegenerateDocumentCommand, session: &Session, existing: Result<Option<DecisionDocument>, DomainError>) -> (r: Result<PersistPlan, RegenerateDocumentError>)
        ensures
            match existing {
                Err(e) => r matches Err(RegenerateDocumentError::Domain(e2)) && e2 == e,
                Ok(Some(d)) => r matches Ok(PersistPlan::UpdateExisting(d2)) && d2 == d,
                Ok(None) => r matches Ok(PersistPlan::CreateNew { cycle_id, user_id })
                    && cycle_id == cmd.cycle_id && user_id == session.user_id,
            },
    {
        match existing {
            Err(e) => Err(RegenerateDocumentError::Domain(e)),
            Ok(Some(d)) => Ok(PersistPlan::UpdateExisting(d)),
            Ok(None) => Ok(PersistPlan::CreateNew { cycle_id: cmd.cycle_id, user_id: session.user_id.clone() }),
        }
    }

    /// The document to persist with the new content: the existing one at its
    /// next version, or a first document of the cycle (version 1).
    pub fn document_to_persist(&self, plan: &PersistPlan) -> (d: DecisionDocument)
        requires
            plan matches PersistPlan::UpdateExisting(old) ==> old.version < u32::MAX,
        ensures
            match plan {
                PersistPlan::UpdateExisting(old) => d == (DecisionDocument { version: (old.version + 1) as u32, ..*old }),
                PersistPlan::CreateNew { cycle_id, user_id } => {
                    &&& is_random_uuid(d.id.value)
                    &&& d.cycle_id == *cycle_id
                    &&& d.user_id == *user_id
                    &&& d.version == 1
                    &&& d.parent_document_id is None
                    &&& d.branch_point is None
                    &&& d.branch_label is None
                },
            },
    {
        match plan {
            PersistPlan::UpdateExisting(old) => DecisionDocument {
                id: old.id,
                cycle_id: old.cycle_id,
                user_id: old.user_id.clone(),
                version: old.version + 1,
                parent_document_id: old.parent_document_id,
                branch_point: old.branch_point,
                branch_label: clone_opt(&old.branch_label),
            },
            PersistPlan::CreateNew { cycle_id, user_id } => DecisionDocument::new(*cycle_id, user_id.clone()),
        }
    }

    /// The handler's result once the document was persisted: its identifier
    /// and version, and whether it is new (no document of the cycle existed);
    /// a failed persist is `PersistFailed`.
    pub fn finish(&self, cmd: &RegenerateDocumentCommand, cycle: &Cycle, plan: &PersistPlan, document: &DecisionDocument, content: String, persisted: Result<(), DomainError>) -> (r: Result<RegenerateDocumentResult, RegenerateDocumentError>)
        ensures
            match persisted {
                Err(e) => r matches Err(RegenerateDocumentError::PersistFailed(m)) && m@ == e.message@,
                Ok(()) => r matches Ok(res) && res.document_id == document.id && res.cycle_id == cmd.cycle_id
                    && res.session_id == cycle.session_id && res.version == document.version
                    && res.content == content && res.format == cmd.format
                    && res.is_new == (plan is CreateNew),
            },
    {
        let is_new = match plan {
            PersistPlan::CreateNew { .. } => true,
            PersistPlan::UpdateExisting(_) => false,
        };
        match persisted {
            Err(e) => Err(RegenerateDocumentError::PersistFailed(e.to_string())),
            Ok(()) => Ok(RegenerateDocumentResult {
                document_id: document.id,
                cycle_id: cmd.cycle_id,
                session_id: cycle.session_id,
                version: document.version,
                content,
                format: cmd.format,
                is_new,
            }),
        }
    }
}

} // verus!
