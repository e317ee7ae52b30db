//! Branching a cycle together with its document: branching at a component
//! yields both the new cycle and a document for it.

use vstd::prelude::*;
use vstd::string::*;
use crate::foundation::{uuid_text, ComponentType, CycleId, DecisionDocumentId, DomainError, UserId};
use crate::cycle::model::Cycle;
use crate::ports::{DecisionDocument, DocumentError};
use crate::session::model::Session;

verus! {

/// Command to branch a cycle and create its document.
#[derive(Clone, Debug)]
pub struct BranchWithDocumentCommand {
    /// The cycle to branch from.
    pub parent_cycle_id: CycleId,
    /// The component where branching occurs.
    pub branch_point: ComponentType,
    /// Optional label for the branch (e.g., "Remote Option").
    pub branch_label: Option<String>,
    /// The user performing the branch.
    pub user_id: UserId,
}

/// Result of successful branch with document creation.
#[derive(Debug)]
pub struct BranchWithDocumentResult {
    /// The newly created branch cycle.
    pub branch_cycle: Cycle,
    /// The document created for the branch.
    pub document: DecisionDocument,
    /// The generated document content.
    pub content: String,
}

/// Error type for branch with document operations.
#[derive(Clone, Debug)]
pub enum BranchWithDocumentError {
    /// Parent cycle not found.
    CycleNotFound(CycleId),
    /// Parent document not found.
    ParentDocumentNotFound(CycleId),
    /// Session not found.
    SessionNotFound,
    /// Domain error (e.g., invalid branch point).
    Domain(DomainError),
    /// Document generation failed.
    GenerationFailed(String),
}

impl BranchWithDocumentError {
    /// The error's text.
    pub open spec fn spec_text(self) -> Seq<char> {
        match self {
            BranchWithDocumentError::CycleNotFound(id) => "Cycle not found: "@ + uuid_text(id.value),
            BranchWithDocumentError::ParentDocumentNotFound(id) => "Parent document not found for cycle: "@ + uuid_text(id.value),
            BranchWithDocumentError::SessionNotFound => "Session not found"@,
            BranchWithDocumentError::Domain(e) => e.message@,
            BranchWithDocumentError::GenerationFailed(m) => "Document generation failed: "@ + m@,
        }
    }

    /// The error's text.
    pub fn to_string(&self) -> (text: String)
        ensures
            text@ == self.spec_text(),
    {
        match self {
            BranchWithDocumentError::CycleNotFound(id) => String::from_str("Cycle not found: ").concat(id.to_string().as_str()),
            BranchWithDocumentError::ParentDocumentNotFound(id) =>
                String::from_str("Parent document not found for cycle: ").concat(id.to_string().as_str()),
            BranchWithDocumentError::SessionNotFound => String::from_str("Session not found"),
            BranchWithDocumentError::Domain(e) => e.to_string(),
            BranchWithDocumentError::GenerationFailed(m) => String::from_str("Document generation failed: ").concat(m.as_str()),
        }
    }
}

impl From<DomainError> for BranchWithDocumentError {
    fn from(err: DomainError) -> (e: Self) {
        BranchWithDocumentError::Domain(err)
    }
}

impl vstd::std_specs::convert::FromSpecImpl<DomainError> for BranchWithDocumentError {
    open spec fn obeys_from_spec() -> bool {
        true
    }

    open spec fn from_spec(err: DomainError) -> Self {
        BranchWithDocumentError::Domain(err)
    }
}

/// The document the domain creates for the branch.
#[derive(Clone, Debug)]
pub enum BranchDocumentPlan {
    /// A branch of the parent's document, marked with the branch point and label.
    BranchOf {
        cycle_id: CycleId,
        user_id: UserId,
        parent_document_id: DecisionDocumentId,
        branch_point: ComponentType,
        branch_label: String,
    },
    /// A first document for the branch, when the parent has none.
    New { cycle_id: CycleId, user_id: UserId },
}

/// Decisions of the branch-with-document handler.
///
/// A run goes: the caller finds the parent cycle, `parent_found`; its
/// session, `session_found`; the parent's document (an error of that lookup
/// is `Domain`); has the domain branch the cycle and saves the branch;
/// generates full content for the branch (a failure is `GenerationFailed`);
/// has the domain create the document of `document_plan` and saves it;
/// `finish`.
pub struct BranchWithDocumentHandler {}

impl BranchWithDocumentHandler {
    /// Creates a new handler.
    pub fn new() -> (h: Self) {
        BranchWithDocumentHandler {}
    }

    /// The cycle to branch from; a missing one is an error.
    pub fn parent_found(&self, cmd: &BranchWithDocumentCommand, found: Result<Option<Cycle>, DomainError>) -> (r: Result<Cycle, BranchWithDocumentError>)
        ensures
            match found {
                Err(e) => r matches Err(BranchWithDocumentError::Domain(e2)) && e2 == e,
                Ok(None) => r matches Err(BranchWithDocumentError::CycleNotFound(id)) && id == cmd.parent_cycle_id,
                Ok(Some(c)) => r matches Ok(c2) && c2 == c,
            },
    {
        match found {
            Err(e) => Err(BranchWithDocumentError::Domain(e)),
            Ok(None) => Err(BranchWithDocumentError::CycleNotFound(cmd.parent_cycle_id)),
            Ok(Some(c)) => Ok(c),
        }
    }

    /// The parent cycle's session, for its title; a missing one is an error.
    pub fn session_found(&self, found: Result<Option<Session>, DomainError>) -> (r: Result<Session, BranchWithDocumentError>)
        ensures
            match found {
                Err(e) => r matches Err(BranchWithDocumentError::Domain(e2)) && e2 == e,
                Ok(None) => r matches Err(BranchWithDocumentError::SessionNotFound),
                Ok(Some(s)) => r matches Ok(s2) && s2 == s,
            },
    {
        match found {
            Err(e) => Err(BranchWithDocumentError::Domain(e)),
            Ok(None) => Err(BranchWithDocumentError::SessionNotFound),
            Ok(Some(s)) => Ok(s),
        }
    }

    /// The branch's label: the one given, or "Branch at" and the name of
    /// the branch point.
    pub fn branch_label(&self, cmd: &BranchWithDocumentCommand) -> (label: String)
        ensures
            label@ == (match cmd.branch_label {
                Some(l) => l@,
                None => "Branch at "@ + cmd.branch_point.spec_display_name(),
            }),
    {
        match &cmd.branch_label {
            Some(l) => l.clone(),
            None => String::from_str("Branch at ").concat(cmd.branch_point.display_name().as_str()),
        }
    }

    /// A failed generation, with the generator's text.
    pub fn generation_failed(&self, err: DocumentError) -> (e: BranchWithDocumentError)
        ensures
            e matches BranchWithDocumentError::GenerationFailed(m) && m@ == err.message@,
    {
        BranchWithDocumentError::GenerationFailed(err.to_string())
    }

    /// The document to create for the branch: a branch of the parent's
    /// document where it has one, a new document otherwise.
    pub fn document_plan(&self, cmd: &BranchWithDocumentCommand, branch: &Cycle, parent_document: &Option<DecisionDocument>, label: String) -> (p: BranchDocumentPlan)
        ensures
            match parent_document {
                Some(d) => p matches BranchDocumentPlan::BranchOf { cycle_id, user_id, parent_document_id, branch_point, branch_label }
                    && cycle_id == branch.id && user_id == cmd.user_id && parent_document_id == d.id
                    && branch_point == cmd.branch_point && branch_label == label,
                None => p matches BranchDocumentPlan::New { cycle_id, user_id } && cycle_id == branch.id && user_id == cmd.user_id,
            },
    {
        match parent_document {
            Some(d) => BranchDocumentPlan::BranchOf {
                cycle_id: branch.id,
                user_id: cmd.user_id.clone(),
                parent_document_id: d.id,
                branch_point: cmd.branch_point,
                branch_label: label,
            },
            None => BranchDocumentPlan::New { cycle_id: branch.id, user_id: cmd.user_id.clone() },
        }
    }

    /// The handler's result, once the document was saved.
    pub fn finish(&self, branch_cycle: Cycle, document: DecisionDocument, content: String) -> (r: BranchWithDocumentResult)
        ensures
            r.branch_cycle == branch_cycle,
            r.document == document,
            r.content == content,
    {
        BranchWithDocumentResult { branch_cycle, document, content }
    }
}

} // verus!
