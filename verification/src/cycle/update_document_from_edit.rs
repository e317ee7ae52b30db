//! Bidirectional document sync: edited markdown is parsed, and both the
//! document and (when asked) the cycle's component outputs are updated.

use vstd::prelude::*;
use vstd::string::*;
use crate::foundation::{decimal, u64_to_string, uuid_text, CycleId, DecisionDocumentId, DomainError};
use crate::cycle::model::Cycle;
use crate::json::JsonValue;
use crate::ports::{successful_count, DecisionDocument, DocumentError, ParseResult, ParsedSection};

verus! {

/// Command to update a document from user edits.
#[derive(Clone, Debug)]
pub struct UpdateDocumentFromEditCommand {
    /// Document to update.
    pub document_id: DecisionDocumentId,
    /// Edited markdown content.
    pub content: String,
    /// Whether to update component outputs from parsed data.
    pub sync_to_components: bool,
}

impl UpdateDocumentFromEditCommand {
    /// Creates a command for full bidirectional sync.
    pub fn sync(document_id: DecisionDocumentId, content: String) -> (cmd: Self)
        ensures
            cmd.document_id == document_id,
            cmd.content == content,
            cmd.sync_to_components,
    {
        UpdateDocumentFromEditCommand { document_id, content, sync_to_components: true }
    }

    /// Creates a command for document-only update (no component sync).
    pub fn document_only(document_id: DecisionDocumentId, content: String) -> (cmd: Self)
        ensures
            cmd.document_id == document_id,
            cmd.content == content,
            !cmd.sync_to_components,
    {
        UpdateDocumentFromEditCommand { document_id, content, sync_to_components: false }
    }
}

/// Summary of parse result for the response.
#[derive(Clone, Copy, Debug, PartialEq, Eq, Structural)]
pub struct ParseResultSummary {
    /// Number of sections successfully parsed.
    pub sections_parsed: usize,
    /// Number of warnings generated.
    pub warnings: usize,
    /// Number of errors generated.
    pub errors: usize,
}

impl ParseResultSummary {
    /// The summary of a parse result.
    pub fn from(result: &ParseResult) -> (s: Self)
        ensures
            s.sections_parsed == successful_count(result.sections@),
            s.warnings == result.warnings@.len(),
            s.errors == result.errors@.len(),
    {
        ParseResultSummary {
            sections_parsed: result.successful_section_count(),
            warnings: result.warnings.len(),
            errors: result.errors.len(),
        }
    }
}

/// Result of successful document update.
#[derive(Clone, Copy, Debug)]
pub struct UpdateDocumentFromEditResult {
    /// The updated document ID.
    pub document_id: DecisionDocumentId,
    /// The cycle ID.
    pub cycle_id: CycleId,
    /// The new version number.
    pub version: u32,
    /// Parse result with any warnings.
    pub parse_result: ParseResultSummary,
    /// Number of components updated.
    pub components_updated: usize,
}

/// Error type for document update.
#[derive(Clone, Debug)]
pub enum UpdateDocumentFromEditError {
    /// Document not found.
    DocumentNotFound(DecisionDocumentId),
    /// Cycle not found (data integrity issue).
    CycleNotFound(CycleId),
    /// Parse failed.
    ParseFailed(String),
    /// Failed to persist document.
    PersistFailed(String),
    /// Optimistic locking conflict.
    VersionConflict { expected: u32, actual: u32 },
    /// Domain error.
    Domain(DomainError),
}

impl UpdateDocumentFromEditError {
    /// The error's text.
    pub open spec fn spec_text(self) -> Seq<char> {
        match self {
            UpdateDocumentFromEditError::DocumentNotFound(id) => "Document not found: "@ + uuid_text(id.value),
            UpdateDocumentFromEditError::CycleNotFound(id) => "Cycle not found (data integrity issue): "@ + uuid_text(id.value),
            UpdateDocumentFromEditError::ParseFailed(m) => "Parse failed: "@ + m@,
            UpdateDocumentFromEditError::PersistFailed(m) => "Failed to persist: "@ + m@,
            UpdateDocumentFromEditError::VersionConflict { expected, actual } =>
                "Version conflict: expected v"@ + decimal(expected as nat) + ", found v"@ + decimal(actual as nat),
            UpdateDocumentFromEditError::Domain(e) => e.message@,
        }
    }

    /// The error's text.
    pub fn to_string(&self) -> (text: String)
        ensures
            text@ == self.spec_text(),
    {
        match self {
            UpdateDocumentFromEditError::DocumentNotFound(id) =>
                String::from_str("Document not found: ").concat(id.to_string().as_str()),
            UpdateDocumentFromEditError::CycleNotFound(id) =>
                String::from_str("Cycle not found (data integrity issue): ").concat(id.to_string().as_str()),
            UpdateDocumentFromEditError::ParseFailed(m) => String::from_str("Parse failed: ").concat(m.as_str()),
            UpdateDocumentFromEditError::PersistFailed(m) => String::from_str("Failed to persist: ").concat(m.as_str()),
            UpdateDocumentFromEditError::VersionConflict { expected, actual } => String::from_str("Version conflict: expected v")
                .concat(u64_to_string(*expected as u64).as_str())
                .concat(", found v")
                .concat(u64_to_string(*actual as u64).as_str()),
            UpdateDocumentFromEditError::Domain(e) => e.to_string(),
        }
    }

    /// A failed parse, with the parser's text.
    pub fn from_document_error(err: DocumentError) -> (e: Self)
        ensures
            e matches UpdateDocumentFromEditError::ParseFailed(m) && m@ == err.message@,
    {
        UpdateDocumentFromEditError::ParseFailed(err.to_string())
    }
}

impl From<DomainError> for UpdateDocumentFromEditError {
    fn from(err: DomainError) -> (e: Self) {
        UpdateDocumentFromEditError::Domain(err)
    }
}

impl vstd::std_specs::convert::FromSpecImpl<DomainError> for UpdateDocumentFromEditError {
    open spec fn obeys_from_spec() -> bool {
        true
    }

    open spec fn from_spec(err: DomainError) -> Self {
        UpdateDocumentFromEditError::Domain(err)
    }
}

/// Whether a parsed section updates its component: it parsed successfully
/// and carries data that is neither null nor an empty object.
pub open spec fn section_applies(s: ParsedSection) -> bool {
    &&& s.successful
    &&& s.parsed_data matches Some(d)
    &&& !(d is Null)
    &&& !d.spec_is_empty_object()
}

/// The indices, in order, of the sections among the first `n` that apply.
pub open spec fn applying_indices(sections: Seq<ParsedSection>, n: int) -> Seq<usize>
    decreases n,
{
    if n <= 0 {
        Seq::empty()
    } else {
        let rest = applying_indices(sections, n - 1);
        if section_applies(sections[n - 1]) { rest.push((n - 1) as usize) } else { rest }
    }
}

/// Every section applied to a component parsed successfully and carries
/// data, each is applied once, in order; so no more components are updated
/// from an edit than sections parsed successfully.
pub proof fn law_applied_sections_are_successful(sections: Seq<ParsedSection>)
    requires
        sections.len() <= usize::MAX,
    ensures
        ({
            let applied = applying_indices(sections, sections.len() as int);
            &&& applied.len() <= successful_count(sections)
            &&& forall|i: int| 0 <= i < applied.len() ==> (#[trigger] applied[i]) < sections.len()
                && section_applies(sections[applied[i] as int])
            &&& forall|i: int, j: int| 0 <= i < j < applied.len() ==> applied[i] < applied[j]
        }),
{
    lemma_applied_prefix(sections, sections.len() as int);
    assert(sections.take(sections.len() as int) =~= sections);
}

proof fn lemma_applied_prefix(sections: Seq<ParsedSection>, n: int)
    requires
        0 <= n <= sections.len(),
        n <= usize::MAX,
    ensures
        ({
            let applied = applying_indices(sections, n);
            &&& applied.len() <= successful_count(sections.take(n))
            &&& forall|i: int| 0 <= i < applied.len() ==> (#[trigger] applied[i]) < n
                && section_applies(sections[applied[i] as int])
            &&& forall|i: int, j: int| 0 <= i < j < applied.len() ==> applied[i] < applied[j]
        }),
    decreases n,
{
    if n > 0 {
        lemma_applied_prefix(sections, n - 1);
        assert(sections.take(n).drop_last() =~= sections.take(n - 1));
        assert(sections.take(n).last() == sections[n - 1]);
        let rest = applying_indices(sections, n - 1);
        let applied = applying_indices(sections, n);
        if section_applies(sections[n - 1]) {
            assert(applied == rest.push((n - 1) as usize));
            assert(applied[applied.len() - 1] == (n - 1) as usize);
            assert forall|i: int| 0 <= i < applied.len() implies (#[trigger] applied[i]) < n
                && section_applies(sections[applied[i] as int]) by {
                if i < rest.len() {
                    assert(applied[i] == rest[i]);
                }
            }
            assert forall|i: int, j: int| 0 <= i < j < applied.len() implies applied[i] < applied[j] by {
                assert(applied[i] == rest[i]);
                if j < rest.len() {
                    assert(applied[j] == rest[j]);
                }
            }
        } else {
            assert(applied == rest);
        }
    } else {
        assert(sections.take(0) =~= Seq::<ParsedSection>::empty());
    }
}

/// Number of `true` among the first `n` answers.
pub open spec fn count_true(answers: Seq<bool>, n: int) -> nat
    decreases n,
{
    if n <= 0 {
        0
    } else {
        count_true(answers, n - 1) + if answers[n - 1] { 1nat } else { 0nat }
    }
}

/// Decisions of the update-from-edit handler.
///
/// A run goes: the caller finds the document, `document_found`; parses the
/// content, `parse_checked`; when `syncs_components`, finds the
/// document's cycle, `cycle_found`, hands each section of `sections_to_apply`
/// to the domain to set its component's output, counts the updates with
/// `components_updated`, and updates the cycle when `stores_cycle` (a failure
/// is `PersistFailed`); has the domain record the edit on the document and
/// persists it; `finish`.
pub struct UpdateDocumentFromEditHandler {}

impl UpdateDocumentFromEditHandler {
    /// Creates a new handler.
    pub fn new() -> (h: Self) {
        UpdateDocumentFromEditHandler {}
    }

    /// The document to update; a missing one is an error.
    pub fn document_found(&self, cmd: &UpdateDocumentFromEditCommand, found: Result<Option<DecisionDocument>, DomainError>) -> (r: Result<DecisionDocument, UpdateDocumentFromEditError>)
        ensures
            match found {
                Err(e) => r matches Err(UpdateDocumentFromEditError::Domain(e2)) && e2 == e,
                Ok(None) => r matches Err(UpdateDocumentFromEditError::DocumentNotFound(id)) && id == cmd.document_id,
                Ok(Some(d)) => r matches Ok(d2) && d2 == d,
            },
    {
        match found {
            Err(e) => Err(UpdateDocumentFromEditError::Domain(e)),
            Ok(None) => Err(UpdateDocumentFromEditError::DocumentNotFound(cmd.document_id)),
            Ok(Some(d)) => Ok(d),
        }
    }

    /// The parse result, unless parsing failed or reported errors.
    pub fn parse_checked(&self, parsed: Result<ParseResult, DocumentError>) -> (r: Result<ParseResult, UpdateDocumentFromEditError>)
        ensures
            match parsed {
                Err(e) => r matches Err(UpdateDocumentFromEditError::ParseFailed(m)) && m@ == e.message@,
                Ok(p) => if p.errors@.len() > 0 {
                    r matches Err(UpdateDocumentFromEditError::ParseFailed(m))
                        && m@ == "Document has "@ + decimal(p.errors@.len()) + " parse errors"@
                } else {
                    r matches Ok(p2) && p2 == p
                },
            },
    {
        match parsed {
            Err(e) => Err(UpdateDocumentFromEditError::from_document_error(e)),
            Ok(p) => {
                if p.has_errors() {
                    let n = p.errors.len();
                    Err(UpdateDocumentFromEditError::ParseFailed(
                        String::from_str("Document has ")
                            .concat(u64_to_string(n as u64).as_str())
                            .concat(" parse errors"),
                    ))
                } else {
                    Ok(p)
                }
            },
        }
    }

    /// The document's cycle, when syncing; a missing one is a data
    /// integrity error.
    pub fn cycle_found(&self, document: &DecisionDocument, found: Result<Option<Cycle>, DomainError>) -> (r: Result<Cycle, UpdateDocumentFromEditError>)
        ensures
            match found {
                Err(e) => r matches Err(UpdateDocumentFromEditError::Domain(e2)) && e2 == e,
                Ok(None) => r matches Err(UpdateDocumentFromEditError::CycleNotFound(id)) && id == document.cycle_id,
                Ok(Some(c)) => r matches Ok(c2) && c2 == c,
            },
    {
        match found {
            Err(e) => Err(UpdateDocumentFromEditError::Domain(e)),
            Ok(None) => Err(UpdateDocumentFromEditError::CycleNotFound(document.cycle_id)),
            Ok(Some(c)) => Ok(c),
        }
    }

    /// Whether the edit is taken into the cycle's components (and the cycle
    /// read): as the command asks.
    pub fn syncs_components(&self, cmd: &UpdateDocumentFromEditCommand) -> (r: bool)
        ensures
            r == cmd.sync_to_components,
    {
        cmd.sync_to_components
    }

    /// Whether the cycle is stored again after syncing: only when some
    /// component took the edit.
    pub fn stores_cycle(&self, components_updated: usize) -> (r: bool)
        ensures
            r == (components_updated > 0),
    {
        components_updated > 0
    }

    /// The sections whose data goes to their component, in order: those
    /// parsed successfully with data that is neither null nor an empty object.
    pub fn sections_to_apply(&self, parse: &ParseResult) -> (r: Vec<usize>)
        ensures
            r@ == applying_indices(parse.sections@, parse.sections@.len() as int),
    {
        let mut r: Vec<usize> = Vec::new();
        let mut i: usize = 0;
        while i < parse.sections.len()
            invariant
                i <= parse.sections.len(),
                r@ == applying_indices(parse.sections@, i as int),
            decreases parse.sections.len() - i,
        {
            let section = &parse.sections[i];
            let applies = section.successful && match &section.parsed_data {
                Some(d) => !d.is_null() && !d.is_empty_object(),
                None => false,
            };
            if applies {
                r.push(i);
            }
            i = i + 1;
        }
        r
    }

    /// Number of components updated: the sections whose output the domain
    /// accepted.
    pub fn components_updated(&self, accepted: &Vec<bool>) -> (n: usize)
        ensures
            n == count_true(accepted@, accepted@.len() as int),
    {
        let mut n: usize = 0;
        let mut i: usize = 0;
        while i < accepted.len()
            invariant
                i <= accepted.len(),
                n == count_true(accepted@, i as int),
                n <= i,
            decreases accepted.len() - i,
        {
            if accepted[i] {
                n = n + 1;
            }
            i = i + 1;
        }
        n
    }

    /// A failed persist of the cycle or the document.
    pub fn persist_failed(&self, err: &DomainError) -> (e: UpdateDocumentFromEditError)
        ensures
            e matches UpdateDocumentFromEditError::PersistFailed(m) && m@ == err.message@,
    {
        UpdateDocumentFromEditError::PersistFailed(err.to_string())
    }

    /// The handler's result once the edited document was persisted: its new
    /// version, the parse summary and the number of components updated.
    pub fn finish(&self, cmd: &UpdateDocumentFromEditCommand, document: &DecisionDocument, parse: &ParseResult, components_updated: usize, persisted: Result<(), DomainError>) -> (r: Result<UpdateDocumentFromEditResult, UpdateDocumentFromEditError>)
        ensures
            match persisted {
                Err(e) => r matches Err(UpdateDocumentFromEditError::PersistFailed(m)) && m@ == e.message@,
                Ok(()) => r matches Ok(res) && res.document_id == cmd.document_id && res.cycle_id == document.cycle_id
                    && res.version == document.version && res.components_updated == components_updated
                    && res.parse_result.sections_parsed == successful_count(parse.sections@)
                    && res.parse_result.warnings == parse.warnings@.len()
                    && res.parse_result.errors == parse.errors@.len(),
            },
    {
        match persisted {
            Err(e) => Err(self.persist_failed(&e)),
            Ok(()) => Ok(UpdateDocumentFromEditResult {
                document_id: cmd.document_id,
                cycle_id: document.cycle_id,
                version: document.version,
                parse_result: ParseResultSummary::from(parse),
                components_updated,
            }),
        }
    }
}

} // verus!
