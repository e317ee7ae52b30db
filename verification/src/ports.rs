//! Types of the ports that several handlers share: access checks and
//! decision documents.

use vstd::prelude::*;
use vstd::string::*;
use crate::foundation::{is_random_uuid, ComponentType, CycleId, DecisionDocumentId, UserId};
use crate::json::JsonValue;

verus! {

/// Why the membership check refused an action: its description.
#[derive(Clone, Debug)]
pub struct AccessDeniedReason {
    pub description: String,
}

/// Answer of the membership-based access check.
#[derive(Clone, Debug)]
pub enum AccessResult {
    Allowed,
    Denied(AccessDeniedReason),
}

/// Format of a generated decision document.
#[derive(Clone, Copy, Debug, PartialEq, Eq, Structural)]
pub enum DocumentFormat {
    Full,
    Summary,
    Export,
}

/// Options of document generation.
#[derive(Clone, Copy, Debug, PartialEq, Eq, Structural)]
pub struct GenerationOptions {
    pub format: DocumentFormat,
    pub include_empty_sections: bool,
    pub include_metadata: bool,
    pub include_version_info: bool,
}

impl GenerationOptions {
    /// Options of a full document: every section, metadata and version info.
    pub fn full() -> (o: Self)
        ensures
            o == (GenerationOptions {
                format: DocumentFormat::Full,
                include_empty_sections: true,
                include_metadata: true,
                include_version_info: true,
            }),
    {
        GenerationOptions {
            format: DocumentFormat::Full,
            include_empty_sections: true,
            include_metadata: true,
            include_version_info: true,
        }
    }
}

/// An error of document generation or parsing: its text.
#[derive(Clone, Debug)]
pub struct DocumentError {
    pub message: String,
}

impl DocumentError {
    /// The error's text.
    pub fn to_string(&self) -> (text: String)
        ensures
            text@ == self.message@,
    {
        self.message.clone()
    }
}

/// A decision document, as the handlers read it.
#[derive(Clone, Debug)]
pub struct DecisionDocument {
    pub id: DecisionDocumentId,
    pub cycle_id: CycleId,
    pub user_id: UserId,
    pub version: u32,
    pub parent_document_id: Option<DecisionDocumentId>,
    pub branch_point: Option<ComponentType>,
    pub branch_label: Option<String>,
}

impl DecisionDocument {
    /// A first document of a cycle: a fresh identifier, version 1, and no
    /// branch.
    pub fn new(cycle_id: CycleId, user_id: UserId) -> (d: Self)
        ensures
            is_random_uuid(d.id.value),
            d.cycle_id == cycle_id,
            d.user_id == user_id,
            d.version == 1,
            d.parent_document_id is None,
            d.branch_point is None,
            d.branch_label is None,
    {
        DecisionDocument {
            id: DecisionDocumentId::new(),
            cycle_id,
            user_id,
            version: 1,
            parent_document_id: None,
            branch_point: None,
            branch_label: None,
        }
    }
}

/// A section of a parsed document.
#[derive(Debug)]
pub struct ParsedSection {
    pub component_type: ComponentType,
    /// Whether the section parsed without problems.
    pub successful: bool,
    /// The structured data read from the section.
    pub parsed_data: Option<JsonValue>,
}

/// Result of parsing an edited document.
#[derive(Debug)]
pub struct ParseResult {
    pub sections: Vec<ParsedSection>,
    pub warnings: Vec<String>,
    pub errors: Vec<String>,
}

/// Number of successful sections.
pub open spec fn successful_count(sections: Seq<ParsedSection>) -> nat
    decreases sections.len(),
{
    if sections.len() == 0 {
        0
    } else {
        successful_count(sections.drop_last()) + if sections.last().successful { 1nat } else { 0nat }
    }
}

impl ParseResult {
    /// Whether parsing reported errors.
    pub fn has_errors(&self) -> (r: bool)
        ensures
            r == (self.errors@.len() > 0),
    {
        self.errors.len() > 0
    }

    /// Number of sections parsed successfully.
    pub fn successful_section_count(&self) -> (n: usize)
        ensures
            n == successful_count(self.sections@),
    {
        let mut n: usize = 0;
        let mut i: usize = 0;
        while i < self.sections.len()
            invariant
                i <= self.sections.len(),
                n == successful_count(self.sections@.take(i as int)),
                n <= i,
            decreases self.sections.len() - i,
        {
            proof {
                assert(self.sections@.take(i as int + 1).drop_last() =~= self.sections@.take(i as int));
            }
            if self.sections[i].successful {
                n = n + 1;
            }
            i = i + 1;
        }
        proof {
            assert(self.sections@.take(self.sections@.len() as int) =~= self.sections@);
        }
        n
    }
}

} // verus!
