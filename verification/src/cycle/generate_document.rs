//! Generating a markdown decision document from a cycle's current state.
//! This produces content without side effects.

use vstd::prelude::*;
use vstd::string::*;
use crate::foundation::{uuid_text, CycleId, DomainError, SessionId};
use crate::cycle::model::Cycle;
use crate::ports::{DocumentError, DocumentFormat, GenerationOptions};
use crate::session::model::Session;

verus! {

/// Command to generate a decision document.
#[derive(Clone, Copy, Debug)]
pub struct GenerateDocumentCommand {
    /// Cycle to generate document for.
    pub cycle_id: CycleId,
    /// Output format.
    pub format: DocumentFormat,
    /// Include empty sections.
    pub include_empty_sections: bool,
    /// Include metadata block.
    pub include_metadata: bool,
    /// Include version info in footer.
    pub include_version_info: bool,
}

impl GenerateDocumentCommand {
    /// Creates a command for full document generation.
    pub fn full(cycle_id: CycleId) -> (cmd: Self)
        ensures
            cmd == (GenerateDocumentCommand {
                cycle_id,
                format: DocumentFormat::Full,
                include_empty_sections: true,
                include_metadata: true,
                include_version_info: true,
            }),
    {
        GenerateDocumentCommand {
            cycle_id,
            format: DocumentFormat::Full,
            include_empty_sections: true,
            include_metadata: true,
            include_version_info: true,
        }
    }

    /// Creates a command for summary document generation.
    pub fn summary(cycle_id: CycleId) -> (cmd: Self)
        ensures
            cmd == (GenerateDocumentCommand {
                cycle_id,
                format: DocumentFormat::Summary,
                include_empty_sections: false,
                include_metadata: false,
                include_version_info: false,
            }),
    {
        GenerateDocumentCommand {
            cycle_id,
            format: DocumentFormat::Summary,
            include_empty_sections: false,
            include_metadata: false,
            include_version_info: false,
        }
    }

    /// Creates a command for export document generation.
    pub fn export(cycle_id: CycleId) -> (cmd: Self)
        ensures
            cmd == (GenerateDocumentCommand {
                cycle_id,
                format: DocumentFormat::Export,
                include_empty_sections: false,
                include_metadata: false,
                include_version_info: true,
            }),
    {
        GenerateDocumentCommand {
            cycle_id,
            format: DocumentFormat::Export,
            include_empty_sections: false,
            include_metadata: false,
            include_version_info: true,
        }
    }
}

/// Result of successful document generation.
#[derive(Clone, Debug)]
pub struct GenerateDocumentResult {
    /// The generated markdown content.
    pub content: String,
    /// The cycle ID the document was generated from.
    pub cycle_id: CycleId,
    /// The session ID.
    pub session_id: SessionId,
    /// The format used.
    pub format: DocumentFormat,
}

/// Error type for document generation.
#[derive(Clone, Debug)]
pub enum GenerateDocumentError {
    /// Cycle not found.
    CycleNotFound(CycleId),
    /// Session not found (data integrity issue).
    SessionNotFound(SessionId),
    /// Document generation failed.
    GenerationFailed(String),
    /// Domain error.
    Domain(DomainError),
}

impl GenerateDocumentError {
    /// The error's text.
    pub open spec fn spec_text(self) -> Seq<char> {
        match self {
            GenerateDocumentError::CycleNotFound(id) => "Cycle not found: "@ + uuid_text(id.value),
            GenerateDocumentError::SessionNotFound(id) => "Session not found (data integrity issue): "@ + uuid_text(id.value),
            GenerateDocumentError::GenerationFailed(m) => "Document generation failed: "@ + m@,
            GenerateDocumentError::Domain(e) => e.message@,
        }
    }

    /// The error's text.
    pub fn to_string(&self) -> (text: String)
        ensures
            text@ == self.spec_text(),
    {
        match self {
            GenerateDocumentError::CycleNotFound(id) => String::from_str("Cycle not found: ").concat(id.to_string().as_str()),
            GenerateDocumentError::SessionNotFound(id) =>
                String::from_str("Session not found (data integrity issue): ").concat(id.to_string().as_str()),
            GenerateDocumentError::GenerationFailed(m) => String::from_str("Document generation failed: ").concat(m.as_str()),
            GenerateDocumentError::Domain(e) => e.to_string(),
        }
    }

    /// A failed generation, with the generator's text.
    pub fn from_document_error(err: DocumentError) -> (e: Self)
        ensures
            e matches GenerateDocumentError::GenerationFailed(m) && m@ == err.message@,
    {
        GenerateDocumentError::GenerationFailed(err.to_string())
    }
}

impl From<DomainError> for GenerateDocumentError {
    fn from(err: DomainError) -> (e: Self) {
        GenerateDocumentError::Domain(err)
    }
}

impl vstd::std_specs::convert::FromSpecImpl<DomainError> for GenerateDocumentError {
    open spec fn obeys_from_spec() -> bool {
        true
    }

    open spec fn from_spec(err: DomainError) -> Self {
        GenerateDocumentError::Domain(err)
    }
}

/// Decisions of the generate-document handler.
///
/// A run goes: the caller finds the cycle, `cycle_found`; its session,
/// `session_found`; runs the generator on the session's title, the cycle and
/// `generation_options`; `finish`.
pub struct GenerateDocumentHandler {}

impl GenerateDocumentHandler {
    /// Creates a new handler.
    pub fn new() -> (h: Self) {
        GenerateDocumentHandler {}
    }

    /// The cycle to generate from; a missing one is an error.
    pub fn cycle_found(&self, cmd: &GenerateDocumentCommand, found: Result<Option<Cycle>, DomainError>) -> (r: Result<Cycle, GenerateDocumentError>)
        ensures
            match found {
                Err(e) => r matches Err(GenerateDocumentError::Domain(e2)) && e2 == e,
                Ok(None) => r matches Err(GenerateDocumentError::CycleNotFound(id)) && id == cmd.cycle_id,
                Ok(Some(c)) => r matches Ok(c2) && c2 == c,
            },
    {
        match found {
            Err(e) => Err(GenerateDocumentError::Domain(e)),
            Ok(None) => Err(GenerateDocumentError::CycleNotFound(cmd.cycle_id)),
            Ok(Some(c)) => Ok(c),
        }
    }

    /// The cycle's session, for its title; a missing one is a data
    /// integrity error.
    pub fn session_found(&self, cycle: &Cycle, found: Result<Option<Session>, DomainError>) -> (r: Result<Session, GenerateDocumentError>)
        ensures
            match found {
                Err(e) => r matches Err(GenerateDocumentError::Domain(e2)) && e2 == e,
                Ok(None) => r matches Err(GenerateDocumentError::SessionNotFound(id)) && id == cycle.session_id,
                Ok(Some(s)) => r matches Ok(s2) && s2 == s,
            },
    {
        match found {
            Err(e) => Err(GenerateDocumentError::Domain(e)),
            Ok(None) => Err(GenerateDocumentError::SessionNotFound(cycle.session_id)),
            Ok(Some(s)) => Ok(s),
        }
    }

    /// Options of the generation, as the command sets them.
    pub fn generation_options(&self, cmd: &GenerateDocumentCommand) -> (o: GenerationOptions)
        ensures
            o.format == cmd.format,
            o.include_empty_sections == cmd.include_empty_sections,
            o.include_metadata == cmd.include_metadata,
            o.include_version_info == cmd.include_version_info,
    {
        GenerationOptions {
            format: cmd.format,
            include_empty_sections: cmd.include_empty_sections,
            include_metadata: cmd.include_metadata,
            include_version_info: cmd.include_version_info,
        }
    }

    /// The handler's result, from what the generator returned.
    pub fn finish(&self, cmd: &GenerateDocumentCommand, cycle: &Cycle, generated: Result<String, DocumentError>) -> (r: Result<GenerateDocumentResult, GenerateDocumentError>)
        ensures
            match generated {
                Err(e) => r matches Err(GenerateDocumentError::GenerationFailed(m)) && m@ == e.message@,
                Ok(content) => r matches Ok(res) && res.content == content && res.cycle_id == cmd.cycle_id
                    && res.session_id == cycle.session_id && res.format == cmd.format,
            },
    {
        match generated {
            Err(e) => Err(GenerateDocumentError::from_document_error(e)),
            Ok(content) => Ok(GenerateDocumentResult {
                content,
                cycle_id: cmd.cycle_id,
                session_id: cycle.session_id,
                format: cmd.format,
            }),
        }
    }
}

} // verus!
