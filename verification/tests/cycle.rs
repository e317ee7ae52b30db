use backend::cycle::archive_cycle::{ArchiveCycleCommand, ArchiveCycleError, ArchiveCycleHandler};
use backend::cycle::branch_cycle::{BranchCycleCommand, BranchCycleError, BranchCycleHandler};
use backend::cycle::branch_with_document::{BranchDocumentPlan, BranchWithDocumentCommand, BranchWithDocumentHandler};
use backend::cycle::complete_cycle::{CompleteCycleCommand, CompleteCycleError, CompleteCycleHandler};
use backend::cycle::create_cycle::{CreateCycleCommand, CreateCycleError, CreateCycleHandler};
use backend::cycle::generate_document::{GenerateDocumentCommand, GenerateDocumentError, GenerateDocumentHandler};
use backend::cycle::get_component::{GetComponentError, GetComponentHandler, GetComponentQuery};
use backend::cycle::model::{Component, Cycle, CycleStatus};
use backend::cycle::navigate_component::{NavigateComponentCommand, NavigateComponentHandler};
use backend::cycle::regenerate_document::{PersistPlan, RegenerateDocumentCommand, RegenerateDocumentError, RegenerateDocumentHandler};
use backend::cycle::start_component::{StartComponentCommand, StartComponentError, StartComponentHandler};
use backend::cycle::update_component_output::{UpdateComponentOutputCommand, UpdateComponentOutputHandler};
use backend::cycle::update_document_from_edit::{
    UpdateDocumentFromEditCommand, UpdateDocumentFromEditError, UpdateDocumentFromEditHandler,
};
use backend::foundation::{
    CommandMetadata, ComponentStatus, ComponentType, CycleId, DecisionDocumentId, DomainError, ErrorCode,
    SessionId, SessionStatus, Timestamp, UserId,
};
use backend::json::JsonValue;
use backend::ports::{AccessDeniedReason, AccessResult, DecisionDocument, DocumentError, DocumentFormat, ParseResult, ParsedSection};
use backend::session::model::Session;

fn metadata() -> CommandMetadata {
    CommandMetadata { user_id: UserId::new("user-1").unwrap(), correlation_id: "corr-42".to_string() }
}

fn cycle(id: u128) -> Cycle {
    Cycle {
        id: CycleId::from_value(id),
        session_id: SessionId::from_value(7),
        parent_cycle_id: None,
        status: CycleStatus::Active,
        current_step: ComponentType::Objectives,
        components: vec![
            Component { component_type: ComponentType::IssueRaising, status: ComponentStatus::Completed, output: JsonValue::Str("issues".to_string()) },
            Component { component_type: ComponentType::ProblemFrame, status: ComponentStatus::Completed, output: JsonValue::Null },
            Component { component_type: ComponentType::Objectives, status: ComponentStatus::InProgress, output: JsonValue::Bool(true) },
        ],
        created_at: Timestamp::from_secs(1_700_000_000),
    }
}

fn session() -> Session {
    Session {
        id: SessionId::from_value(7),
        user_id: UserId::new("user-1").unwrap(),
        title: "Move abroad".to_string(),
        description: None,
        status: SessionStatus::Active,
        cycle_ids: vec![],
        created_at: Timestamp::from_secs(1),
        updated_at: Timestamp::from_secs(1),
    }
}

fn db_error() -> DomainError {
    DomainError::new(ErrorCode::DatabaseError, "Database unavailable".to_string())
}

fn document(version: u32) -> DecisionDocument {
    DecisionDocument {
        id: DecisionDocumentId::from_value(11),
        cycle_id: CycleId::from_value(1),
        user_id: UserId::new("user-1").unwrap(),
        version,
        parent_document_id: None,
        branch_point: None,
        branch_label: None,
    }
}

fn section(component_type: ComponentType, successful: bool, data: Option<JsonValue>) -> ParsedSection {
    ParsedSection { component_type, successful, parsed_data: data }
}

#[test]
fn archive_reports_missing_cycle_with_its_id() {
    let handler = ArchiveCycleHandler::new();
    let cmd = ArchiveCycleCommand { cycle_id: CycleId::from_value(1) };
    let err = handler.cycle_found(&cmd, Ok(None)).unwrap_err();
    assert!(matches!(err, ArchiveCycleError::CycleNotFound(id) if id == cmd.cycle_id));
    assert_eq!(err.to_string(), "Cycle not found: 00000000-0000-0000-0000-000000000001");
}

#[test]
fn archive_event_carries_correlation_and_user() {
    let handler = ArchiveCycleHandler::new();
    let cmd = ArchiveCycleCommand { cycle_id: CycleId::from_value(1) };
    let p = handler.archived_event(&cmd, &metadata(), Ok(())).unwrap();
    assert_eq!(p.event.cycle_id, cmd.cycle_id);
    assert_eq!(p.correlation_id, Some("corr-42".to_string()));
    assert_eq!(p.user_id, Some("user-1".to_string()));
    assert_eq!(p.causation_id, None);
    assert_eq!(p.event.event_type(), "cycle.archived");
    let result = handler.finish(p.event);
    assert_eq!(result.event.cycle_id, cmd.cycle_id);
}

#[test]
fn archive_publishes_nothing_when_update_fails() {
    let handler = ArchiveCycleHandler::new();
    let cmd = ArchiveCycleCommand { cycle_id: CycleId::from_value(1) };
    let err = handler.archived_event(&cmd, &metadata(), Err(db_error())).unwrap_err();
    assert_eq!(err.to_string(), "Database unavailable");
}

#[test]
fn complete_cycle_flow() {
    let handler = CompleteCycleHandler::new();
    let cmd = CompleteCycleCommand { cycle_id: CycleId::from_value(1) };
    let c = handler.cycle_found(&cmd, Ok(Some(cycle(1)))).unwrap();
    assert_eq!(c.id, cmd.cycle_id);
    let p = handler.completed_event(&cmd, &metadata(), Ok(())).unwrap();
    assert_eq!(p.event.event_type(), "cycle.completed");
    let result = handler.finish(c, p.event);
    assert_eq!(result.event.cycle_id, cmd.cycle_id);
    let err = handler.completed_event(&cmd, &metadata(), Err(db_error())).err().unwrap();
    assert!(matches!(err, CompleteCycleError::Domain(ref e) if e.code == ErrorCode::DatabaseError));
    let err = handler.cycle_found(&cmd, Err(db_error())).err().unwrap();
    assert!(matches!(err, CompleteCycleError::Domain(_)));
}

#[test]
fn start_component_event_names_the_component() {
    let handler = StartComponentHandler::new();
    let cmd = StartComponentCommand { cycle_id: CycleId::from_value(2), component_type: ComponentType::Alternatives };
    let p = handler.started_event(&cmd, &metadata(), Ok(())).unwrap();
    assert_eq!(p.event.component_type, ComponentType::Alternatives);
    assert_eq!(p.event.event_type(), "component.started.v1");
    let err = handler.started_event(&cmd, &metadata(), Err(db_error())).err().unwrap();
    assert!(matches!(err, StartComponentError::Domain(_)));
    let err = handler.cycle_found(&cmd, Ok(None)).err().unwrap();
    assert_eq!(err.to_string(), "Cycle not found: 00000000-0000-0000-0000-000000000002");
}

#[test]
fn navigate_and_update_output_events() {
    let handler = NavigateComponentHandler::new();
    let cmd = NavigateComponentCommand { cycle_id: CycleId::from_value(3), target: ComponentType::Objectives };
    let p = handler.navigated_event(&cmd, &metadata(), Ok(())).unwrap();
    assert_eq!(p.event.component_type, ComponentType::Objectives);
    assert_eq!(p.event.event_type(), "component.navigated_to");
    assert!(handler.navigated_event(&cmd, &metadata(), Err(db_error())).is_err());

    let handler = UpdateComponentOutputHandler::new();
    let cmd = UpdateComponentOutputCommand { cycle_id: CycleId::from_value(3), component_type: ComponentType::Objectives, output: JsonValue::Null };
    let p = handler.output_updated_event(&cmd, &metadata(), Ok(())).unwrap();
    assert_eq!(p.event.cycle_id, CycleId::from_value(3));
    assert!(handler.output_updated_event(&cmd, &metadata(), Err(db_error())).is_err());
}

#[test]
fn create_cycle_checks_session_and_access() {
    let handler = CreateCycleHandler::new();
    let cmd = CreateCycleCommand { session_id: SessionId::from_value(9) };
    let err = handler.session_found(&cmd, Ok(None)).unwrap_err();
    assert_eq!(err.to_string(), "Session not found: 00000000-0000-0000-0000-000000000009");
    assert_eq!(handler.session_found(&cmd, Ok(Some(SessionId::from_value(9)))).unwrap(), SessionId::from_value(9));
    let denied = AccessResult::Denied(AccessDeniedReason { description: "Membership required".to_string() });
    let err = handler.access_checked(Ok(denied)).unwrap_err();
    assert!(matches!(err, CreateCycleError::AccessDenied(_)));
    assert_eq!(err.to_string(), "Access denied: Membership required");
    assert!(handler.access_checked(Ok(AccessResult::Allowed)).is_ok());
}

#[test]
fn create_cycle_event_is_a_root_cycle_of_the_session() {
    let handler = CreateCycleHandler::new();
    let cmd = CreateCycleCommand { session_id: SessionId::from_value(7) };
    let c = cycle(4);
    let p = handler.created_event(&cmd, &c, &metadata(), Ok(())).unwrap();
    assert_eq!(p.event.cycle_id, c.id);
    assert_eq!(p.event.session_id, cmd.session_id);
    assert_eq!(p.event.parent_cycle_id, None);
    assert_eq!(p.event.created_at, c.created_at);
    assert!(handler.created_event(&cmd, &c, &metadata(), Err(db_error())).is_err());
}

#[test]
fn branch_event_links_parent_and_branch_point() {
    let handler = BranchCycleHandler::new();
    let cmd = BranchCycleCommand { parent_cycle_id: CycleId::from_value(1), branch_point: ComponentType::Alternatives, branch_label: None };
    let parent = cycle(1);
    let branch = cycle(5);
    let p = handler.branched_event(&cmd, &parent, &branch, &metadata(), Ok(())).unwrap();
    assert_eq!(p.event.cycle_id, branch.id);
    assert_eq!(p.event.parent_cycle_id, parent.id);
    assert_eq!(p.event.session_id, parent.session_id);
    assert_eq!(p.event.branch_point, ComponentType::Alternatives);
    assert!(handler.branched_event(&cmd, &parent, &branch, &metadata(), Err(db_error())).is_err());
    let err = handler.parent_found(&cmd, Ok(None)).unwrap_err();
    assert!(matches!(err, BranchCycleError::CycleNotFound(id) if id == cmd.parent_cycle_id));
}

#[test]
fn get_component_returns_status_and_output() {
    let handler = GetComponentHandler::new();
    let query = GetComponentQuery { cycle_id: CycleId::from_value(1), component_type: ComponentType::IssueRaising };
    let res = handler.handle(&query, Ok(Some(cycle(1)))).unwrap();
    assert_eq!(res.status, ComponentStatus::Completed);
    assert!(matches!(res.output, JsonValue::Str(ref s) if s == "issues"));
}

#[test]
fn get_component_errors() {
    let handler = GetComponentHandler::new();
    let query = GetComponentQuery { cycle_id: CycleId::from_value(1), component_type: ComponentType::Tradeoffs };
    let err = handler.handle(&query, Ok(Some(cycle(1)))).unwrap_err();
    assert_eq!(err.to_string(), "Component Tradeoffs not found in cycle: 00000000-0000-0000-0000-000000000001");
    let err = handler.handle(&query, Ok(None)).unwrap_err();
    assert!(matches!(err, GetComponentError::CycleNotFound(id) if id == query.cycle_id));
    let err = handler.handle(&query, Err(db_error())).unwrap_err();
    assert_eq!(err.to_string(), "Infrastructure error: Database unavailable");
    let err = handler.handle(&query, Err(DomainError::new(ErrorCode::CycleNotFound, "gone".to_string()))).unwrap_err();
    assert!(matches!(err, GetComponentError::CycleNotFound(_)));
}

#[test]
fn generate_document_commands_set_options() {
    let id = CycleId::from_value(1);
    let handler = GenerateDocumentHandler::new();
    let full = GenerateDocumentCommand::full(id);
    let o = handler.generation_options(&full);
    assert_eq!(o.format, DocumentFormat::Full);
    assert!(o.include_empty_sections && o.include_metadata && o.include_version_info);
    let summary = GenerateDocumentCommand::summary(id);
    let o = handler.generation_options(&summary);
    assert_eq!(o.format, DocumentFormat::Summary);
    assert!(!o.include_empty_sections && !o.include_metadata && !o.include_version_info);
    let export = GenerateDocumentCommand::export(id);
    let o = handler.generation_options(&export);
    assert_eq!(o.format, DocumentFormat::Export);
    assert!(!o.include_empty_sections && !o.include_metadata && o.include_version_info);
}

#[test]
fn generate_document_result_and_errors() {
    let handler = GenerateDocumentHandler::new();
    let cmd = GenerateDocumentCommand::summary(CycleId::from_value(1));
    let c = cycle(1);
    let res = handler.finish(&cmd, &c, Ok("# Doc".to_string())).unwrap();
    assert_eq!(res.content, "# Doc");
    assert_eq!(res.session_id, c.session_id);
    assert_eq!(res.format, DocumentFormat::Summary);
    let err = handler.finish(&cmd, &c, Err(DocumentError { message: "template missing".to_string() })).unwrap_err();
    assert_eq!(err.to_string(), "Document generation failed: template missing");
    let err = handler.session_found(&c, Ok(None)).unwrap_err();
    assert!(matches!(err, GenerateDocumentError::SessionNotFound(id) if id == c.session_id));
    assert_eq!(err.to_string(), "Session not found (data integrity issue): 00000000-0000-0000-0000-000000000007");
}

#[test]
fn regenerate_document_options_and_persist_plan() {
    let handler = RegenerateDocumentHandler::new();
    let full = RegenerateDocumentCommand::full(CycleId::from_value(1));
    let o = handler.generation_options(&full);
    assert!(o.include_empty_sections && o.include_metadata && o.include_version_info);
    let summary = RegenerateDocumentCommand::summary(CycleId::from_value(1));
    let o = handler.generation_options(&summary);
    assert!(!o.include_empty_sections && !o.include_metadata && o.include_version_info);

    let plan = handler.persist_plan(&full, &session(), Ok(None)).unwrap();
    assert!(matches!(plan, PersistPlan::CreateNew { cycle_id, ref user_id } if cycle_id == full.cycle_id && user_id.value == "user-1"));
    let plan = handler.persist_plan(&full, &session(), Ok(Some(document(3)))).unwrap();
    assert!(matches!(plan, PersistPlan::UpdateExisting(ref d) if d.version == 3));
}

#[test]
fn regenerate_document_finish() {
    let handler = RegenerateDocumentHandler::new();
    let cmd = RegenerateDocumentCommand::full(CycleId::from_value(1));
    let plan = handler.persist_plan(&cmd, &session(), Ok(Some(document(2)))).unwrap();
    let doc = handler.document_to_persist(&plan);
    let res = handler.finish(&cmd, &cycle(1), &plan, &doc, "text".to_string(), Ok(())).unwrap();
    assert_eq!(res.version, 3);
    assert_eq!(res.document_id, doc.id);
    assert!(!res.is_new);
    let err = handler.finish(&cmd, &cycle(1), &plan, &doc, "text".to_string(), Err(db_error())).unwrap_err();
    assert!(matches!(err, RegenerateDocumentError::PersistFailed(_)));
    assert_eq!(err.to_string(), "Failed to persist document: Database unavailable");
}

#[test]
fn regenerates_existing_document() {
    let handler = RegenerateDocumentHandler::new();
    let cmd = RegenerateDocumentCommand::full(CycleId::from_value(1));
    let existing = document(1);
    let plan = handler.persist_plan(&cmd, &session(), Ok(Some(existing.clone()))).unwrap();
    let doc = handler.document_to_persist(&plan);
    let res = handler.finish(&cmd, &cycle(1), &plan, &doc, "# Regenerated".to_string(), Ok(())).unwrap();
    assert!(!res.is_new);
    assert_eq!(res.version, 2);
    assert_eq!(res.document_id, existing.id);
    assert_eq!(res.content, "# Regenerated");
    assert_eq!(res.session_id, SessionId::from_value(7));
    assert_eq!(res.format, DocumentFormat::Full);
}

#[test]
fn regenerates_new_document_when_none_exists() {
    let handler = RegenerateDocumentHandler::new();
    let cmd = RegenerateDocumentCommand::summary(CycleId::from_value(1));
    let plan = handler.persist_plan(&cmd, &session(), Ok(None)).unwrap();
    let doc = handler.document_to_persist(&plan);
    assert_eq!(doc.version, 1);
    assert_eq!(doc.cycle_id, CycleId::from_value(1));
    assert_eq!(doc.user_id.value, "user-1");
    let res = handler.finish(&cmd, &cycle(1), &plan, &doc, "# New".to_string(), Ok(())).unwrap();
    assert!(res.is_new);
    assert_eq!(res.version, 1);
    assert_eq!(res.document_id, doc.id);
}

#[test]
fn update_from_edit_rejects_parse_errors() {
    let handler = UpdateDocumentFromEditHandler::new();
    let parse = ParseResult { sections: vec![], warnings: vec![], errors: vec!["bad table".to_string(), "bad list".to_string()] };
    let err = handler.parse_checked(Ok(parse)).unwrap_err();
    assert_eq!(err.to_string(), "Parse failed: Document has 2 parse errors");
    let err = handler.parse_checked(Err(DocumentError { message: "not markdown".to_string() })).unwrap_err();
    assert_eq!(err.to_string(), "Parse failed: not markdown");
}

#[test]
fn update_from_edit_applies_only_sections_with_data() {
    let handler = UpdateDocumentFromEditHandler::new();
    let parse = ParseResult {
        sections: vec![
            section(ComponentType::IssueRaising, true, Some(JsonValue::Str("x".to_string()))),
            section(ComponentType::ProblemFrame, true, Some(JsonValue::Null)),
            section(ComponentType::Objectives, false, Some(JsonValue::Bool(true))),
            section(ComponentType::Alternatives, true, Some(JsonValue::Object(vec![]))),
            section(ComponentType::Consequences, true, None),
            section(ComponentType::Tradeoffs, true, Some(JsonValue::Object(vec![("a".to_string(), JsonValue::Null)]))),
        ],
        warnings: vec!["w".to_string()],
        errors: vec![],
    };
    let parse = handler.parse_checked(Ok(parse)).unwrap();
    assert_eq!(handler.sections_to_apply(&parse), vec![0, 5]);
    assert_eq!(handler.components_updated(&vec![true, false, true]), 2);
    let cmd = UpdateDocumentFromEditCommand::sync(DecisionDocumentId::from_value(11), "content".to_string());
    assert!(cmd.sync_to_components);
    let doc = document(4);
    let res = handler.finish(&cmd, &doc, &parse, 1, Ok(())).unwrap();
    assert_eq!(res.version, 4);
    assert_eq!(res.components_updated, 1);
    assert_eq!(res.parse_result.sections_parsed, 5);
    assert_eq!(res.parse_result.warnings, 1);
    assert_eq!(res.parse_result.errors, 0);
}

#[test]
fn update_from_edit_missing_document_and_cycle() {
    let handler = UpdateDocumentFromEditHandler::new();
    let cmd = UpdateDocumentFromEditCommand::document_only(DecisionDocumentId::from_value(12), "c".to_string());
    assert!(!cmd.sync_to_components);
    let err = handler.document_found(&cmd, Ok(None)).unwrap_err();
    assert_eq!(err.to_string(), "Document not found: 00000000-0000-0000-0000-00000000000c");
    let err = handler.cycle_found(&document(1), Ok(None)).unwrap_err();
    assert!(matches!(err, UpdateDocumentFromEditError::CycleNotFound(_)));
    assert_eq!(err.to_string(), "Cycle not found (data integrity issue): 00000000-0000-0000-0000-000000000001");
    let err = UpdateDocumentFromEditError::VersionConflict { expected: 3, actual: 5 };
    assert_eq!(err.to_string(), "Version conflict: expected v3, found v5");
}

#[test]
fn branch_with_document_label_and_plan() {
    let handler = BranchWithDocumentHandler::new();
    let cmd = BranchWithDocumentCommand {
        parent_cycle_id: CycleId::from_value(1),
        branch_point: ComponentType::Alternatives,
        branch_label: None,
        user_id: UserId::new("user-1").unwrap(),
    };
    assert_eq!(handler.branch_label(&cmd), "Branch at Alternatives");
    let labelled = BranchWithDocumentCommand { branch_label: Some("Plan B".to_string()), ..cmd.clone() };
    assert_eq!(handler.branch_label(&labelled), "Plan B");
    let branch = cycle(5);
    let plan = handler.document_plan(&cmd, &branch, &None, "Branch at Alternatives".to_string());
    assert!(matches!(plan, BranchDocumentPlan::New { cycle_id, .. } if cycle_id == branch.id));
    let plan = handler.document_plan(&cmd, &branch, &Some(document(2)), "L".to_string());
    match plan {
        BranchDocumentPlan::BranchOf { cycle_id, parent_document_id, branch_point, branch_label, .. } => {
            assert_eq!(cycle_id, branch.id);
            assert_eq!(parent_document_id, DecisionDocumentId::from_value(11));
            assert_eq!(branch_point, ComponentType::Alternatives);
            assert_eq!(branch_label, "L");
        }
        _ => panic!("expected a branch document"),
    }
    let err = handler.generation_failed(DocumentError { message: "boom".to_string() });
    assert_eq!(err.to_string(), "Document generation failed: boom");
}
