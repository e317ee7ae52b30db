use backend::analysis::analysis_trigger_handler::{
    AnalysisKind, AnalysisTriggerHandler, ComponentCompletedPayload, ConsequencesTable, DQElement, Tension,
};
use backend::foundation::{ComponentType, CycleId, DomainError, ErrorCode, EventId, SessionId, Timestamp};
use backend::json::{JsonNumber, JsonValue};

fn obj(fields: Vec<(&str, JsonValue)>) -> JsonValue {
    JsonValue::Object(fields.into_iter().map(|(k, v)| (k.to_string(), v)).collect())
}

fn s(t: &str) -> JsonValue {
    JsonValue::Str(t.to_string())
}

fn num(n: i64) -> JsonValue {
    if n >= 0 {
        JsonValue::Number(JsonNumber::PosInt(n as u64))
    } else {
        JsonValue::Number(JsonNumber::NegInt(n))
    }
}

fn payload(component_type: ComponentType) -> ComponentCompletedPayload {
    ComponentCompletedPayload {
        event_id: EventId::from_value(1),
        cycle_id: CycleId::from_value(2),
        component_type,
        completed_at: Timestamp::from_secs(0),
    }
}

fn element(name: &str, score: u8, path: Option<&str>) -> DQElement {
    DQElement { name: name.to_string(), score, rationale: None, improvement_path: path.map(|p| p.to_string()) }
}

#[test]
fn analysis_is_triggered_by_three_components() {
    let handler = AnalysisTriggerHandler::new();
    assert_eq!(handler.name(), "AnalysisTriggerHandler");
    let session = SessionId::from_value(5);
    let r = handler.analysis_for(&payload(ComponentType::Consequences), Ok(Some(session))).unwrap();
    assert!(matches!(r, Some((AnalysisKind::Pugh, s2)) if s2 == session));
    let r = handler.analysis_for(&payload(ComponentType::DecisionQuality), Ok(Some(session))).unwrap();
    assert!(matches!(r, Some((AnalysisKind::DecisionQuality, _))));
    let r = handler.analysis_for(&payload(ComponentType::Tradeoffs), Ok(Some(session))).unwrap();
    assert!(matches!(r, Some((AnalysisKind::Tradeoffs, _))));
    let r = handler.analysis_for(&payload(ComponentType::Objectives), Ok(Some(session))).unwrap();
    assert!(r.is_none());
}

#[test]
fn analysis_fails_without_cycle() {
    let handler = AnalysisTriggerHandler::new();
    let err = handler.analysis_for(&payload(ComponentType::Consequences), Ok(None)).unwrap_err();
    assert_eq!(err.code, ErrorCode::CycleNotFound);
    assert_eq!(err.message, "Cycle not found: 00000000-0000-0000-0000-000000000002");
    let err = handler
        .analysis_for(&payload(ComponentType::Consequences), Err(DomainError::new(ErrorCode::DatabaseError, "db".to_string())))
        .unwrap_err();
    assert_eq!(err.code, ErrorCode::DatabaseError);
}

#[test]
fn missing_output_names_the_component() {
    let handler = AnalysisTriggerHandler::new();
    let err = handler.output_found(AnalysisKind::Pugh, Ok(None)).unwrap_err();
    assert_eq!(err.code, ErrorCode::ComponentNotFound);
    assert_eq!(err.message, "Consequences component output not found");
    let err = handler.output_found(AnalysisKind::DecisionQuality, Ok(None)).unwrap_err();
    assert_eq!(err.message, "DecisionQuality component output not found");
    let err = handler.output_found(AnalysisKind::Tradeoffs, Ok(None)).unwrap_err();
    assert_eq!(err.message, "Consequences component output not found for tradeoff analysis");
}

#[test]
fn parses_consequences_table_from_fields() {
    let handler = AnalysisTriggerHandler::new();
    let output = obj(vec![
        ("alternatives", JsonValue::Array(vec![obj(vec![("id", s("a1"))]), obj(vec![("name", s("no id"))]), obj(vec![("id", s("a2"))])])),
        ("objectives", JsonValue::Array(vec![obj(vec![("id", s("o1"))])])),
        ("cells", JsonValue::Array(vec![
            obj(vec![("alternative_id", s("a1")), ("objective_id", s("o1")), ("rating", num(2))]),
            obj(vec![("alternative_id", s("a2")), ("objective_id", s("o1")), ("rating", num(7))]),
            obj(vec![("alternative_id", s("a2")), ("objective_id", s("o1")), ("rating", num(-9))]),
            obj(vec![("alternative_id", s("a2")), ("rating", num(1))]),
            obj(vec![("alternative_id", s("a1")), ("objective_id", s("o1"))]),
        ])),
    ]);
    let table = handler.parse_consequences_table(&output, None).unwrap();
    assert_eq!(table.alternatives, vec!["a1".to_string(), "a2".to_string()]);
    assert_eq!(table.objectives, vec!["o1".to_string()]);
    let ratings: Vec<i8> = table.cells.iter().map(|c| c.rating).collect();
    assert_eq!(ratings, vec![2, 2, -2, 0]);
    assert_eq!(table.cells[1].alternative_id, "a2");
}

#[test]
fn consequences_table_needs_alternatives_and_objectives() {
    let handler = AnalysisTriggerHandler::new();
    let err = handler.parse_consequences_table(&obj(vec![("objectives", JsonValue::Array(vec![]))]), None).unwrap_err();
    assert_eq!(err.message, "Missing alternatives in output");
    let err = handler.parse_consequences_table(&obj(vec![("alternatives", JsonValue::Array(vec![]))]), None).unwrap_err();
    assert_eq!(err.message, "Missing objectives in output");
    let only = obj(vec![("alternatives", JsonValue::Array(vec![])), ("objectives", JsonValue::Array(vec![]))]);
    let table = handler.parse_consequences_table(&only, None).unwrap();
    assert!(table.cells.is_empty());
    let direct = ConsequencesTable { alternatives: vec!["x".to_string()], objectives: vec![], cells: vec![] };
    let table = handler.parse_consequences_table(&JsonValue::Null, Some(direct)).unwrap();
    assert_eq!(table.alternatives, vec!["x".to_string()]);
}

#[test]
fn parses_dq_elements() {
    let handler = AnalysisTriggerHandler::new();
    let output = obj(vec![("elements", JsonValue::Array(vec![
        obj(vec![("name", s("Helpful Problem Frame")), ("score", num(85)), ("rationale", s("Clear framing"))]),
        obj(vec![("score", num(65)), ("improvement_path", s("List more options"))]),
    ]))]);
    let elements = handler.parse_dq_elements(&output).unwrap();
    assert_eq!(elements.len(), 2);
    assert_eq!(elements[0].name, "Helpful Problem Frame");
    assert_eq!(elements[0].score, 85);
    assert_eq!(elements[0].rationale, Some("Clear framing".to_string()));
    assert_eq!(elements[1].name, "Unknown");
    assert_eq!(elements[1].improvement_path, Some("List more options".to_string()));
    let err = handler.parse_dq_elements(&obj(vec![("elements", JsonValue::Array(vec![]))])).unwrap_err();
    assert_eq!(err.message, "No DQ elements found in output");
    let err = handler.parse_dq_elements(&obj(vec![])).unwrap_err();
    assert_eq!(err.message, "Missing elements array in DQ output");
}

#[test]
fn best_alternative_is_last_of_highest() {
    let handler = AnalysisTriggerHandler::new();
    let scores = vec![("a".to_string(), 3), ("b".to_string(), 7), ("c".to_string(), 7), ("d".to_string(), -1)];
    assert_eq!(handler.best_alternative(&scores), Some("c".to_string()));
    assert_eq!(handler.best_alternative(&vec![]), None);
    let p = handler.pugh_event(CycleId::from_value(1), SessionId::from_value(2), scores, vec!["d".to_string()], vec![], "evt-1".to_string());
    let event = p.event;
    assert_eq!(event.best_alternative_id, Some("c".to_string()));
    assert_eq!(event.dominated_alternatives, vec!["d".to_string()]);
}

#[test]
fn suggestions_only_for_elements_under_eighty() {
    let handler = AnalysisTriggerHandler::new();
    let sorted = vec![element("Clear Tradeoffs", 65, None), element("Alternatives", 70, Some("Add options")), element("Frame", 85, None), element("Edge", 80, None)];
    let suggestions = handler.improvement_suggestions(&sorted);
    assert_eq!(suggestions, vec!["Improve Clear Tradeoffs (currently at 65%)".to_string(), "Add options".to_string()]);
    let strong = vec![element("Frame", 90, None)];
    assert!(handler.improvement_suggestions(&strong).is_empty());
}

#[test]
fn dq_event_reports_scores_and_weakest() {
    let handler = AnalysisTriggerHandler::new();
    let elements = vec![element("Frame", 85, None), element("Clear Tradeoffs", 65, None)];
    let weakest = &elements[1];
    let p = handler.dq_event(CycleId::from_value(1), SessionId::from_value(2), &elements, 65, Some(weakest), &vec![elements[1].clone()], "evt-dq".to_string());
    assert_eq!(p.causation_id, Some("evt-dq".to_string()));
    assert_eq!(p.event.event_type(), "analysis.dq_scores_computed");
    let event = p.event;
    assert_eq!(event.overall_score, 65);
    assert_eq!(event.weakest_element, "Clear Tradeoffs");
    assert_eq!(event.element_scores.len(), 2);
    assert_eq!(event.element_scores[0].rationale, "");
    assert_eq!(event.improvement_suggestions, vec!["Improve Clear Tradeoffs (currently at 65%)".to_string()]);
    assert_eq!(handler.weakest_element(None), "Unknown");
}

#[test]
fn tradeoffs_event_summarises_tensions() {
    let handler = AnalysisTriggerHandler::new();
    let tensions = vec![Tension { alternative_id: "a1".to_string(), gains: vec!["cost".to_string()], losses: vec!["time".to_string()] }];
    let p = handler.tradeoffs_event(CycleId::from_value(1), SessionId::from_value(2), 2, 1, &tensions, "evt-t".to_string());
    assert_eq!(p.causation_id, Some("evt-t".to_string()));
    assert_eq!(p.correlation_id, None);
    assert_eq!(p.event.event_type(), "analysis.tradeoffs_analyzed");
    let event = p.event;
    assert_eq!(event.dominated_count, 2);
    assert_eq!(event.irrelevant_count, 1);
    assert_eq!(event.tension_summaries.len(), 1);
    assert_eq!(event.tension_summaries[0].alternative_name, "a1");
    assert_eq!(event.tension_summaries[0].strengths, vec!["cost".to_string()]);
    assert_eq!(event.tension_summaries[0].weaknesses, vec!["time".to_string()]);
}

#[test]
fn out_of_range_ratings_are_clamped() {
    let handler = AnalysisTriggerHandler::new();
    let cell = |alt: &str, rating: u64| {
        JsonValue::Object(vec![
            ("alternative_id".to_string(), JsonValue::Str(alt.to_string())),
            ("objective_id".to_string(), JsonValue::Str("o1".to_string())),
            ("rating".to_string(), JsonValue::Number(JsonNumber::PosInt(rating))),
        ])
    };
    let output = JsonValue::Object(vec![
        ("alternatives".to_string(), JsonValue::Array(vec![JsonValue::Object(vec![("id".to_string(), JsonValue::Str("a1".to_string()))])])),
        ("objectives".to_string(), JsonValue::Array(vec![JsonValue::Object(vec![("id".to_string(), JsonValue::Str("o1".to_string()))])])),
        ("cells".to_string(), JsonValue::Array(vec![cell("a1", 200), cell("", 1)])),
    ]);
    let table = handler.parse_consequences_table(&output, None).unwrap();
    assert_eq!(table.cells.len(), 1);
    assert_eq!(table.cells[0].alternative_id, "a1");
    assert_eq!(table.cells[0].rating, 2);
}

#[test]
fn pugh_event_is_caused_by_the_completion_event() {
    let handler = AnalysisTriggerHandler::new();
    let scores = vec![("alt-1".to_string(), 3), ("alt-2".to_string(), -1)];
    let p = handler.pugh_event(CycleId::from_value(1), SessionId::from_value(2), scores.clone(), vec![], vec![], "original-event-id".to_string());
    assert_eq!(p.causation_id, Some("original-event-id".to_string()));
    assert_eq!(p.correlation_id, None);
    assert_eq!(p.user_id, None);
    assert_eq!(p.event.event_type(), "analysis.pugh_scores_computed");
    assert_eq!(p.event.cycle_id, CycleId::from_value(1));
    assert_eq!(p.event.session_id, SessionId::from_value(2));
    assert_eq!(p.event.alternative_scores, scores);
    assert_eq!(p.event.best_alternative_id, Some("alt-1".to_string()));
}
