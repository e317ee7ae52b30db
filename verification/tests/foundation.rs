use backend::foundation::{u64_to_string, ComponentType, CycleId, DomainError, ErrorCode, Timestamp, UserId};
use backend::json::{JsonNumber, JsonValue};

#[test]
fn user_id_refuses_empty_text() {
    let err = UserId::new("").unwrap_err();
    assert_eq!(err.code, ErrorCode::ValidationFailed);
    let id = UserId::new("user-1").unwrap();
    assert_eq!(id.to_string(), "user-1");
    assert!(id.same_as(&UserId::new("user-1").unwrap()));
    assert!(!id.same_as(&UserId::new("user-2").unwrap()));
}

#[test]
fn ids_print_as_hyphenated_uuids() {
    let id = CycleId::from_value(0xfedc_ba98_7654_3210_0123_4567_89ab_cdef);
    assert_eq!(id.to_string(), "fedcba98-7654-3210-0123-456789abcdef");
    let fresh = CycleId::new();
    assert_eq!(fresh.to_string().len(), 36);
    assert_ne!(CycleId::new(), CycleId::new());
}

#[test]
fn timestamps_move_by_days() {
    let t = Timestamp::from_secs(1_000);
    assert_eq!(t.add_days(2).secs, 1_000 + 2 * 86_400);
    assert_eq!(t.add_days(-1).secs, 1_000 - 86_400);
    assert_eq!(t.add_days(0), t);
    assert!(Timestamp::now().secs > 1_600_000_000);
}

#[test]
fn component_names() {
    assert_eq!(ComponentType::IssueRaising.display_name(), "Issue Raising");
    assert_eq!(ComponentType::NotesNextSteps.debug_name(), "NotesNextSteps");
    assert_eq!(ComponentType::DecisionQuality.debug_name(), "DecisionQuality");
}

#[test]
fn domain_errors_print_their_message() {
    let e = DomainError::validation("title", "Title cannot be empty");
    assert_eq!(e.code, ErrorCode::ValidationFailed);
    assert_eq!(e.to_string(), "Title cannot be empty");
    let e = DomainError::new(ErrorCode::NotFound, "missing".to_string());
    assert_eq!(e.clone().message, "missing");
}

#[test]
fn json_lookups() {
    let v = JsonValue::Object(vec![
        ("name".to_string(), JsonValue::Str("x".to_string())),
        ("n".to_string(), JsonValue::Number(JsonNumber::PosInt(5))),
        ("neg".to_string(), JsonValue::Number(JsonNumber::NegInt(-3))),
        ("list".to_string(), JsonValue::Array(vec![JsonValue::Null])),
    ]);
    assert!(matches!(v.get("name"), Some(JsonValue::Str(s)) if s == "x"));
    assert!(v.get("missing").is_none());
    assert_eq!(v.get("n").unwrap().as_i64(), Some(5));
    assert_eq!(v.get("n").unwrap().as_u64(), Some(5));
    assert_eq!(v.get("neg").unwrap().as_i64(), Some(-3));
    assert_eq!(v.get("neg").unwrap().as_u64(), None);
    assert_eq!(v.get("list").unwrap().as_array().unwrap().len(), 1);
    assert!(v.get("list").unwrap().as_str().is_none());
    assert!(JsonValue::Null.is_null());
    assert!(JsonValue::Object(vec![]).is_empty_object());
    assert!(!v.is_empty_object());
    assert!(JsonValue::Array(vec![]).get("x").is_none());
    assert_eq!(JsonValue::Number(JsonNumber::PosInt(u64::MAX)).as_i64(), None);
}

#[test]
fn fresh_ids_are_version_four_uuids() {
    for _ in 0..20 {
        let text = CycleId::new().to_string();
        let chars: Vec<char> = text.chars().collect();
        assert_eq!(chars[14], '4');
        assert!(matches!(chars[19], '8' | '9' | 'a' | 'b'));
        let m = backend::stream_message::MessageId::new().to_string();
        assert_eq!(m.chars().nth(14), Some('4'));
    }
}

#[test]
fn integers_print_in_decimal() {
    assert_eq!(u64_to_string(0), "0");
    assert_eq!(u64_to_string(7), "7");
    assert_eq!(u64_to_string(10), "10");
    assert_eq!(u64_to_string(1203), "1203");
    assert_eq!(u64_to_string(u64::MAX), "18446744073709551615");
}
