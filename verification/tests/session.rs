use backend::foundation::{CommandMetadata, CycleId, DomainError, ErrorCode, SessionId, SessionStatus, Timestamp, UserId};
use backend::ports::{AccessDeniedReason, AccessResult};
use backend::session::create_session::{CreateSessionCommand, CreateSessionHandler};
use backend::session::get_session::{GetSessionHandler, GetSessionQuery};
use backend::session::list_user_sessions::{ListOptions, ListUserSessionsHandler, ListUserSessionsQuery};
use backend::session::model::{Session, SessionError, SessionView};
use backend::session::rename_session::{RenameSessionCommand, RenameSessionHandler};
use backend::session::session_cycle_tracker::{CycleCreated, SessionCycleTracker};

fn user(name: &str) -> UserId {
    UserId::new(name).unwrap()
}

fn session_of(owner: &str) -> Session {
    Session {
        id: SessionId::from_value(3),
        user_id: user(owner),
        title: "Old title".to_string(),
        description: Some("why".to_string()),
        status: SessionStatus::Active,
        cycle_ids: vec![],
        created_at: Timestamp::from_secs(100),
        updated_at: Timestamp::from_secs(100),
    }
}

fn view_of(owner: &str) -> SessionView {
    SessionView {
        id: SessionId::from_value(3),
        user_id: user(owner),
        title: "Title".to_string(),
        description: None,
        status: SessionStatus::Active,
        cycle_count: 2,
        created_at: Timestamp::from_secs(1),
        updated_at: Timestamp::from_secs(2),
    }
}

fn metadata() -> CommandMetadata {
    CommandMetadata { user_id: user("owner"), correlation_id: "req-1".to_string() }
}

#[test]
fn create_session_draft_and_event() {
    let handler = CreateSessionHandler::new();
    let cmd = CreateSessionCommand { user_id: user("owner"), title: "Career move".to_string(), description: Some("d".to_string()) };
    let draft = handler.session_draft(&cmd);
    assert_eq!(draft.title, "Career move");
    assert_eq!(draft.description, Some("d".to_string()));
    assert_eq!(draft.user_id, cmd.user_id);
    let session = session_of("owner");
    let p = handler.created_event(&cmd, &session, &metadata(), Ok(())).unwrap();
    assert_eq!(p.event.session_id, session.id);
    assert_eq!(p.event.title, "Career move");
    assert_eq!(p.event.description, Some("d".to_string()));
    assert_eq!(p.correlation_id, Some("req-1".to_string()));
    let err = handler
        .created_event(&cmd, &session, &metadata(), Err(DomainError::new(ErrorCode::DatabaseError, "x".to_string())))
        .unwrap_err();
    assert!(matches!(err, SessionError::Domain(_)));
}

#[test]
fn create_session_denied_access() {
    let handler = CreateSessionHandler::new();
    let denied = AccessResult::Denied(AccessDeniedReason { description: "No membership".to_string() });
    let err = handler.access_checked(Ok(denied)).unwrap_err();
    assert!(matches!(err, SessionError::AccessDenied(ref r) if r.description == "No membership"));
    assert!(handler.access_checked(Ok(AccessResult::Allowed)).is_ok());
}

#[test]
fn get_session_only_for_owner() {
    let handler = GetSessionHandler::new();
    let query = GetSessionQuery { session_id: SessionId::from_value(3), user_id: user("owner") };
    let v = handler.handle(&query, Ok(Some(view_of("owner")))).unwrap();
    assert_eq!(v.cycle_count, 2);
    let err = handler.handle(&query, Ok(Some(view_of("someone-else")))).unwrap_err();
    assert!(matches!(err, SessionError::Forbidden));
    let err = handler.handle(&query, Ok(None)).unwrap_err();
    assert!(matches!(err, SessionError::NotFound(id) if id == query.session_id));
}

#[test]
fn list_options_from_queries() {
    let all = ListUserSessionsQuery::all_active(user("owner"));
    assert_eq!(all.to_list_options(), ListOptions::default());
    let paged = ListUserSessionsQuery::paginated(user("owner"), 2, 10);
    assert_eq!(paged.to_list_options(), ListOptions::paginated(2, 10));
    let half = ListUserSessionsQuery { page: Some(2), ..ListUserSessionsQuery::all_active(user("owner")) };
    assert_eq!(half.to_list_options().limit, None);
    assert_eq!(half.to_list_options().offset, None);
    let filtered = ListUserSessionsQuery { status: Some(SessionStatus::Archived), include_archived: true, ..paged };
    let o = filtered.to_list_options();
    assert_eq!(o.status, Some(SessionStatus::Archived));
    assert!(o.include_archived);
    assert_eq!(o.limit, Some(10));
    assert_eq!(ListOptions::default().with_status(SessionStatus::Active).with_archived().status, Some(SessionStatus::Active));
    let first = ListUserSessionsQuery::paginated(user("owner"), 1, 2).to_list_options();
    assert_eq!((first.limit, first.offset), (Some(2), Some(0)));
    let _ = ListUserSessionsHandler::new();
}

#[test]
fn list_options_conversion_handles_pagination() {
    let query = ListUserSessionsQuery::paginated(UserId::new("test-user-123").unwrap(), 2, 10);
    let options = query.to_list_options();
    assert_eq!(options.limit, Some(10));
    assert_eq!(options.offset, Some(10));
}

#[test]
fn list_options_conversion_handles_status_filter() {
    let mut query = ListUserSessionsQuery::all_active(UserId::new("test-user-123").unwrap());
    query.status = Some(SessionStatus::Active);
    let options = query.to_list_options();
    assert_eq!(options.status, Some(SessionStatus::Active));
}

#[test]
fn list_options_conversion_handles_archived_flag() {
    let mut query = ListUserSessionsQuery::all_active(UserId::new("test-user-123").unwrap());
    query.include_archived = true;
    let options = query.to_list_options();
    assert!(options.include_archived);
}

#[test]
fn rename_checks_owner_and_keeps_old_title() {
    let handler = RenameSessionHandler::new();
    let cmd = RenameSessionCommand { session_id: SessionId::from_value(3), user_id: user("owner"), new_title: "New title".to_string() };
    let (session, old) = handler.session_found(&cmd, Ok(Some(session_of("owner")))).unwrap();
    assert_eq!(old, "Old title");
    let err = handler.session_found(&cmd, Ok(Some(session_of("other")))).unwrap_err();
    assert!(matches!(err, SessionError::Forbidden));
    let err = handler.session_found(&cmd, Ok(None)).unwrap_err();
    assert!(matches!(err, SessionError::NotFound(_)));
    let p = handler.renamed_event(&cmd, old, &metadata(), Ok(())).unwrap();
    assert_eq!(p.event.old_title, "Old title");
    assert_eq!(p.event.new_title, "New title");
    let result = handler.finish(session, p.event);
    assert_eq!(result.event.new_title, "New title");
    assert!(handler
        .renamed_event(&cmd, "Old title".to_string(), &metadata(), Err(DomainError::new(ErrorCode::DatabaseError, "x".to_string())))
        .is_err());
}

#[test]
fn tracker_records_cycle_caused_by_event() {
    let tracker = SessionCycleTracker::new();
    assert_eq!(tracker.name(), "SessionCycleTracker");
    let created = CycleCreated {
        cycle_id: CycleId::from_value(8),
        session_id: SessionId::from_value(3),
        parent_cycle_id: None,
        created_at: Timestamp::from_secs(5),
    };
    let p = tracker.added_event(&created, true, "evt-1".to_string(), Ok(())).unwrap();
    assert_eq!(p.event.cycle_id, created.cycle_id);
    assert!(p.event.is_root_cycle);
    assert_eq!(p.causation_id, Some("evt-1".to_string()));
    assert_eq!(p.correlation_id, None);
    let err = tracker.session_found(&created, Ok(None)).unwrap_err();
    assert_eq!(err.code, ErrorCode::SessionNotFound);
    assert_eq!(err.message, "Session not found: 00000000-0000-0000-0000-000000000003");
    let err = tracker.payload_parsed(Err("missing field".to_string())).unwrap_err();
    assert_eq!(err.code, ErrorCode::ValidationFailed);
    assert_eq!(err.message, "missing field");
    assert!(tracker
        .added_event(&created, false, "evt-2".to_string(), Err(DomainError::new(ErrorCode::DatabaseError, "x".to_string())))
        .is_err());
}

#[test]
fn add_cycle_marks_first_cycle_as_root() {
    let mut session = session_of("owner");
    assert!(session.add_cycle(CycleId::from_value(8)));
    assert_eq!(session.cycle_ids, vec![CycleId::from_value(8)]);
}

#[test]
fn add_cycle_second_cycle_is_not_root() {
    let mut session = session_of("owner");
    session.add_cycle(CycleId::from_value(7));
    assert!(!session.add_cycle(CycleId::from_value(8)));
    assert_eq!(session.cycle_ids, vec![CycleId::from_value(7), CycleId::from_value(8)]);
}

#[test]
fn add_cycle_twice_lists_the_cycle_once() {
    let mut session = session_of("owner");
    let tracker = SessionCycleTracker::new();
    let created = CycleCreated {
        cycle_id: CycleId::from_value(8),
        session_id: SessionId::from_value(3),
        parent_cycle_id: None,
        created_at: Timestamp::from_secs(5),
    };
    let first = session.add_cycle(created.cycle_id);
    let second = session.add_cycle(created.cycle_id);
    assert!(first);
    assert!(!second);
    assert_eq!(session.cycle_ids.len(), 1);
    let p1 = tracker.added_event(&created, first, "evt-cycle-1".to_string(), Ok(())).unwrap();
    let p2 = tracker.added_event(&created, second, "evt-cycle-1".to_string(), Ok(())).unwrap();
    assert!(p1.event.is_root_cycle);
    assert!(!p2.event.is_root_cycle);
    assert_eq!(p1.causation_id, Some("evt-cycle-1".to_string()));
    assert_eq!(p2.causation_id, Some("evt-cycle-1".to_string()));
}
