use backend::conversation::get_conversation::{GetConversationHandler, GetConversationQuery};
use backend::conversation::regenerate_response::{
    AIError, AIStreamChunk, ConversationRecord, OwnershipInfo, RegenerateResponseCommand, RegenerateResponseError,
    RegenerateResponseHandler, StreamEvent, StreamFlow,
};
use backend::conversation::send_message::{map_repository_error, ConversationRepositoryError, SendMessageCommand, SendMessageHandler};
use backend::foundation::{ComponentId, ComponentType, ConversationId, CycleId, DomainError, ErrorCode, SessionId, Timestamp, UserId};
use backend::stream_message::{AgentPhase, ConversationState, MessageId, MessageRole, StoredMessage, TokenUsage};

fn record(messages: Vec<StoredMessage>, state: ConversationState) -> ConversationRecord {
    ConversationRecord {
        id: ConversationId::from_value(0x10),
        component_id: ComponentId::from_value(0x20),
        component_type: ComponentType::Objectives,
        state,
        phase: AgentPhase::Gather,
        messages,
        user_id: UserId::new("owner").unwrap(),
        system_prompt: "Be brief.".to_string(),
        created_at: Timestamp::from_secs(1),
        updated_at: Timestamp::from_secs(2),
    }
}

fn ownership() -> OwnershipInfo {
    OwnershipInfo { session_id: SessionId::from_value(1), cycle_id: CycleId::from_value(2), component_type: ComponentType::Objectives }
}

fn command() -> RegenerateResponseCommand {
    RegenerateResponseCommand::new(UserId::new("owner").unwrap(), ComponentId::from_value(0x20))
}

#[test]
fn regenerate_selects_the_last_answer() {
    let handler = RegenerateResponseHandler::new();
    let answer = StoredMessage::assistant("First answer");
    let answer_id = answer.id;
    let conv = record(vec![StoredMessage::user("Question"), answer], ConversationState::InProgress);
    let (conv, id) = handler.select_last_answer(&command(), Ok(Some(conv))).unwrap();
    assert_eq!(id, answer_id);
    let (conv, new_id, req) = handler.last_answer_deleted(&command(), &ownership(), conv, Ok(Some(id))).unwrap();
    assert_eq!(conv.messages.len(), 1);
    assert_eq!(req.messages.len(), 1);
    assert_eq!(req.messages[0].role, MessageRole::User);
    assert_eq!(req.messages[0].content, "Question");
    assert_eq!(req.metadata.request_id, format!("regen-{}", new_id.to_string()));
    assert_eq!(req.metadata.session_id, SessionId::from_value(1));
    assert_eq!(req.system_prompt, "Be brief.");
}

#[test]
fn regenerate_refusals() {
    let handler = RegenerateResponseHandler::new();
    let err = handler.select_last_answer(&command(), Ok(Some(record(vec![], ConversationState::InProgress)))).unwrap_err();
    assert!(matches!(err, RegenerateResponseError::NoMessagesToRegenerate));
    assert_eq!(err.to_string(), "No messages to regenerate: conversation is empty");
    let err = handler
        .select_last_answer(&command(), Ok(Some(record(vec![StoredMessage::user("Q")], ConversationState::InProgress))))
        .unwrap_err();
    assert_eq!(err.to_string(), "Cannot regenerate: last message is not from assistant");
    let err = handler
        .select_last_answer(&command(), Ok(Some(record(vec![StoredMessage::assistant("A")], ConversationState::Complete))))
        .unwrap_err();
    assert_eq!(err.to_string(), "Conversation is complete and cannot regenerate responses");
    let err = handler.select_last_answer(&command(), Ok(None)).unwrap_err();
    assert_eq!(err.to_string(), "Conversation not found for component 00000000-0000-0000-0000-000000000020");
    let err = handler.ownership_checked(Err(DomainError::new(ErrorCode::Forbidden, "no".to_string()))).unwrap_err();
    assert_eq!(err.to_string(), "Forbidden: user does not own this conversation");
    let err = handler
        .select_last_answer(&command(), Err(DomainError::new(ErrorCode::DatabaseError, "db down".to_string())))
        .unwrap_err();
    assert_eq!(err.to_string(), "Domain error: db down");
}

#[test]
fn regenerated_answer_streams_and_records_usage() {
    let handler = RegenerateResponseHandler::new();
    let new_id = MessageId::from_uuid(5);
    let mut progress = handler.stream_opened(new_id, Ok(())).unwrap();
    let (ev, flow) = progress.on_item(Some(Ok(AIStreamChunk { delta: "New ".to_string(), is_final: false, usage: None })));
    assert!(matches!(ev, Some(StreamEvent::Chunk { ref delta, .. }) if delta == "New "));
    assert!(matches!(flow, StreamFlow::Continue));
    let usage = TokenUsage { prompt_tokens: 10, completion_tokens: 4, estimated_cost_cents: 1 };
    let (_, flow) = progress.on_item(Some(Ok(AIStreamChunk { delta: "answer".to_string(), is_final: true, usage: Some(usage) })));
    assert!(matches!(flow, StreamFlow::Stop));
    assert_eq!(progress.full_content, "New answer");
    let m = handler.new_answer(&progress);
    assert_eq!(m.id, new_id);
    assert_eq!(m.content, "New answer");
    assert_eq!(m.token_count, Some(4));
    let done = handler.answer_saved(&progress, Ok(())).unwrap();
    assert!(matches!(done, StreamEvent::Complete { ref full_content, usage: Some(u), .. } if full_content == "New answer" && u == usage));
    let result = handler.finish(MessageId::from_uuid(1), &progress, AgentPhase::Clarify, Ok(())).unwrap();
    assert_eq!(result.new_message_id, new_id);
    assert_eq!(result.deleted_message_id, MessageId::from_uuid(1));
    assert_eq!(result.usage, Some(usage));
}

#[test]
fn regenerated_stream_end_and_error() {
    let handler = RegenerateResponseHandler::new();
    let mut progress = handler.stream_opened(MessageId::from_uuid(5), Ok(())).unwrap();
    let (ev, flow) = progress.on_item(None);
    assert!(ev.is_none());
    assert!(matches!(flow, StreamFlow::Stop));
    let (ev, flow) = progress.on_item(Some(Err(AIError { message: "timeout".to_string() })));
    assert!(matches!(ev, Some(StreamEvent::Error { ref error, .. }) if error == "timeout"));
    assert!(matches!(flow, StreamFlow::Fail(RegenerateResponseError::AIProviderError(ref m)) if m == "timeout"));
    let err = handler.stream_opened(MessageId::from_uuid(6), Err(AIError { message: "quota".to_string() })).err().unwrap();
    assert_eq!(err.to_string(), "AI provider error: quota");
}

#[test]
fn phase_snapshot_of_remaining_messages() {
    let handler = RegenerateResponseHandler::new();
    let conv = record(vec![StoredMessage::user("one"), StoredMessage::assistant("a"), StoredMessage::user("two")], ConversationState::InProgress);
    let snapshot = handler.phase_snapshot(&conv, &ownership());
    assert_eq!(snapshot.user_message_count, 2);
    assert_eq!(snapshot.latest_user_message, Some("two".to_string()));
    assert_eq!(snapshot.component_type, ComponentType::Objectives);
    assert_eq!(conv.user_message_count(), 2);
    assert!(conv.has_messages());
}

#[test]
fn get_conversation_missing() {
    let handler = GetConversationHandler::new();
    let query = GetConversationQuery { component_id: ComponentId::from_value(0x20) };
    let err = handler.handle::<u8>(&query, Ok(None)).unwrap_err();
    assert_eq!(err.code, ErrorCode::ConversationNotFound);
    assert_eq!(err.message, "No conversation found for component 00000000-0000-0000-0000-000000000020");
    assert_eq!(handler.handle(&query, Ok(Some(3u8))).unwrap(), 3);
    let err = handler.get_by_id::<u8>(&ConversationId::from_value(0x10), Ok(None)).unwrap_err();
    assert_eq!(err.message, "Conversation not found: 00000000-0000-0000-0000-000000000010");
}

#[test]
fn repository_errors_map_to_domain_errors() {
    let e = map_repository_error(ConversationRepositoryError::NotFound(ConversationId::from_value(0x10)));
    assert_eq!(e.code, ErrorCode::ConversationNotFound);
    assert_eq!(e.message, "Conversation not found: 00000000-0000-0000-0000-000000000010");
    let e = map_repository_error(ConversationRepositoryError::Database("locked".to_string()));
    assert_eq!(e.code, ErrorCode::DatabaseError);
    assert_eq!(e.message, "locked");
    let e = map_repository_error(ConversationRepositoryError::Serialization("bad json".to_string()));
    assert_eq!(e.code, ErrorCode::InternalError);
    assert_eq!(e.message, "Serialization error: bad json");
}

#[test]
fn send_message_finishes_after_update() {
    let handler = SendMessageHandler::new();
    let cmd = SendMessageCommand { component_id: ComponentId::from_value(0x20), content: "hi".to_string() };
    let err = handler.conversation_found::<u8>(&cmd, Ok(None)).unwrap_err();
    assert_eq!(err.message, "No conversation found for component 00000000-0000-0000-0000-000000000020");
    let m = StoredMessage::user("hi");
    let result = handler.finish(ConversationId::from_value(0x10), Ok(m), Ok(())).unwrap();
    assert_eq!(result.message.content, "hi");
    let err = handler
        .finish(ConversationId::from_value(0x10), Ok(StoredMessage::user("hi")), Err(ConversationRepositoryError::Database("x".to_string())))
        .unwrap_err();
    assert_eq!(err.code, ErrorCode::DatabaseError);
    let err = handler
        .finish(ConversationId::from_value(0x10), Err(DomainError::new(ErrorCode::ValidationFailed, "empty".to_string())), Ok(()))
        .unwrap_err();
    assert_eq!(err.message, "empty");
}
