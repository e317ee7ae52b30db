use backend::foundation::{ComponentId, ComponentType, SessionId, UserId};
use backend::stream_message::{
    AIProviderError, AgentPhase, ConversationRecord, ConversationState, MessageId, MessageRole,
    RepositoryError, StoredMessage, StreamChunk, StreamMessageCommand, StreamMessageError,
    StreamWebSocketMessage, StreamingMessageHandler,
};

fn sample_record() -> ConversationRecord {
    ConversationRecord {
        component_id: ComponentId::new(),
        component_type: ComponentType::IssueRaising,
        state: ConversationState::InProgress,
        phase: AgentPhase::Gather,
        messages: vec![
            StoredMessage::user("First message"),
            StoredMessage::assistant("Response"),
            StoredMessage::user("Second message"),
        ],
        user_id: UserId::new("user-123").unwrap(),
        system_prompt: "You are helpful.".to_string(),
    }
}

fn chunk(delta: &str, last: bool) -> StreamChunk {
    StreamChunk {
        delta: delta.to_string(),
        finish_reason: if last { Some("stop".to_string()) } else { None },
    }
}

#[test]
fn generates_unique_ids() {
    let id1 = MessageId::new();
    let id2 = MessageId::new();
    assert_ne!(id1, id2);
}

#[test]
fn displays_as_uuid() {
    let id = MessageId::new();
    let display = id.to_string();
    assert!(display.len() == 36);
}

#[test]
fn message_id_text_is_hyphenated_uuid() {
    let id = MessageId::from_uuid(0x0123_4567_89ab_cdef_0123_4567_89ab_cdef);
    assert_eq!(id.to_string(), "01234567-89ab-cdef-0123-456789abcdef");
    assert_eq!(id.as_uuid(), 0x0123_4567_89ab_cdef_0123_4567_89ab_cdef);
}

#[test]
fn creates_user_message() {
    let msg = StoredMessage::user("Hello");
    assert_eq!(msg.role, MessageRole::User);
    assert_eq!(msg.content, "Hello");
}

#[test]
fn creates_assistant_message() {
    let msg = StoredMessage::assistant("Hi there!");
    assert_eq!(msg.role, MessageRole::Assistant);
    assert_eq!(msg.content, "Hi there!");
}

#[test]
fn converts_to_context_message() {
    let msg = StoredMessage::user("Test");
    let ctx = msg.to_context_message();
    assert_eq!(ctx.role, MessageRole::User);
    assert_eq!(ctx.content, "Test");
}

#[test]
fn counts_user_messages() {
    let record = sample_record();
    assert_eq!(record.user_message_count(), 2);
}

#[test]
fn gets_latest_user_message() {
    let record = sample_record();
    assert_eq!(record.latest_user_message(), Some("Second message".to_string()));
}

#[test]
fn creates_snapshot() {
    let record = sample_record();
    let snapshot = record.to_snapshot();
    assert_eq!(snapshot.user_message_count, 2);
    assert_eq!(snapshot.latest_user_message, Some("Second message".to_string()));
    assert_eq!(snapshot.component_type, ComponentType::IssueRaising);
}

#[test]
fn converts_to_context_messages() {
    let record = sample_record();
    let context = record.to_context_messages();
    assert_eq!(context.len(), 3);
}

#[test]
fn creates_command() {
    let cmd = StreamMessageCommand::new(
        SessionId::new(),
        ComponentId::new(),
        UserId::new("user-1").unwrap(),
        "Test message",
    );
    assert_eq!(cmd.content, "Test message");
}

#[test]
fn user_message_becomes_latest_and_assistant_message_does_not() {
    let mut record = sample_record();
    record.messages.push(StoredMessage::user("Third"));
    assert_eq!(record.user_message_count(), 3);
    assert_eq!(record.latest_user_message(), Some("Third".to_string()));
    record.messages.push(StoredMessage::assistant("Answer"));
    assert_eq!(record.user_message_count(), 3);
    assert_eq!(record.latest_user_message(), Some("Third".to_string()));
}

#[test]
fn no_latest_user_message_without_user_messages() {
    let mut record = sample_record();
    record.messages = vec![StoredMessage::assistant("Welcome")];
    assert_eq!(record.user_message_count(), 0);
    assert_eq!(record.latest_user_message(), None);
}

#[test]
fn accepts_message_from_owner_in_active_conversation() {
    let handler = StreamingMessageHandler::new();
    let record = sample_record();
    let cmd = StreamMessageCommand::new(SessionId::new(), record.component_id, UserId::new("user-123").unwrap(), "Hello");
    let (conversation, message) = handler.accept_message(&cmd, Ok(Some(record))).unwrap();
    assert_eq!(message.role, MessageRole::User);
    assert_eq!(message.content, "Hello");
    assert_eq!(conversation.messages.len(), 4);
    assert_eq!(conversation.messages[3].content, "Hello");
}

#[test]
fn rejects_message_of_other_user() {
    let handler = StreamingMessageHandler::new();
    let record = sample_record();
    let cmd = StreamMessageCommand::new(SessionId::new(), record.component_id, UserId::new("intruder").unwrap(), "Hello");
    let err = handler.accept_message(&cmd, Ok(Some(record))).unwrap_err();
    assert!(matches!(err, StreamMessageError::Unauthorized));
    assert_eq!(err.to_string(), "User not authorized to access this conversation");
}

#[test]
fn rejects_message_in_completed_conversation() {
    let handler = StreamingMessageHandler::new();
    let mut record = sample_record();
    record.state = ConversationState::Complete;
    let cmd = StreamMessageCommand::new(SessionId::new(), record.component_id, UserId::new("user-123").unwrap(), "Hello");
    let err = handler.accept_message(&cmd, Ok(Some(record))).unwrap_err();
    assert!(matches!(err, StreamMessageError::ConversationNotActive));
    assert_eq!(err.to_string(), "Conversation is not in an active state");
}

#[test]
fn reports_missing_conversation_and_repository_errors() {
    let handler = StreamingMessageHandler::new();
    let component_id = ComponentId::from_value(1);
    let cmd = StreamMessageCommand::new(SessionId::new(), component_id, UserId::new("user-123").unwrap(), "Hello");
    let err = handler.accept_message(&cmd, Ok(None)).unwrap_err();
    assert_eq!(err.to_string(), "Conversation not found for component 00000000-0000-0000-0000-000000000001");
    let err = handler
        .accept_message(&cmd, Err(RepositoryError::DatabaseError("down".to_string())))
        .unwrap_err();
    assert_eq!(err.to_string(), "Repository error: Database error: down");
    let err = handler.accept_message(&cmd, Err(RepositoryError::NotFound)).unwrap_err();
    assert_eq!(err.to_string(), "Repository error: Not found");
}

#[test]
fn streamed_answer_is_the_chunks_in_order() {
    let handler = StreamingMessageHandler::new();
    let id = MessageId::new();
    let mut progress = handler.stream_opened(id, Ok(())).unwrap();
    let (msg, ok) = progress.on_chunk(Ok(chunk("Hel", false)));
    assert!(ok.is_ok());
    match msg {
        StreamWebSocketMessage::StreamChunk { message_id, delta, is_final } => {
            assert_eq!(message_id, id);
            assert_eq!(delta, "Hel");
            assert!(!is_final);
        }
        _ => panic!("expected a chunk"),
    }
    let (msg, _) = progress.on_chunk(Ok(chunk("lo", true)));
    assert!(matches!(msg, StreamWebSocketMessage::StreamChunk { is_final: true, .. }));
    assert_eq!(progress.full_response, "Hello");

    let record = sample_record();
    let (conversation, answer) = handler.finish_stream(record, &progress);
    assert_eq!(answer.id, id);
    assert_eq!(answer.role, MessageRole::Assistant);
    assert_eq!(answer.content, "Hello");
    assert_eq!(conversation.messages.len(), 4);

    let user_message_id = MessageId::new();
    let (complete, result) = handler.conclude(&conversation, user_message_id, progress, AgentPhase::Clarify);
    match complete {
        StreamWebSocketMessage::StreamComplete { message_id, full_content, usage } => {
            assert_eq!(message_id, id);
            assert_eq!(full_content, "Hello");
            assert!(usage.is_none());
        }
        _ => panic!("expected completion"),
    }
    assert_eq!(result.user_message_id, user_message_id);
    assert_eq!(result.assistant_message_id, id);
    assert_eq!(result.new_phase, AgentPhase::Clarify);
    assert_eq!(result.new_state, ConversationState::InProgress);
}

#[test]
fn stream_error_is_broadcast_and_fails() {
    let handler = StreamingMessageHandler::new();
    let id = MessageId::new();
    let mut progress = handler.stream_opened(id, Ok(())).unwrap();
    progress.on_chunk(Ok(chunk("partial", false)));
    let (msg, result) = progress.on_chunk(Err(AIProviderError::ConnectionError("reset".to_string())));
    match msg {
        StreamWebSocketMessage::StreamError { message_id, error } => {
            assert_eq!(message_id, id);
            assert_eq!(error, "Connection error: reset");
        }
        _ => panic!("expected an error message"),
    }
    let err = result.unwrap_err();
    assert_eq!(err.to_string(), "AI provider error: Connection error: reset");
    assert_eq!(progress.full_response, "partial");
}

#[test]
fn failed_stream_opening_is_provider_error() {
    let handler = StreamingMessageHandler::new();
    let err = handler.stream_opened(MessageId::new(), Err(AIProviderError::RateLimited)).err().unwrap();
    assert_eq!(err.to_string(), "AI provider error: Rate limited");
    let err = handler
        .stream_opened(MessageId::new(), Err(AIProviderError::ApiError("bad".to_string())))
        .err()
        .unwrap();
    assert_eq!(err.to_string(), "AI provider error: API error: bad");
}

#[test]
fn ready_conversation_moves_to_in_progress() {
    let handler = StreamingMessageHandler::new();
    let mut record = sample_record();
    record.state = ConversationState::Ready;
    let progress = handler.stream_opened(MessageId::new(), Ok(())).unwrap();
    let (_, result) = handler.conclude(&record, MessageId::new(), progress, AgentPhase::Gather);
    assert_eq!(result.new_state, ConversationState::InProgress);
}

#[test]
fn snapshot_after_assistant_saved() {
    let handler = StreamingMessageHandler::new();
    let record = sample_record();
    let snapshot = handler.assistant_saved(&record, Ok(())).unwrap();
    assert_eq!(snapshot.user_message_count, 2);
    let err = handler.assistant_saved(&record, Err(RepositoryError::NotFound)).unwrap_err();
    assert!(matches!(err, StreamMessageError::RepositoryError(_)));
}
