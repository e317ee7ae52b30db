use backend::ai_engine::end_conversation::{EndConversationCommand, EndConversationError, EndConversationHandler};
use backend::ai_engine::get_conversation_state::{GetConversationStateError, GetConversationStateHandler};
use backend::ai_engine::model::{ConversationState, StateStorageError};
use backend::ai_engine::route_intent::{RouteIntentError, RouteIntentHandler};
use backend::ai_engine::send_message::{SendMessageCommand, SendMessageError, SendMessageHandler};
use backend::ai_engine::start_conversation::{StartConversationCommand, StartConversationError, StartConversationHandler};
use backend::foundation::{ComponentType, CycleId, SessionId};
use backend::stream_message::MessageRole;

fn state() -> ConversationState {
    ConversationState::new(CycleId::from_value(1), SessionId::from_value(2), ComponentType::Objectives)
}

#[test]
fn start_conversation_only_once_per_cycle() {
    let handler = StartConversationHandler::new();
    let cmd = StartConversationCommand { cycle_id: CycleId::from_value(1), session_id: SessionId::from_value(2), initial_component: ComponentType::ProblemFrame };
    let s = handler.existence_checked(&cmd, Ok(false)).unwrap();
    assert_eq!(s.current_step, ComponentType::ProblemFrame);
    assert!(s.messages.is_empty());
    let err = handler.existence_checked(&cmd, Ok(true)).unwrap_err();
    assert!(matches!(err, StartConversationError::AlreadyExists(id) if id == cmd.cycle_id));
    assert_eq!(err.to_string(), "Conversation already exists for cycle: 00000000-0000-0000-0000-000000000001");
    let result = handler.saved(s, Ok(())).unwrap();
    assert_eq!(result.state.cycle_id, cmd.cycle_id);
    let err = handler.saved(state(), Err(StateStorageError::Failure("disk".to_string()))).unwrap_err();
    assert_eq!(err.to_string(), "Storage error: disk");
}

#[test]
fn send_message_adds_user_message_and_answer() {
    let handler = SendMessageHandler::new();
    let cmd = SendMessageCommand { cycle_id: CycleId::from_value(1), message: "I want to move".to_string() };
    let (s, answer) = handler.exchange(&cmd, state());
    assert_eq!(answer, "I understand you're working on Objectives. Let me help you with that.");
    assert_eq!(s.messages.len(), 2);
    assert_eq!(s.messages[0].role, MessageRole::User);
    assert_eq!(s.messages[0].content, "I want to move");
    assert_eq!(s.messages[1].role, MessageRole::Assistant);
    assert_eq!(s.messages[1].content, answer);
    let (s, _) = handler.exchange(&cmd, s);
    assert_eq!(s.messages.len(), 4);
    let result = handler.saved(s, answer.clone(), Ok(())).unwrap();
    assert_eq!(result.ai_response, answer);
    let err = handler.saved(state(), answer, Err(StateStorageError::NotFound(CycleId::from_value(1)))).unwrap_err();
    assert!(matches!(err, SendMessageError::NotFound(_)));
    assert_eq!(err.to_string(), "Conversation not found for cycle: 00000000-0000-0000-0000-000000000001");
}

#[test]
fn end_conversation_needs_existing_state() {
    let handler = EndConversationHandler::new();
    let cmd = EndConversationCommand { cycle_id: CycleId::from_value(3) };
    assert!(handler.existence_checked(&cmd, Ok(true)).is_ok());
    let err = handler.existence_checked(&cmd, Ok(false)).unwrap_err();
    assert!(matches!(err, EndConversationError::NotFound(id) if id == cmd.cycle_id));
    assert!(handler.deleted(Ok(())).is_ok());
    let err = handler.deleted(Err(StateStorageError::Failure("io".to_string()))).unwrap_err();
    assert_eq!(err.to_string(), "Storage error: io");
}

#[test]
fn get_state_and_route_intent() {
    let handler = GetConversationStateHandler::new();
    let result = handler.handle(Ok(state())).unwrap();
    assert_eq!(result.state.current_step, ComponentType::Objectives);
    let err = handler.handle(Err(StateStorageError::NotFound(CycleId::from_value(9)))).unwrap_err();
    assert!(matches!(err, GetConversationStateError::NotFound(id) if id == CycleId::from_value(9)));
    let router = RouteIntentHandler::new();
    assert_eq!(router.routed(Ok(ComponentType::Alternatives)).unwrap().target_component, ComponentType::Alternatives);
    let err = router.routed(Err("invalid transition".to_string())).unwrap_err();
    assert!(matches!(err, RouteIntentError::Orchestrator(_)));
    assert_eq!(err.to_string(), "Orchestrator error: invalid transition");
    assert_eq!(StateStorageError::NotFound(CycleId::from_value(1)).to_string(), "State not found for cycle: 00000000-0000-0000-0000-000000000001");
}
