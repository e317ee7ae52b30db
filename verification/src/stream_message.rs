//! Streaming message handling: a user message goes into a component's
//! conversation, the AI answer streams back chunk by chunk to the session's
//! WebSocket connections, and the conversation moves on.
//!
//! The handler is split along its awaits. The caller loads and saves the
//! conversation, opens the AI stream, broadcasts, and asks the phase
//! transition engine; the functions here decide everything in between.

use vstd::prelude::*;
use vstd::string::*;
use crate::foundation::{fresh_uuid, is_random_uuid, opt_str, uuid_text, uuid_to_string, ComponentId, ComponentType, SessionId, Timestamp, UserId};

verus! {

/// Unique identifier for a message: the 128-bit value of a UUID.
#[derive(Clone, Copy, Debug, PartialEq, Eq, Hash, Structural)]
pub struct MessageId {
    pub value: u128,
}

impl MessageId {
    /// Creates a new random MessageId: a version 4 UUID.
    pub fn new() -> (id: Self)
        ensures
            is_random_uuid(id.value),
    {
        MessageId { value: fresh_uuid() }
    }

    /// Creates a MessageId from an existing UUID value.
    pub fn from_uuid(value: u128) -> (id: Self)
        ensures
            id.value == value,
    {
        MessageId { value }
    }

    /// Returns the inner UUID value.
    pub fn as_uuid(&self) -> (value: u128)
        ensures
            value == self.value,
    {
        self.value
    }

    /// The identifier's text: its UUID in hyphenated form (36 characters).
    pub fn to_string(&self) -> (text: String)
        ensures
            text@ == uuid_text(self.value),
            text@.len() == 36,
    {
        uuid_to_string(self.value)
    }
}

/// Command to send a message and receive a streaming response.
#[derive(Clone, Debug)]
pub struct StreamMessageCommand {
    /// The session this message belongs to.
    pub session_id: SessionId,
    /// The component this conversation is for.
    pub component_id: ComponentId,
    /// The user sending the message.
    pub user_id: UserId,
    /// The message content.
    pub content: String,
}

impl StreamMessageCommand {
    /// Creates a new stream message command.
    pub fn new(session_id: SessionId, component_id: ComponentId, user_id: UserId, content: &str) -> (cmd: Self)
        ensures
            cmd.session_id == session_id,
            cmd.component_id == component_id,
            cmd.user_id == user_id,
            cmd.content@ == content@,
    {
        StreamMessageCommand { session_id, component_id, user_id, content: content.to_owned() }
    }
}

/// Errors that can occur during message handling.
#[derive(Clone, Debug)]
pub enum StreamMessageError {
    ConversationNotFound(ComponentId),
    ConversationNotActive,
    Unauthorized,
    AIProviderError(String),
    RepositoryError(String),
    WebSocketError(String),
}

impl StreamMessageError {
    /// The error's text.
    pub open spec fn spec_text(self) -> Seq<char> {
        match self {
            StreamMessageError::ConversationNotFound(id) => "Conversation not found for component "@ + uuid_text(id.value),
            StreamMessageError::ConversationNotActive => "Conversation is not in an active state"@,
            StreamMessageError::Unauthorized => "User not authorized to access this conversation"@,
            StreamMessageError::AIProviderError(m) => "AI provider error: "@ + m@,
            StreamMessageError::RepositoryError(m) => "Repository error: "@ + m@,
            StreamMessageError::WebSocketError(m) => "WebSocket error: "@ + m@,
        }
    }

    /// The error's text.
    pub fn to_string(&self) -> (text: String)
        ensures
            text@ == self.spec_text(),
    {
        match self {
            StreamMessageError::ConversationNotFound(id) =>
                String::from_str("Conversation not found for component ").concat(id.to_string().as_str()),
            StreamMessageError::ConversationNotActive => String::from_str("Conversation is not in an active state"),
            StreamMessageError::Unauthorized => String::from_str("User not authorized to access this conversation"),
            StreamMessageError::AIProviderError(m) => String::from_str("AI provider error: ").concat(m.as_str()),
            StreamMessageError::RepositoryError(m) => String::from_str("Repository error: ").concat(m.as_str()),
            StreamMessageError::WebSocketError(m) => String::from_str("WebSocket error: ").concat(m.as_str()),
        }
    }
}

/// Token usage for a completion.
#[derive(Clone, Copy, Debug, PartialEq, Eq, Structural)]
pub struct TokenUsage {
    /// Tokens used for the prompt.
    pub prompt_tokens: u32,
    /// Tokens used for the completion.
    pub completion_tokens: u32,
    /// Estimated cost in cents.
    pub estimated_cost_cents: u32,
}

/// Role for stored messages.
#[derive(Clone, Copy, Debug, PartialEq, Eq, Structural)]
pub enum MessageRole {
    System,
    User,
    Assistant,
}

/// A message in the context window of an AI call.
#[derive(Clone, Debug)]
pub struct ContextMessage {
    pub role: MessageRole,
    pub content: String,
}

/// A stored message in a conversation.
#[derive(Debug)]
pub struct StoredMessage {
    /// Unique ID of this message.
    pub id: MessageId,
    /// Role of the sender.
    pub role: MessageRole,
    /// Content of the message.
    pub content: String,
    /// When the message was created.
    pub created_at: Timestamp,
    /// Completion tokens spent on the message, where known.
    pub token_count: Option<u32>,
}

impl Clone for StoredMessage {
    fn clone(&self) -> (m: Self)
        ensures
            m == *self,
    {
        StoredMessage {
            id: self.id,
            role: self.role,
            content: self.content.clone(),
            created_at: self.created_at,
            token_count: self.token_count,
        }
    }
}

impl StoredMessage {
    /// Creates a new user message.
    pub fn user(content: &str) -> (m: Self)
        ensures
            m.role == MessageRole::User,
            m.content@ == content@,
            m.token_count is None,
    {
        StoredMessage {
            id: MessageId::new(),
            role: MessageRole::User,
            content: content.to_owned(),
            created_at: Timestamp::now(),
            token_count: None,
        }
    }

    /// Creates a new assistant message.
    pub fn assistant(content: &str) -> (m: Self)
        ensures
            m.role == MessageRole::Assistant,
            m.content@ == content@,
            m.token_count is None,
    {
        StoredMessage {
            id: MessageId::new(),
            role: MessageRole::Assistant,
            content: content.to_owned(),
            created_at: Timestamp::now(),
            token_count: None,
        }
    }

    /// Creates a new assistant message with a specific ID.
    pub fn assistant_with_id(id: MessageId, content: &str) -> (m: Self)
        ensures
            m.id == id,
            m.role == MessageRole::Assistant,
            m.content@ == content@,
            m.token_count is None,
    {
        StoredMessage {
            id,
            role: MessageRole::Assistant,
            content: content.to_owned(),
            created_at: Timestamp::now(),
            token_count: None,
        }
    }

    /// This message with its completion token count recorded.
    pub fn with_token_count(self, count: u32) -> (m: Self)
        ensures
            m.id == self.id,
            m.role == self.role,
            m.content@ == self.content@,
            m.created_at == self.created_at,
            m.token_count == Some(count),
    {
        StoredMessage { token_count: Some(count), ..self }
    }

    /// Converts to a context message for AI calls.
    pub fn to_context_message(&self) -> (c: ContextMessage)
        ensures
            c.role == self.role,
            c.content@ == self.content@,
    {
        ContextMessage { role: self.role, content: self.content.clone() }
    }
}

/// State of a component conversation.
#[derive(Clone, Copy, Debug, PartialEq, Eq, Structural)]
pub enum ConversationState {
    Initializing,
    Ready,
    InProgress,
    Complete,
}

impl ConversationState {
    /// Whether user messages are taken in this state.
    pub open spec fn spec_accepts_user_input(self) -> bool {
        self == ConversationState::Ready || self == ConversationState::InProgress
    }

    /// Whether user messages are taken in this state.
    pub fn accepts_user_input(&self) -> (r: bool)
        ensures
            r == self.spec_accepts_user_input(),
    {
        match self {
            ConversationState::Ready => true,
            ConversationState::InProgress => true,
            _ => false,
        }
    }
}

/// A conversation takes user messages from the moment it is ready until it
/// completes: a `Ready` conversation (a fresh one awaiting its first
/// message) and an `InProgress` one accept input, an `Initializing` or
/// `Complete` one does not; and the state an exchange leaves an accepting
/// conversation in (`Ready` moves to `InProgress`) accepts input again.
pub proof fn law_open_conversations_take_messages(s: ConversationState)
    ensures
        s.spec_accepts_user_input() <==> (s != ConversationState::Initializing && s != ConversationState::Complete),
        s.spec_accepts_user_input() ==> (if s == ConversationState::Ready {
            ConversationState::InProgress
        } else {
            s
        }).spec_accepts_user_input(),
{
}

/// Phase of the agent within a component conversation.
#[derive(Clone, Copy, Debug, PartialEq, Eq, Structural)]
pub enum AgentPhase {
    Intro,
    Gather,
    Clarify,
    Extract,
    Confirm,
}

/// What the phase transition engine looks at.
#[derive(Clone, Debug)]
pub struct ConversationSnapshot {
    pub user_message_count: usize,
    pub latest_user_message: Option<String>,
    pub component_type: ComponentType,
}

/// Number of user messages in a sequence of messages.
pub open spec fn count_user_messages(msgs: Seq<StoredMessage>) -> nat
    decreases msgs.len(),
{
    if msgs.len() == 0 {
        0
    } else {
        count_user_messages(msgs.drop_last()) + if msgs.last().role == MessageRole::User { 1nat } else { 0nat }
    }
}

/// Content of the last user message of a sequence of messages, if any.
pub open spec fn latest_user_content(msgs: Seq<StoredMessage>) -> Option<Seq<char>>
    decreases msgs.len(),
{
    if msgs.len() == 0 {
        None
    } else if msgs.last().role == MessageRole::User {
        Some(msgs.last().content@)
    } else {
        latest_user_content(msgs.drop_last())
    }
}

/// Appending a user message counts one more user message, and that message
/// becomes the latest user message.
pub proof fn law_user_message_is_latest(msgs: Seq<StoredMessage>, m: StoredMessage)
    requires
        m.role == MessageRole::User,
    ensures
        count_user_messages(msgs.push(m)) == count_user_messages(msgs) + 1,
        latest_user_content(msgs.push(m)) == Some(m.content@),
{
    assert(msgs.push(m).drop_last() =~= msgs);
}

/// Appending an assistant message changes neither the number of user
/// messages nor the latest user message.
pub proof fn law_assistant_message_keeps_user_view(msgs: Seq<StoredMessage>, m: StoredMessage)
    requires
        m.role == MessageRole::Assistant,
    ensures
        count_user_messages(msgs.push(m)) == count_user_messages(msgs),
        latest_user_content(msgs.push(m)) == latest_user_content(msgs),
{
    assert(msgs.push(m).drop_last() =~= msgs);
}

/// There are no more user messages than messages, and there is a latest user
/// message exactly when there is a user message; it is the content of one of
/// them.
pub proof fn law_latest_user_message_exists(msgs: Seq<StoredMessage>)
    ensures
        count_user_messages(msgs) <= msgs.len(),
        latest_user_content(msgs) is Some <==> count_user_messages(msgs) > 0,
        latest_user_content(msgs) matches Some(c) ==> exists|k: int| 0 <= k < msgs.len()
            && #[trigger] msgs[k].role == MessageRole::User && msgs[k].content@ == c,
    decreases msgs.len(),
{
    if msgs.len() > 0 {
        let rest = msgs.drop_last();
        law_latest_user_message_exists(rest);
        if msgs.last().role != MessageRole::User {
            if let Some(c) = latest_user_content(msgs) {
                let k = choose|k: int| 0 <= k < rest.len() && #[trigger] rest[k].role == MessageRole::User && rest[k].content@ == c;
                assert(msgs[k] == rest[k]);
            }
        } else {
            assert(msgs[msgs.len() - 1].role == MessageRole::User);
        }
    }
}

/// Number of user messages among `msgs`.
pub fn count_user(msgs: &Vec<StoredMessage>) -> (n: usize)
    ensures
        n == count_user_messages(msgs@),
{
    let mut n: usize = 0;
    let mut i: usize = 0;
    while i < msgs.len()
        invariant
            i <= msgs.len(),
            n == count_user_messages(msgs@.take(i as int)),
            n <= i,
        decreases msgs.len() - i,
    {
        proof {
            assert(msgs@.take(i as int + 1).drop_last() =~= msgs@.take(i as int));
        }
        if msgs[i].role == MessageRole::User {
            n = n + 1;
        }
        i = i + 1;
    }
    proof {
        assert(msgs@.take(msgs@.len() as int) =~= msgs@);
    }
    n
}

/// Content of the last user message among `msgs`, if any.
pub fn latest_user(msgs: &Vec<StoredMessage>) -> (r: Option<String>)
    ensures
        opt_str(r) == latest_user_content(msgs@),
{
    let mut i: usize = msgs.len();
    proof {
        assert(msgs@.take(msgs@.len() as int) =~= msgs@);
    }
    while i > 0
        invariant
            i <= msgs.len(),
            latest_user_content(msgs@.take(i as int)) == latest_user_content(msgs@),
        decreases i,
    {
        proof {
            assert(msgs@.take(i as int).drop_last() =~= msgs@.take(i as int - 1));
        }
        if msgs[i - 1].role == MessageRole::User {
            return Some(msgs[i - 1].content.clone());
        }
        i = i - 1;
    }
    None
}

/// Context messages for AI calls, one for each stored message.
pub fn context_messages(msgs: &Vec<StoredMessage>) -> (r: Vec<ContextMessage>)
    ensures
        r@.len() == msgs@.len(),
        forall|k: int| 0 <= k < msgs@.len() ==> #[trigger] r@[k].role == msgs@[k].role
            && r@[k].content@ == msgs@[k].content@,
{
    let mut r: Vec<ContextMessage> = Vec::new();
    let mut i: usize = 0;
    while i < msgs.len()
        invariant
            i <= msgs.len(),
            r@.len() == i,
            forall|k: int| 0 <= k < i ==> #[trigger] r@[k].role == msgs@[k].role
                && r@[k].content@ == msgs@[k].content@,
        decreases msgs.len() - i,
    {
        r.push(msgs[i].to_context_message());
        i = i + 1;
    }
    r
}

/// A conversation record from the repository.
#[derive(Clone, Debug)]
pub struct ConversationRecord {
    /// The component this conversation is for.
    pub component_id: ComponentId,
    /// Type of component.
    pub component_type: ComponentType,
    /// Current state.
    pub state: ConversationState,
    /// Current phase.
    pub phase: AgentPhase,
    /// Messages in the conversation.
    pub messages: Vec<StoredMessage>,
    /// The user who owns this conversation.
    pub user_id: UserId,
    /// System prompt for this conversation.
    pub system_prompt: String,
}

impl ConversationRecord {
    /// Returns the count of user messages.
    pub fn user_message_count(&self) -> (n: usize)
        ensures
            n == count_user_messages(self.messages@),
    {
        count_user(&self.messages)
    }

    /// Returns the latest user message content.
    pub fn latest_user_message(&self) -> (r: Option<String>)
        ensures
            opt_str(r) == latest_user_content(self.messages@),
    {
        latest_user(&self.messages)
    }

    /// Creates a snapshot for phase transition decisions.
    pub fn to_snapshot(&self) -> (s: ConversationSnapshot)
        ensures
            s.user_message_count == count_user_messages(self.messages@),
            opt_str(s.latest_user_message) == latest_user_content(self.messages@),
            s.component_type == self.component_type,
    {
        ConversationSnapshot {
            user_message_count: self.user_message_count(),
            latest_user_message: self.latest_user_message(),
            component_type: self.component_type,
        }
    }

    /// Converts messages to context messages for AI calls.
    pub fn to_context_messages(&self) -> (r: Vec<ContextMessage>)
        ensures
            r@.len() == self.messages@.len(),
            forall|k: int| 0 <= k < self.messages@.len() ==> #[trigger] r@[k].role == self.messages@[k].role
                && r@[k].content@ == self.messages@[k].content@,
    {
        context_messages(&self.messages)
    }
}


/// WebSocket message types for streaming.
#[derive(Clone, Debug)]
pub enum StreamWebSocketMessage {
    /// A chunk of the streaming response.
    StreamChunk { message_id: MessageId, delta: String, is_final: bool },
    /// An error occurred during streaming.
    StreamError { message_id: MessageId, error: String },
    /// Streaming completed with full content.
    StreamComplete { message_id: MessageId, full_content: String, usage: Option<TokenUsage> },
}

/// A streaming chunk from the AI.
#[derive(Clone, Debug)]
pub struct StreamChunk {
    /// The delta content in this chunk.
    pub delta: String,
    /// The reason for finishing (if this is the last chunk).
    pub finish_reason: Option<String>,
}

/// Error from AI provider.
#[derive(Clone, Debug)]
pub enum AIProviderError {
    RateLimited,
    ApiError(String),
    ConnectionError(String),
}

impl AIProviderError {
    /// The error's text.
    pub open spec fn spec_text(self) -> Seq<char> {
        match self {
            AIProviderError::RateLimited => "Rate limited"@,
            AIProviderError::ApiError(m) => "API error: "@ + m@,
            AIProviderError::ConnectionError(m) => "Connection error: "@ + m@,
        }
    }

    /// The error's text.
    pub fn to_string(&self) -> (text: String)
        ensures
            text@ == self.spec_text(),
    {
        match self {
            AIProviderError::RateLimited => String::from_str("Rate limited"),
            AIProviderError::ApiError(m) => String::from_str("API error: ").concat(m.as_str()),
            AIProviderError::ConnectionError(m) => String::from_str("Connection error: ").concat(m.as_str()),
        }
    }
}

/// Error during broadcast.
#[derive(Clone, Debug)]
pub enum BroadcastError {
    NoConnections,
    SendError(String),
}

impl BroadcastError {
    /// The error's text.
    pub open spec fn spec_text(self) -> Seq<char> {
        match self {
            BroadcastError::NoConnections => "No active connections for session"@,
            BroadcastError::SendError(m) => "Send error: "@ + m@,
        }
    }

    /// The error's text.
    pub fn to_string(&self) -> (text: String)
        ensures
            text@ == self.spec_text(),
    {
        match self {
            BroadcastError::NoConnections => String::from_str("No active connections for session"),
            BroadcastError::SendError(m) => String::from_str("Send error: ").concat(m.as_str()),
        }
    }
}

/// Repository error.
#[derive(Clone, Debug)]
pub enum RepositoryError {
    NotFound,
    DatabaseError(String),
}

impl RepositoryError {
    /// The error's text.
    pub open spec fn spec_text(self) -> Seq<char> {
        match self {
            RepositoryError::NotFound => "Not found"@,
            RepositoryError::DatabaseError(m) => "Database error: "@ + m@,
        }
    }

    /// The error's text.
    pub fn to_string(&self) -> (text: String)
        ensures
            text@ == self.spec_text(),
    {
        match self {
            RepositoryError::NotFound => String::from_str("Not found"),
            RepositoryError::DatabaseError(m) => String::from_str("Database error: ").concat(m.as_str()),
        }
    }
}

/// Result of handling a stream message.
#[derive(Clone, Debug)]
pub struct StreamMessageResult {
    /// The ID of the user's message.
    pub user_message_id: MessageId,
    /// The ID of the assistant's response.
    pub assistant_message_id: MessageId,
    /// The new phase after processing.
    pub new_phase: AgentPhase,
    /// The new state after processing.
    pub new_state: ConversationState,
    /// Token usage information.
    pub usage: Option<TokenUsage>,
}

/// The parts of a sequence of texts joined in order.
pub open spec fn concat_all(parts: Seq<Seq<char>>) -> Seq<char>
    decreases parts.len(),
{
    if parts.len() == 0 {
        Seq::empty()
    } else {
        concat_all(parts.drop_last()) + parts.last()
    }
}

/// The answer being streamed: its message identifier and what has arrived.
pub struct StreamProgress {
    /// Identifier of the assistant message being streamed.
    pub message_id: MessageId,
    /// The text received so far.
    pub full_response: String,
    /// The deltas received so far, in order.
    pub deltas: Ghost<Seq<Seq<char>>>,
}

impl StreamProgress {
    /// The text received is the received deltas joined in order.
    pub open spec fn wf(&self) -> bool {
        self.full_response@ == concat_all(self.deltas@)
    }

    /// Takes one item of the AI stream: a chunk is appended to the answer and
    /// broadcast as a `StreamChunk` (final when it carries a finish reason);
    /// an error is broadcast as a `StreamError` and fails the handler.
    pub fn on_chunk(&mut self, item: Result<StreamChunk, AIProviderError>) -> (r: (StreamWebSocketMessage, Result<(), StreamMessageError>))
        requires
            old(self).wf(),
        ensures
            final(self).wf(),
            final(self).message_id == old(self).message_id,
            match item {
                Ok(chunk) => {
                    &&& final(self).deltas@ == old(self).deltas@.push(chunk.delta@)
                    &&& final(self).full_response@ == old(self).full_response@ + chunk.delta@
                    &&& r.1 is Ok
                    &&& r.0 matches StreamWebSocketMessage::StreamChunk { message_id, delta, is_final }
                        && message_id == old(self).message_id && delta@ == chunk.delta@
                        && is_final == chunk.finish_reason is Some
                },
                Err(e) => {
                    &&& final(self).deltas@ == old(self).deltas@
                    &&& final(self).full_response@ == old(self).full_response@
                    &&& r.0 matches StreamWebSocketMessage::StreamError { message_id, error }
                        && message_id == old(self).message_id && error@ == e.spec_text()
                    &&& r.1 matches Err(StreamMessageError::AIProviderError(m)) && m@ == e.spec_text()
                },
            },
    {
        match item {
            Ok(chunk) => {
                let ghost before = self.deltas@;
                self.full_response.append(chunk.delta.as_str());
                self.deltas = Ghost(before.push(chunk.delta@));
                proof {
                    assert(self.deltas@.drop_last() =~= before);
                }
                let is_final = chunk.finish_reason.is_some();
                (
                    StreamWebSocketMessage::StreamChunk { message_id: self.message_id, delta: chunk.delta, is_final },
                    Ok(()),
                )
            },
            Err(e) => {
                (
                    StreamWebSocketMessage::StreamError { message_id: self.message_id, error: e.to_string() },
                    Err(StreamMessageError::AIProviderError(e.to_string())),
                )
            },
        }
    }
}

/// Decisions of the streaming message handler.
///
/// A run goes: `accept_message` on the loaded conversation; the caller saves
/// the user message; `open_stream`; the caller builds the context window and
/// opens the AI stream; `stream_opened`; `StreamProgress::on_chunk` for each
/// item, broadcasting what it returns and stopping on an error;
/// `finish_stream`; the caller saves the assistant message;
/// `assistant_saved`; the caller asks the phase transition engine; and
/// `conclude`, whose message is broadcast last.
pub struct StreamingMessageHandler {}

impl StreamingMessageHandler {
    /// Creates a new handler.
    pub fn new() -> (h: Self) {
        StreamingMessageHandler {}
    }

    /// Checks the loaded conversation (found, owned by the sender, taking
    /// input) and appends the user's message to it.
    pub fn accept_message(&self, cmd: &StreamMessageCommand, loaded: Result<Option<ConversationRecord>, RepositoryError>) -> (r: Result<(ConversationRecord, StoredMessage), StreamMessageError>)
        ensures
            match loaded {
                Err(e) => r matches Err(StreamMessageError::RepositoryError(m)) && m@ == e.spec_text(),
                Ok(None) => r matches Err(StreamMessageError::ConversationNotFound(id)) && id == cmd.component_id,
                Ok(Some(c)) => if c.user_id.value@ != cmd.user_id.value@ {
                    r matches Err(StreamMessageError::Unauthorized)
                } else if !c.state.spec_accepts_user_input() {
                    r matches Err(StreamMessageError::ConversationNotActive)
                } else {
                    r matches Ok((c2, m)) && m.role == MessageRole::User && m.content@ == cmd.content@
                        && c2.messages@ == c.messages@.push(m)
                        && c2.component_id == c.component_id && c2.component_type == c.component_type
                        && c2.state == c.state && c2.phase == c.phase && c2.user_id == c.user_id
                        && c2.system_prompt == c.system_prompt
                },
            },
    {
        let mut conversation = match loaded {
            Err(e) => return Err(StreamMessageError::RepositoryError(e.to_string())),
            Ok(None) => return Err(StreamMessageError::ConversationNotFound(cmd.component_id)),
            Ok(Some(c)) => c,
        };
        if !conversation.user_id.same_as(&cmd.user_id) {
            return Err(StreamMessageError::Unauthorized);
        }
        if !conversation.state.accepts_user_input() {
            return Err(StreamMessageError::ConversationNotActive);
        }
        let user_message = StoredMessage::user(cmd.content.as_str());
        conversation.messages.push(user_message.clone());
        Ok((conversation, user_message))
    }

    /// After the user message was saved: picks the identifier of the answer
    /// and lists the conversation as context messages.
    pub fn open_stream(&self, conversation: &ConversationRecord, saved: Result<(), RepositoryError>) -> (r: Result<(MessageId, Vec<ContextMessage>), StreamMessageError>)
        ensures
            match saved {
                Err(e) => r matches Err(StreamMessageError::RepositoryError(m)) && m@ == e.spec_text(),
                Ok(()) => r matches Ok((_, ctx)) && ctx@.len() == conversation.messages@.len()
                    && forall|k: int| 0 <= k < ctx@.len() ==> #[trigger] ctx@[k].role == conversation.messages@[k].role
                        && ctx@[k].content@ == conversation.messages@[k].content@,
            },
    {
        match saved {
            Err(e) => Err(StreamMessageError::RepositoryError(e.to_string())),
            Ok(()) => Ok((MessageId::new(), conversation.to_context_messages())),
        }
    }

    /// After the AI stream was requested: starts an empty answer.
    pub fn stream_opened(&self, message_id: MessageId, opened: Result<(), AIProviderError>) -> (r: Result<StreamProgress, StreamMessageError>)
        ensures
            match opened {
                Err(e) => r matches Err(StreamMessageError::AIProviderError(m)) && m@ == e.spec_text(),
                Ok(()) => r matches Ok(p) && p.wf() && p.message_id == message_id && p.deltas@.len() == 0
                    && p.full_response@.len() == 0,
            },
    {
        match opened {
            Err(e) => Err(StreamMessageError::AIProviderError(e.to_string())),
            Ok(()) => {
                let p = StreamProgress { message_id, full_response: String::new(), deltas: Ghost(Seq::empty()) };
                proof {
                    assert(concat_all(Seq::<Seq<char>>::empty()) =~= Seq::<char>::empty());
                }
                Ok(p)
            },
        }
    }

    /// When the stream has ended: appends the complete answer to the
    /// conversation as an assistant message, to be saved.
    pub fn finish_stream(&self, conversation: ConversationRecord, progress: &StreamProgress) -> (r: (ConversationRecord, StoredMessage))
        requires
            progress.wf(),
        ensures
            r.1.id == progress.message_id,
            r.1.role == MessageRole::Assistant,
            r.1.content@ == concat_all(progress.deltas@),
            r.0.messages@ == conversation.messages@.push(r.1),
            r.0.component_id == conversation.component_id,
            r.0.component_type == conversation.component_type,
            r.0.state == conversation.state,
            r.0.phase == conversation.phase,
            r.0.user_id == conversation.user_id,
            r.0.system_prompt == conversation.system_prompt,
    {
        let mut conversation = conversation;
        let m = StoredMessage::assistant_with_id(progress.message_id, progress.full_response.as_str());
        conversation.messages.push(m.clone());
        (conversation, m)
    }

    /// After the assistant message was saved: the snapshot that the phase
    /// transition engine decides on.
    pub fn assistant_saved(&self, conversation: &ConversationRecord, saved: Result<(), RepositoryError>) -> (r: Result<ConversationSnapshot, StreamMessageError>)
        ensures
            match saved {
                Err(e) => r matches Err(StreamMessageError::RepositoryError(m)) && m@ == e.spec_text(),
                Ok(()) => r matches Ok(s) && s.user_message_count == count_user_messages(conversation.messages@)
                    && opt_str(s.latest_user_message) == latest_user_content(conversation.messages@)
                    && s.component_type == conversation.component_type,
            },
    {
        match saved {
            Err(e) => Err(StreamMessageError::RepositoryError(e.to_string())),
            Ok(()) => Ok(conversation.to_snapshot()),
        }
    }

    /// The completion message to broadcast and the handler's result: a
    /// conversation that was `Ready` is now `InProgress`; any other state stays.
    pub fn conclude(&self, conversation: &ConversationRecord, user_message_id: MessageId, progress: StreamProgress, new_phase: AgentPhase) -> (r: (StreamWebSocketMessage, StreamMessageResult))
        requires
            progress.wf(),
        ensures
            r.0 matches StreamWebSocketMessage::StreamComplete { message_id, full_content, usage }
                && message_id == progress.message_id && full_content@ == concat_all(progress.deltas@)
                && usage is None,
            r.1.user_message_id == user_message_id,
            r.1.assistant_message_id == progress.message_id,
            r.1.new_phase == new_phase,
            r.1.new_state == (if conversation.state == ConversationState::Ready {
                ConversationState::InProgress
            } else {
                conversation.state
            }),
            r.1.usage is None,
    {
        let new_state = if conversation.state == ConversationState::Ready {
            ConversationState::InProgress
        } else {
            conversation.state
        };
        (
            StreamWebSocketMessage::StreamComplete {
                message_id: progress.message_id,
                full_content: progress.full_response,
                usage: None,
            },
            StreamMessageResult {
                user_message_id,
                assistant_message_id: progress.message_id,
                new_phase,
                new_state,
                usage: None,
            },
        )
    }
}

} // verus!
