//! Regenerating the last AI response of a conversation: the last assistant
//! message is removed and a new one is streamed in its place.

use vstd::prelude::*;
use vstd::string::*;
use crate::foundation::{opt_str, uuid_text, ComponentId, ComponentType, ConversationId, CycleId, DomainError, SessionId, Timestamp, UserId};
use crate::stream_message::{
    concat_all, count_user_messages, count_user, latest_user, latest_user_content, AgentPhase,
    ContextMessage, ConversationSnapshot, ConversationState, MessageId, MessageRole, StoredMessage, TokenUsage,
};

verus! {

/// Command to regenerate the last AI response.
#[derive(Clone, Debug)]
pub struct RegenerateResponseCommand {
    /// The user requesting regeneration.
    pub user_id: UserId,
    /// The component's conversation to regenerate in.
    pub component_id: ComponentId,
}

impl RegenerateResponseCommand {
    /// Creates a new regenerate response command.
    pub fn new(user_id: UserId, component_id: ComponentId) -> (cmd: Self)
        ensures
            cmd.user_id == user_id,
            cmd.component_id == component_id,
    {
        RegenerateResponseCommand { user_id, component_id }
    }
}

/// Errors that can occur when regenerating a response.
#[derive(Clone, Debug)]
pub enum RegenerateResponseError {
    /// User is not authorized to access this conversation.
    Forbidden,
    /// Conversation has no messages to regenerate.
    NoMessagesToRegenerate,
    /// Last message is not from assistant (can't regenerate user message).
    LastMessageNotAssistant,
    /// Conversation is in Complete state and cannot regenerate.
    ConversationComplete,
    /// Conversation was not found.
    ConversationNotFound(ComponentId),
    /// AI provider error during response generation.
    AIProviderError(String),
    /// Repository error during persistence.
    RepositoryError(String),
    /// Domain error.
    DomainError(String),
}

impl RegenerateResponseError {
    /// The error's text.
    pub open spec fn spec_text(self) -> Seq<char> {
        match self {
            RegenerateResponseError::Forbidden => "Forbidden: user does not own this conversation"@,
            RegenerateResponseError::NoMessagesToRegenerate => "No messages to regenerate: conversation is empty"@,
            RegenerateResponseError::LastMessageNotAssistant => "Cannot regenerate: last message is not from assistant"@,
            RegenerateResponseError::ConversationComplete => "Conversation is complete and cannot regenerate responses"@,
            RegenerateResponseError::ConversationNotFound(id) => "Conversation not found for component "@ + uuid_text(id.value),
            RegenerateResponseError::AIProviderError(m) => "AI provider error: "@ + m@,
            RegenerateResponseError::RepositoryError(m) => "Repository error: "@ + m@,
            RegenerateResponseError::DomainError(m) => "Domain error: "@ + m@,
        }
    }

    /// The error's text.
    pub fn to_string(&self) -> (text: String)
        ensures
            text@ == self.spec_text(),
    {
        match self {
            RegenerateResponseError::Forbidden => String::from_str("Forbidden: user does not own this conversation"),
            RegenerateResponseError::NoMessagesToRegenerate => String::from_str("No messages to regenerate: conversation is empty"),
            RegenerateResponseError::LastMessageNotAssistant => String::from_str("Cannot regenerate: last message is not from assistant"),
            RegenerateResponseError::ConversationComplete => String::from_str("Conversation is complete and cannot regenerate responses"),
            RegenerateResponseError::ConversationNotFound(id) =>
                String::from_str("Conversation not found for component ").concat(id.to_string().as_str()),
            RegenerateResponseError::AIProviderError(m) => String::from_str("AI provider error: ").concat(m.as_str()),
            RegenerateResponseError::RepositoryError(m) => String::from_str("Repository error: ").concat(m.as_str()),
            RegenerateResponseError::DomainError(m) => String::from_str("Domain error: ").concat(m.as_str()),
        }
    }

    /// A domain error, as its text.
    pub fn from_domain(err: &DomainError) -> (e: Self)
        ensures
            e matches RegenerateResponseError::DomainError(m) && m@ == err.message@,
    {
        RegenerateResponseError::DomainError(err.to_string())
    }

    /// An error of the AI provider, as its text.
    pub fn from_ai(err: &AIError) -> (e: Self)
        ensures
            e matches RegenerateResponseError::AIProviderError(m) && m@ == err.message@,
    {
        RegenerateResponseError::AIProviderError(err.to_string())
    }
}

/// Error of the AI port: its text.
#[derive(Clone, Debug)]
pub struct AIError {
    pub message: String,
}

impl AIError {
    /// The error's text.
    pub fn to_string(&self) -> (text: String)
        ensures
            text@ == self.message@,
    {
        self.message.clone()
    }
}

/// Where a component sits: what the ownership check returns.
#[derive(Clone, Copy, Debug)]
pub struct OwnershipInfo {
    pub session_id: SessionId,
    pub cycle_id: CycleId,
    pub component_type: ComponentType,
}

/// A stored conversation, as the repository returns it.
#[derive(Clone, Debug)]
pub struct ConversationRecord {
    pub id: ConversationId,
    pub component_id: ComponentId,
    pub component_type: ComponentType,
    pub state: ConversationState,
    pub phase: AgentPhase,
    pub messages: Vec<StoredMessage>,
    pub user_id: UserId,
    pub system_prompt: String,
    pub created_at: Timestamp,
    pub updated_at: Timestamp,
}

impl ConversationRecord {
    /// Whether the conversation has messages.
    pub fn has_messages(&self) -> (r: bool)
        ensures
            r == (self.messages@.len() > 0),
    {
        self.messages.len() > 0
    }

    /// Number of user messages.
    pub fn user_message_count(&self) -> (n: usize)
        ensures
            n == count_user_messages(self.messages@),
    {
        count_user(&self.messages)
    }
}

/// Who asks, for which conversation, and under which request identifier.
#[derive(Clone, Debug)]
pub struct RequestMetadata {
    pub user_id: UserId,
    pub session_id: SessionId,
    pub conversation_id: ConversationId,
    pub request_id: String,
}

/// The completion request for the new answer.
#[derive(Clone, Debug)]
pub struct RegenerationRequest {
    pub metadata: RequestMetadata,
    pub system_prompt: String,
    pub component_type: ComponentType,
    /// The messages that remain, in order.
    pub messages: Vec<ContextMessage>,
}

/// An item of the AI stream.
#[derive(Clone, Debug)]
pub struct AIStreamChunk {
    pub delta: String,
    /// Whether this chunk ends the answer.
    pub is_final: bool,
    /// Usage, carried by the final chunk.
    pub usage: Option<TokenUsage>,
}

/// Events sent to the client while the new answer streams.
#[derive(Clone, Debug)]
pub enum StreamEvent {
    Chunk { message_id: MessageId, delta: String },
    Error { message_id: MessageId, error: String },
    Complete { message_id: MessageId, full_content: String, usage: Option<TokenUsage> },
}

/// What the stream loop does after an item.
#[derive(Clone, Debug)]
pub enum StreamFlow {
    /// Wait for the next item.
    Continue,
    /// The answer is complete.
    Stop,
    /// The handler fails with this error.
    Fail(RegenerateResponseError),
}

/// Result of regenerating a response.
#[derive(Clone, Debug)]
pub struct RegenerateResponseResult {
    /// ID of the deleted assistant message.
    pub deleted_message_id: MessageId,
    /// ID of the new assistant response message.
    pub new_message_id: MessageId,
    /// New conversation phase after processing.
    pub new_phase: AgentPhase,
    /// Token usage for the new response.
    pub usage: Option<TokenUsage>,
}

/// The new answer being streamed.
pub struct RegenerationProgress {
    pub message_id: MessageId,
    pub full_content: String,
    pub usage: Option<TokenUsage>,
    pub deltas: Ghost<Seq<Seq<char>>>,
}

impl RegenerationProgress {
    /// The text received is the received deltas joined in order.
    pub open spec fn wf(&self) -> bool {
        self.full_content@ == concat_all(self.deltas@)
    }

    /// Takes one item of the AI stream (`None` when the stream has ended).
    /// A chunk is appended and sent on; a final chunk also records its usage
    /// and ends the answer; an error is sent on and fails the handler.
    pub fn on_item(&mut self, item: Option<Result<AIStreamChunk, AIError>>) -> (r: (Option<StreamEvent>, StreamFlow))
        requires
            old(self).wf(),
        ensures
            final(self).wf(),
            final(self).message_id == old(self).message_id,
            match item {
                None => {
                    &&& r.0 is None
                    &&& r.1 is Stop
                    &&& final(self).deltas@ == old(self).deltas@
                    &&& final(self).usage == old(self).usage
                },
                Some(Ok(chunk)) => {
                    &&& final(self).deltas@ == old(self).deltas@.push(chunk.delta@)
                    &&& r.0 matches Some(StreamEvent::Chunk { message_id, delta })
                        && message_id == old(self).message_id && delta@ == chunk.delta@
                    &&& if chunk.is_final {
                        r.1 is Stop && final(self).usage == chunk.usage
                    } else {
                        r.1 is Continue && final(self).usage == old(self).usage
                    }
                },
                Some(Err(e)) => {
                    &&& final(self).deltas@ == old(self).deltas@
                    &&& final(self).usage == old(self).usage
                    &&& r.0 matches Some(StreamEvent::Error { message_id, error })
                        && message_id == old(self).message_id && error@ == e.message@
                    &&& r.1 matches StreamFlow::Fail(RegenerateResponseError::AIProviderError(m)) && m@ == e.message@
                },
            },
    {
        match item {
            None => (None, StreamFlow::Stop),
            Some(Ok(chunk)) => {
                let ghost before = self.deltas@;
                self.full_content.append(chunk.delta.as_str());
                self.deltas = Ghost(before.push(chunk.delta@));
                proof {
                    assert(self.deltas@.drop_last() =~= before);
                }
                let flow = if chunk.is_final {
                    self.usage = chunk.usage;
                    StreamFlow::Stop
                } else {
                    StreamFlow::Continue
                };
                (Some(StreamEvent::Chunk { message_id: self.message_id, delta: chunk.delta }), flow)
            },
            Some(Err(e)) => (
                Some(StreamEvent::Error { message_id: self.message_id, error: e.to_string() }),
                StreamFlow::Fail(RegenerateResponseError::AIProviderError(e.to_string())),
            ),
        }
    }
}

/// Decisions of the regenerate-response handler.
///
/// A run goes: the caller checks ownership, `ownership_checked`; loads the
/// conversation, `select_last_answer`; deletes the last message,
/// `last_answer_deleted`; opens the AI stream on the request it got,
/// `stream_opened`; feeds each item to `RegenerationProgress::on_item` until
/// it stops; saves `new_answer`, `answer_saved`; asks the phase transition
/// engine on `phase_snapshot`; updates the conversation's phase, `finish`.
pub struct RegenerateResponseHandler {}

impl RegenerateResponseHandler {
    /// Creates a new handler.
    pub fn new() -> (h: Self) {
        RegenerateResponseHandler {}
    }

    /// Only the owner of the component, through its session, may regenerate.
    pub fn ownership_checked(&self, checked: Result<OwnershipInfo, DomainError>) -> (r: Result<OwnershipInfo, RegenerateResponseError>)
        ensures
            match checked {
                Ok(info) => r == Ok::<OwnershipInfo, RegenerateResponseError>(info),
                Err(_) => r matches Err(RegenerateResponseError::Forbidden),
            },
    {
        match checked {
            Ok(info) => Ok(info),
            Err(_) => Err(RegenerateResponseError::Forbidden),
        }
    }

    /// Checks the loaded conversation, in this order: found, not complete,
    /// not empty, last message from the assistant. Returns the conversation
    /// and the identifier of the answer to delete.
    pub fn select_last_answer(&self, cmd: &RegenerateResponseCommand, loaded: Result<Option<ConversationRecord>, DomainError>) -> (r: Result<(ConversationRecord, MessageId), RegenerateResponseError>)
        ensures
            match loaded {
                Err(e) => r matches Err(RegenerateResponseError::DomainError(m)) && m@ == e.message@,
                Ok(None) => r matches Err(RegenerateResponseError::ConversationNotFound(id)) && id == cmd.component_id,
                Ok(Some(c)) => if c.state == ConversationState::Complete {
                    r matches Err(RegenerateResponseError::ConversationComplete)
                } else if c.messages@.len() == 0 {
                    r matches Err(RegenerateResponseError::NoMessagesToRegenerate)
                } else if c.messages@.last().role != MessageRole::Assistant {
                    r matches Err(RegenerateResponseError::LastMessageNotAssistant)
                } else {
                    r matches Ok((c2, id)) && c2 == c && id == c.messages@.last().id
                },
            },
    {
        let conversation = match loaded {
            Err(e) => return Err(RegenerateResponseError::from_domain(&e)),
            Ok(None) => return Err(RegenerateResponseError::ConversationNotFound(cmd.component_id)),
            Ok(Some(c)) => c,
        };
        if conversation.state == ConversationState::Complete {
            return Err(RegenerateResponseError::ConversationComplete);
        }
        if !conversation.has_messages() {
            return Err(RegenerateResponseError::NoMessagesToRegenerate);
        }
        let last = conversation.messages.len() - 1;
        if conversation.messages[last].role != MessageRole::Assistant {
            return Err(RegenerateResponseError::LastMessageNotAssistant);
        }
        let id = conversation.messages[last].id;
        Ok((conversation, id))
    }

    /// After the repository deleted the last message: drops it locally too,
    /// picks the new answer's identifier, and builds the completion request
    /// from the messages that remain.
    pub fn last_answer_deleted(&self, cmd: &RegenerateResponseCommand, ownership: &OwnershipInfo, conversation: ConversationRecord, deleted: Result<Option<MessageId>, DomainError>) -> (r: Result<(ConversationRecord, MessageId, RegenerationRequest), RegenerateResponseError>)
        ensures
            match deleted {
                Err(e) => r matches Err(RegenerateResponseError::DomainError(m)) && m@ == e.message@,
                Ok(_) => r matches Ok((c2, new_id, req))
                    && c2.messages@ == (if conversation.messages@.len() > 0 {
                        conversation.messages@.drop_last()
                    } else {
                        conversation.messages@
                    })
                    && c2.id == conversation.id && c2.state == conversation.state && c2.phase == conversation.phase
                    && req.metadata.user_id == cmd.user_id
                    && req.metadata.session_id == ownership.session_id
                    && req.metadata.conversation_id == conversation.id
                    && req.metadata.request_id@ == "regen-"@ + uuid_text(new_id.value)
                    && req.system_prompt@ == conversation.system_prompt@
                    && req.component_type == ownership.component_type
                    && req.messages@.len() == c2.messages@.len()
                    && forall|k: int| 0 <= k < req.messages@.len() ==> #[trigger] req.messages@[k].role == c2.messages@[k].role
                        && req.messages@[k].content@ == c2.messages@[k].content@,
            },
    {
        match deleted {
            Err(e) => Err(RegenerateResponseError::from_domain(&e)),
            Ok(_) => {
                let mut conversation = conversation;
                conversation.messages.pop();
                let new_id = MessageId::new();
                let metadata = RequestMetadata {
                    user_id: cmd.user_id.clone(),
                    session_id: ownership.session_id,
                    conversation_id: conversation.id,
                    request_id: String::from_str("regen-").concat(new_id.to_string().as_str()),
                };
                let messages = crate::stream_message::context_messages(&conversation.messages);
                let req = RegenerationRequest {
                    metadata,
                    system_prompt: conversation.system_prompt.clone(),
                    component_type: ownership.component_type,
                    messages,
                };
                Ok((conversation, new_id, req))
            },
        }
    }

    /// After the AI stream was requested: starts an empty answer.
    pub fn stream_opened(&self, new_id: MessageId, opened: Result<(), AIError>) -> (r: Result<RegenerationProgress, RegenerateResponseError>)
        ensures
            match opened {
                Err(e) => r matches Err(RegenerateResponseError::AIProviderError(m)) && m@ == e.message@,
                Ok(()) => r matches Ok(p) && p.wf() && p.message_id == new_id && p.deltas@.len() == 0
                    && p.usage is None,
            },
    {
        match opened {
            Err(e) => Err(RegenerateResponseError::from_ai(&e)),
            Ok(()) => {
                proof {
                    assert(concat_all(Seq::<Seq<char>>::empty()) =~= Seq::<char>::empty());
                }
                Ok(RegenerationProgress { message_id: new_id, full_content: String::new(), usage: None, deltas: Ghost(Seq::empty()) })
            },
        }
    }

    /// The new assistant message to store: the streamed text, with the
    /// completion token count of the final usage where there is one.
    pub fn new_answer(&self, progress: &RegenerationProgress) -> (m: StoredMessage)
        requires
            progress.wf(),
        ensures
            m.id == progress.message_id,
            m.role == MessageRole::Assistant,
            m.content@ == concat_all(progress.deltas@),
            m.token_count == (match progress.usage {
                Some(u) => Some(u.completion_tokens),
                None => None,
            }),
    {
        let m = StoredMessage::assistant_with_id(progress.message_id, progress.full_content.as_str());
        match progress.usage {
            Some(u) => m.with_token_count(u.completion_tokens),
            None => m,
        }
    }

    /// After the new answer was stored: the completion event for the client.
    pub fn answer_saved(&self, progress: &RegenerationProgress, saved: Result<(), DomainError>) -> (r: Result<StreamEvent, RegenerateResponseError>)
        requires
            progress.wf(),
        ensures
            match saved {
                Err(e) => r matches Err(RegenerateResponseError::DomainError(m)) && m@ == e.message@,
                Ok(()) => r matches Ok(StreamEvent::Complete { message_id, full_content, usage })
                    && message_id == progress.message_id && full_content@ == concat_all(progress.deltas@)
                    && usage == progress.usage,
            },
    {
        match saved {
            Err(e) => Err(RegenerateResponseError::from_domain(&e)),
            Ok(()) => Ok(StreamEvent::Complete {
                message_id: progress.message_id,
                full_content: progress.full_content.clone(),
                usage: progress.usage,
            }),
        }
    }

    /// What the phase transition engine decides on: the remaining messages'
    /// user count and latest user message, and the component's type.
    pub fn phase_snapshot(&self, conversation: &ConversationRecord, ownership: &OwnershipInfo) -> (s: ConversationSnapshot)
        ensures
            s.user_message_count == count_user_messages(conversation.messages@),
            opt_str(s.latest_user_message) == latest_user_content(conversation.messages@),
            s.component_type == ownership.component_type,
    {
        ConversationSnapshot {
            user_message_count: count_user(&conversation.messages),
            latest_user_message: latest_user(&conversation.messages),
            component_type: ownership.component_type,
        }
    }

    /// After the conversation's phase was updated: the handler's result.
    pub fn finish(&self, deleted_message_id: MessageId, progress: &RegenerationProgress, new_phase: AgentPhase, updated: Result<(), DomainError>) -> (r: Result<RegenerateResponseResult, RegenerateResponseError>)
        ensures
            match updated {
                Err(e) => r matches Err(RegenerateResponseError::DomainError(m)) && m@ == e.message@,
                Ok(()) => r matches Ok(res) && res.deleted_message_id == deleted_message_id
                    && res.new_message_id == progress.message_id && res.new_phase == new_phase
                    && res.usage == progress.usage,
            },
    {
        match updated {
            Err(e) => Err(RegenerateResponseError::from_domain(&e)),
            Ok(()) => Ok(RegenerateResponseResult {
                deleted_message_id,
                new_message_id: progress.message_id,
                new_phase,
                usage: progress.usage,
            }),
        }
    }
}

} // verus!
