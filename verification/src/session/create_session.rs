//! Creating a session, within the limits of the user's membership.

use vstd::prelude::*;
use crate::foundation::{clone_opt, opt_str, CommandMetadata, DomainError, EventId, Publication, SessionId, Timestamp, UserId};
use crate::ports::AccessResult;
use crate::session::model::{Session, SessionError};

verus! {

/// Command to create a new session.
#[derive(Clone, Debug)]
pub struct CreateSessionCommand {
    pub user_id: UserId,
    pub title: String,
    pub description: Option<String>,
}

/// Event published when a session is created.
#[derive(Clone, Debug)]
pub struct SessionCreated {
    pub event_id: EventId,
    pub session_id: SessionId,
    pub user_id: UserId,
    pub title: String,
    pub description: Option<String>,
    pub created_at: Timestamp,
}

/// Result of successful session creation.
#[derive(Debug)]
pub struct CreateSessionResult {
    pub session: Session,
    pub event: SessionCreated,
}

/// What the domain creates a session from.
#[derive(Clone, Debug)]
pub struct SessionDraft {
    pub session_id: SessionId,
    pub user_id: UserId,
    pub title: String,
    /// Set on the new session when present.
    pub description: Option<String>,
}

/// Decisions of the create-session handler.
///
/// A run goes: the caller asks the access checker whether the user may create
/// a session, `access_checked`; has the domain create the session from
/// `session_draft` (it validates the title) and saves it; hands the answer to
/// `created_event` and publishes what it gives; `finish`.
pub struct CreateSessionHandler {}

impl CreateSessionHandler {
    /// Creates a new handler.
    pub fn new() -> (h: Self) {
        CreateSessionHandler {}
    }

    /// The membership check: a refusal is `AccessDenied` with its reason.
    pub fn access_checked(&self, checked: Result<AccessResult, SessionError>) -> (r: Result<(), SessionError>)
        ensures
            match checked {
                Err(e) => r == Err::<(), SessionError>(e),
                Ok(AccessResult::Allowed) => r is Ok,
                Ok(AccessResult::Denied(reason)) => r matches Err(SessionError::AccessDenied(r2)) && r2 == reason,
            },
    {
        match checked {
            Err(e) => Err(e),
            Ok(AccessResult::Allowed) => Ok(()),
            Ok(AccessResult::Denied(reason)) => Err(SessionError::AccessDenied(reason)),
        }
    }

    /// The session to create: the command's user, title and description,
    /// under a fresh identifier.
    pub fn session_draft(&self, cmd: &CreateSessionCommand) -> (d: SessionDraft)
        ensures
            d.user_id == cmd.user_id,
            d.title@ == cmd.title@,
            opt_str(d.description) == opt_str(cmd.description),
    {
        SessionDraft {
            session_id: SessionId::new(),
            user_id: cmd.user_id.clone(),
            title: cmd.title.clone(),
            description: clone_opt(&cmd.description),
        }
    }

    /// The event to publish, once the repository answered the save of the session:
    /// none unless it succeeded.
    pub fn created_event(&self, cmd: &CreateSessionCommand, session: &Session, metadata: &CommandMetadata, stored: Result<(), DomainError>) -> (r: Result<Publication<SessionCreated>, SessionError>)
        ensures
            match stored {
                Err(e) => r matches Err(SessionError::Domain(e2)) && e2 == e,
                Ok(()) => r matches Ok(p)
                    && p.event.session_id == session.id
                    && p.event.user_id == cmd.user_id
                    && p.event.title@ == cmd.title@
                    && opt_str(p.event.description) == opt_str(cmd.description)
                    && p.event.created_at == session.created_at
                    && opt_str(p.correlation_id) == Some(metadata.correlation_id@)
                    && opt_str(p.user_id) == Some(metadata.user_id.value@)
                    && p.causation_id is None,
            },
    {
        match stored {
            Err(e) => Err(SessionError::Domain(e)),
            Ok(()) => {
                let event = SessionCreated {
                    event_id: EventId::new(),
                    session_id: session.id,
                    user_id: cmd.user_id.clone(),
                    title: cmd.title.clone(),
                    description: clone_opt(&cmd.description),
                    created_at: session.created_at,
                };
                Ok(Publication::for_command(event, metadata))
            },
        }
    }

    /// The handler's result, once the event was published.
    pub fn finish(&self, session: Session, event: SessionCreated) -> (r: CreateSessionResult)
        ensures
            r.session == session,
            r.event == event,
    {
        CreateSessionResult { session, event }
    }
}

} // verus!
