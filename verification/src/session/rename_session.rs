//! Renaming a session; only its owner may.

use vstd::prelude::*;
use crate::foundation::{opt_str, CommandMetadata, DomainError, EventId, Publication, SessionId, Timestamp, UserId};
use crate::session::model::{Session, SessionError};

verus! {

/// Command to rename a session.
#[derive(Clone, Debug)]
pub struct RenameSessionCommand {
    pub session_id: SessionId,
    pub user_id: UserId,
    pub new_title: String,
}

/// Event published when a session is renamed.
#[derive(Clone, Debug)]
pub struct SessionRenamed {
    pub event_id: EventId,
    pub session_id: SessionId,
    pub user_id: UserId,
    pub old_title: String,
    pub new_title: String,
    pub renamed_at: Timestamp,
}

/// Result of successful session rename.
#[derive(Debug)]
pub struct RenameSessionResult {
    pub session: Session,
    pub event: SessionRenamed,
}

/// Decisions of the rename handler.
///
/// A run goes: the caller loads the session, `session_found` (which also
/// checks ownership and keeps the old title); has the domain rename it (it
/// validates the title and the session's status) and updates it; hands the
/// answer to `renamed_event` and publishes what it gives; `finish`.
pub struct RenameSessionHandler {}

impl RenameSessionHandler {
    /// Creates a new handler.
    pub fn new() -> (h: Self) {
        RenameSessionHandler {}
    }

    /// The session to rename and its current title; a missing session is
    /// `NotFound`, and one the user does not own is `Forbidden`.
    pub fn session_found(&self, cmd: &RenameSessionCommand, found: Result<Option<Session>, SessionError>) -> (r: Result<(Session, String), SessionError>)
        ensures
            match found {
                Err(e) => r == Err::<(Session, String), SessionError>(e),
                Ok(None) => r matches Err(SessionError::NotFound(id)) && id == cmd.session_id,
                Ok(Some(s)) => if s.user_id.value@ != cmd.user_id.value@ {
                    r matches Err(SessionError::Forbidden)
                } else {
                    r matches Ok((s2, old)) && s2 == s && old@ == s.title@
                },
            },
    {
        let session = match found {
            Err(e) => return Err(e),
            Ok(None) => return Err(SessionError::NotFound(cmd.session_id)),
            Ok(Some(s)) => s,
        };
        if !session.user_id.same_as(&cmd.user_id) {
            return Err(SessionError::Forbidden);
        }
        let old_title = session.title.clone();
        Ok((session, old_title))
    }

    /// The event to publish, once the repository answered the update of the session:
    /// none unless it succeeded.
    pub fn renamed_event(&self, cmd: &RenameSessionCommand, old_title: String, metadata: &CommandMetadata, stored: Result<(), DomainError>) -> (r: Result<Publication<SessionRenamed>, SessionError>)
        ensures
            match stored {
                Err(e) => r matches Err(SessionError::Domain(e2)) && e2 == e,
                Ok(()) => r matches Ok(p)
                    && p.event.session_id == cmd.session_id
                    && p.event.user_id == cmd.user_id
                    && p.event.old_title == old_title
                    && p.event.new_title@ == cmd.new_title@
                    && opt_str(p.correlation_id) == Some(metadata.correlation_id@)
                    && opt_str(p.user_id) == Some(metadata.user_id.value@)
                    && p.causation_id is None,
            },
    {
        match stored {
            Err(e) => Err(SessionError::Domain(e)),
            Ok(()) => {
                let event = SessionRenamed {
                    event_id: EventId::new(),
                    session_id: cmd.session_id,
                    user_id: cmd.user_id.clone(),
                    old_title,
                    new_title: cmd.new_title.clone(),
                    renamed_at: Timestamp::now(),
                };
                Ok(Publication::for_command(event, metadata))
            },
        }
    }

    /// The handler's result, once the event was published.
    pub fn finish(&self, session: Session, event: SessionRenamed) -> (r: RenameSessionResult)
        ensures
            r.session == session,
            r.event == event,
    {
        RenameSessionResult { session, event }
    }
}

} // verus!
