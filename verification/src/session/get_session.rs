//! Reading a session, for its owner only.

use vstd::prelude::*;
use crate::foundation::{SessionId, UserId};
use crate::session::model::{SessionError, SessionView};

verus! {

/// Query to get a session by ID.
#[derive(Clone, Debug)]
pub struct GetSessionQuery {
    pub session_id: SessionId,
    pub user_id: UserId,
}

/// Decisions of the session query.
pub struct GetSessionHandler {}

impl GetSessionHandler {
    /// Creates a new handler.
    pub fn new() -> (h: Self) {
        GetSessionHandler {}
    }

    /// The session the reader found, if the querying user owns it.
    pub fn handle(&self, query: &GetSessionQuery, found: Result<Option<SessionView>, SessionError>) -> (r: Result<SessionView, SessionError>)
        ensures
            match found {
                Err(e) => r == Err::<SessionView, SessionError>(e),
                Ok(None) => r matches Err(SessionError::NotFound(id)) && id == query.session_id,
                Ok(Some(v)) => if v.user_id.value@ != query.user_id.value@ {
                    r matches Err(SessionError::Forbidden)
                } else {
                    r == Ok::<SessionView, SessionError>(v)
                },
            },
    {
        let session = match found {
            Err(e) => return Err(e),
            Ok(None) => return Err(SessionError::NotFound(query.session_id)),
            Ok(Some(v)) => v,
        };
        if !session.user_id.same_as(&query.user_id) {
            return Err(SessionError::Forbidden);
        }
        Ok(session)
    }
}

} // verus!
