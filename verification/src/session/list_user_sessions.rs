//! Listing a user's sessions.

use vstd::prelude::*;
use crate::foundation::{SessionStatus, UserId};

verus! {

/// Query to list sessions for a user.
#[derive(Clone, Debug)]
pub struct ListUserSessionsQuery {
    pub user_id: UserId,
    pub page: Option<u32>,
    pub per_page: Option<u32>,
    pub status: Option<SessionStatus>,
    pub include_archived: bool,
}

/// Options of a session listing: at most `limit` sessions after skipping
/// `offset` of them (when paginated), a status filter, and whether archived
/// sessions are included.
#[derive(Clone, Copy, Debug, PartialEq, Eq, Structural)]
pub struct ListOptions {
    pub limit: Option<u32>,
    pub offset: Option<u32>,
    pub status: Option<SessionStatus>,
    pub include_archived: bool,
}

/// Whether a page (numbered from 1) of the given size can be listed: its
/// offset `(page - 1) * per_page` fits in a `u32`.
pub open spec fn page_fits(page: u32, per_page: u32) -> bool {
    &&& page >= 1
    &&& (page - 1) * per_page <= u32::MAX
}

impl ListOptions {
    /// No page, no filter, archived sessions left out.
    pub fn default() -> (o: Self)
        ensures
            o == (ListOptions { limit: None, offset: None, status: None, include_archived: false }),
    {
        ListOptions { limit: None, offset: None, status: None, include_archived: false }
    }

    /// A page of the listing, numbered from 1: `per_page` sessions after
    /// the `(page - 1) * per_page` before it.
    pub fn paginated(page: u32, per_page: u32) -> (o: Self)
        requires
            page_fits(page, per_page),
        ensures
            o == (ListOptions {
                limit: Some(per_page),
                offset: Some(((page - 1) * per_page) as u32),
                status: None,
                include_archived: false,
            }),
    {
        let skipped: u32 = page - 1;
        proof {
            assert((skipped as int) * (per_page as int) <= u32::MAX) by (nonlinear_arith)
                requires
                    skipped == page - 1,
                    (page - 1) * per_page <= u32::MAX;
        }
        ListOptions { limit: Some(per_page), offset: Some(skipped * per_page), status: None, include_archived: false }
    }

    /// These options, filtered by a status.
    pub fn with_status(self, status: SessionStatus) -> (o: Self)
        ensures
            o == (ListOptions { status: Some(status), ..self }),
    {
        ListOptions { status: Some(status), ..self }
    }

    /// These options, including archived sessions.
    pub fn with_archived(self) -> (o: Self)
        ensures
            o == (ListOptions { include_archived: true, ..self }),
    {
        ListOptions { include_archived: true, ..self }
    }
}

impl ListUserSessionsQuery {
    /// Create a simple query for all active sessions.
    pub fn all_active(user_id: UserId) -> (q: Self)
        ensures
            q.user_id == user_id,
            q.page is None,
            q.per_page is None,
            q.status is None,
            !q.include_archived,
    {
        ListUserSessionsQuery { user_id, page: None, per_page: None, status: None, include_archived: false }
    }

    /// Create a paginated query.
    pub fn paginated(user_id: UserId, page: u32, per_page: u32) -> (q: Self)
        ensures
            q.user_id == user_id,
            q.page == Some(page),
            q.per_page == Some(per_page),
            q.status is None,
            !q.include_archived,
    {
        ListUserSessionsQuery { user_id, page: Some(page), per_page: Some(per_page), status: None, include_archived: false }
    }

    /// The listing options of the query: paginated only when both the page
    /// and its size are given, then `per_page` sessions after the
    /// `(page - 1) * per_page` before them.
    pub fn to_list_options(&self) -> (o: ListOptions)
        requires
            (self.page, self.per_page) matches (Some(p), Some(pp)) ==> page_fits(p, pp),
        ensures
            (o.limit, o.offset) == (match (self.page, self.per_page) {
                (Some(p), Some(pp)) => (Some(pp), Some(((p - 1) * pp) as u32)),
                _ => (None::<u32>, None::<u32>),
            }),
            o.status == self.status,
            o.include_archived == self.include_archived,
    {
        let mut options = match (self.page, self.per_page) {
            (Some(page), Some(per_page)) => ListOptions::paginated(page, per_page),
            _ => ListOptions::default(),
        };
        if let Some(status) = self.status {
            options = options.with_status(status);
        }
        if self.include_archived {
            options = options.with_archived();
        }
        options
    }
}

/// Handler of the listing: the reader lists by the query's user and
/// `ListUserSessionsQuery::to_list_options`, and its answer is the result.
pub struct ListUserSessionsHandler {}

impl ListUserSessionsHandler {
    /// Creates a new handler.
    pub fn new() -> (h: Self) {
        ListUserSessionsHandler {}
    }
}

} // verus!
