//! The caller's side of a lost session: whether to reconnect and send the
//! request again, or to give it up.

use crate::protocol::{DbRequest, RequestView};
use vstd::prelude::*;

verus! {

/// The highest attempt count with which a request is still sent again.
pub const RETRY_CEILING: i32 = 3;

/// What the caller does with a request that was handed back.
#[derive(Debug, PartialEq, Eq)]
pub enum RetryPlan {
    /// Drop the request and report nothing.
    GiveUp,
    /// Open the sessions again, then send the request with its attempt count
    /// raised by one.
    Resubmit { connect_to_server: DbRequest, connect_to_database: DbRequest, request: DbRequest },
}

/// What a [`RetryPlan`] stands for.
pub enum RetryPlanView {
    GiveUp,
    Resubmit {
        connect_to_server: RequestView,
        connect_to_database: RequestView,
        request: RequestView,
    },
}

impl View for RetryPlan {
    type V = RetryPlanView;

    open spec fn view(&self) -> RetryPlanView {
        match self {
            RetryPlan::GiveUp => RetryPlanView::GiveUp,
            RetryPlan::Resubmit { connect_to_server, connect_to_database, request } => RetryPlanView::Resubmit {
                connect_to_server: connect_to_server@,
                connect_to_database: connect_to_database@,
                request: request@,
            },
        }
    }
}

/// The plan for a request that was handed back, with `url` the stored
/// connection URL of its server.
///
/// A request is sent again while its attempt count is at most
/// [`RETRY_CEILING`]. A request without an attempt count could be sent again
/// without end, so it is given up.
pub open spec fn retry_plan(original: RequestView, url: Seq<char>) -> RetryPlanView {
    match original.attempts() {
        Some(retries) if retries <= RETRY_CEILING => RetryPlanView::Resubmit {
            connect_to_server: RequestView::ConnectToServer(original.server_id(), url),
            connect_to_database: RequestView::ConnectToDatabase(
                original.server_id(),
                original.key().name,
                url,
            ),
            request: original.with_attempts((retries + 1) as i32),
        },
        _ => RetryPlanView::GiveUp,
    }
}

/// Whether a request that was handed back is dropped. The answer does not
/// depend on the server's connection URL, so it can be had before the URL
/// is looked up.
pub fn gives_up(original: &DbRequest) -> (dropped: bool)
    ensures
        forall|url: Seq<char>| dropped == (#[trigger] retry_plan(original@, url) is GiveUp),
{
    match original.attempts() {
        Some(retries) => retries > RETRY_CEILING,
        None => true,
    }
}

/// Decides what to do with a request that came back in a `ConnectionIsDown`.
pub fn plan_retry(original: DbRequest, url: &str) -> (plan: RetryPlan)
    ensures
        plan@ == retry_plan(original@, url@),
{
    match original.attempts() {
        Some(retries) => {
            if retries > RETRY_CEILING {
                return RetryPlan::GiveUp;
            }
            let id = original.server_id();
            let key = original.key();
            RetryPlan::Resubmit {
                connect_to_server: DbRequest::ConnectToServer(id, String::from_str(url)),
                connect_to_database: DbRequest::ConnectToDatabase(id, key.name, String::from_str(url)),
                request: original.with_attempts(retries + 1),
            }
        },
        None => RetryPlan::GiveUp,
    }
}

/// The ceiling holds: a request that is sent again carries an attempt count
/// one higher than before and is otherwise the same, and a request whose
/// attempt count is above the ceiling is never sent again.
pub proof fn law_retry_ceiling(original: RequestView, url: Seq<char>)
    ensures
        match retry_plan(original, url) {
            RetryPlanView::Resubmit { request, .. } => {
                &&& original.attempts() matches Some(retries)
                &&& retries <= RETRY_CEILING
                &&& request.attempts() == Some((retries + 1) as i32)
                &&& request.key() == original.key()
                &&& request.with_attempts(retries) == original
            },
            RetryPlanView::GiveUp => original.attempts() matches Some(retries) ==> retries
                > RETRY_CEILING,
        },
{
}

/// Three retries and no more: the fourth attempt is sent and counts as
/// attempt 4, and a request that comes back with attempt count 4 is dropped.
pub proof fn law_fourth_attempt_is_last(original: RequestView, url: Seq<char>)
    requires
        original.attempts() == Some(3i32),
    ensures
        retry_plan(original, url) matches RetryPlanView::Resubmit { request, .. }
            && request == original.with_attempts(4)
            && retry_plan(request, url) == RetryPlanView::GiveUp,
{
}

} // verus!
