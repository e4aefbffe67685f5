//! What can go wrong with a driver call, and how the worker answers it.

use crate::protocol::{DbRequest, DbResponse, DownConnectionReason, ReasonView, RequestView, ResponseView};
use vstd::prelude::*;

verus! {

/// A driver error, sorted into the three classes that decide the answer.
#[derive(Debug, PartialEq, Eq)]
pub enum DriverFailure {
    /// The server understood the statement and rejected it. Holds the
    /// server's message.
    Database(String),
    /// The transport failed. `detail` is the driver's account of the I/O
    /// error, `account` its account of the whole error.
    Io { detail: String, account: String },
    /// Any other error. Holds the driver's account of it.
    Other(String),
}

/// What a [`DriverFailure`] stands for.
pub enum FailureView {
    Database(Seq<char>),
    Io { detail: Seq<char>, account: Seq<char> },
    Other(Seq<char>),
}

impl View for DriverFailure {
    type V = FailureView;

    open spec fn view(&self) -> FailureView {
        match self {
            DriverFailure::Database(message) => FailureView::Database(message@),
            DriverFailure::Io { detail, account } => FailureView::Io {
                detail: detail@,
                account: account@,
            },
            DriverFailure::Other(account) => FailureView::Other(account@),
        }
    }
}

/// The reason given for a session lost to an I/O error.
pub open spec fn io_reason(detail: Seq<char>) -> Seq<char> {
    "IO Error: "@ + detail
}

/// The message for an error of no known class.
pub open spec fn unknown_error(account: Seq<char>) -> Seq<char> {
    "unknown db error: "@ + account
}

impl FailureView {
    /// Whether the failure costs the session: only a transport failure of a
    /// request that can be replayed does.
    pub open spec fn evicts(self, repeat: Option<RequestView>) -> bool {
        self is Io && repeat is Some
    }

    /// The answer to a failed driver call for server `id`. `repeat` is the
    /// request to hand back for a replay, where the request can be replayed.
    ///
    /// A rejected statement is an error with the server's message. A
    /// transport failure hands the request back; where there is none to
    /// hand back it is an error of no known class, as every other error is.
    pub open spec fn response(self, id: u128, repeat: Option<RequestView>) -> ResponseView {
        match self {
            FailureView::Database(message) => ResponseView::Error(id, message),
            FailureView::Io { detail, account } => match repeat {
                Some(original_request) => ResponseView::ConnectionIsDown {
                    original_request,
                    reason: ReasonView::IoError(io_reason(detail)),
                },
                None => ResponseView::Error(id, unknown_error(account)),
            },
            FailureView::Other(account) => ResponseView::Error(id, unknown_error(account)),
        }
    }
}

/// The view of an optional request.
pub open spec fn repeat_view(repeat: Option<DbRequest>) -> Option<RequestView> {
    match repeat {
        Some(request) => Some(request@),
        None => None,
    }
}

fn unknown(account: String) -> (message: String)
    ensures
        message@ == unknown_error(account@),
{
    let mut message = String::from_str("unknown db error: ");
    message.append(account.as_str());
    message
}

impl DriverFailure {
    /// Whether this failure costs the session.
    pub fn evicts(&self, repeat: &Option<DbRequest>) -> (gone: bool)
        ensures
            gone == self@.evicts(repeat_view(*repeat)),
    {
        match self {
            DriverFailure::Io { .. } => repeat.is_some(),
            _ => false,
        }
    }

    /// The answer to this failure.
    pub fn into_response(self, id: u128, repeat: Option<DbRequest>) -> (response: DbResponse)
        ensures
            response@ == self@.response(id, repeat_view(repeat)),
    {
        match self {
            DriverFailure::Database(message) => DbResponse::Error(id, message),
            DriverFailure::Io { detail, account } => match repeat {
                Some(original_request) => {
                    let mut reason = String::from_str("IO Error: ");
                    reason.append(detail.as_str());
                    DbResponse::ConnectionIsDown {
                        original_request,
                        reason: DownConnectionReason::IoError(reason),
                    }
                },
                None => DbResponse::Error(id, unknown(account)),
            },
            DriverFailure::Other(account) => DbResponse::Error(id, unknown(account)),
        }
    }
}

} // verus!
