//! What a dispatch amounts to, given what the remote service answered.

use vstd::prelude::*;

verus! {

/// Why a notification was not delivered.
#[derive(Debug, PartialEq, Eq)]
pub enum SendError {
    /// The service answered with a status outside the 2xx range.
    Rejected {
        /// The HTTP status code of the answer.
        status: u16,
        /// The text of the answer's body, empty if it could not be read.
        body: String,
    },
    /// No answer was obtained: the connection, name resolution, TLS or a
    /// timeout failed before a status arrived.
    Transport {
        /// The transport's own account of the fault.
        description: String,
    },
}

/// The mathematical content of a [`SendError`].
pub enum SendErrorView {
    Rejected { status: u16, body: Seq<char> },
    Transport { description: Seq<char> },
}

impl View for SendError {
    type V = SendErrorView;

    open spec fn view(&self) -> SendErrorView {
        match self {
            SendError::Rejected { status, body } => SendErrorView::Rejected {
                status: *status,
                body: body@,
            },
            SendError::Transport { description } => SendErrorView::Transport {
                description: description@,
            },
        }
    }
}

/// What the transport reports after one attempt to post a request.
#[derive(Debug, PartialEq, Eq)]
pub enum Reply {
    /// The service answered.
    Answered {
        /// The HTTP status code of the answer.
        status: u16,
        /// The text of the answer's body; `None` if it was not read or could
        /// not be read.
        body: Option<String>,
    },
    /// No answer arrived: the request could not be sent, or the exchange
    /// broke off before a status was received.
    NoAnswer {
        /// The transport's own account of the fault.
        description: String,
    },
}

/// The mathematical content of a [`Reply`].
pub enum ReplyView {
    Answered { status: u16, body: Option<Seq<char>> },
    NoAnswer { description: Seq<char> },
}

impl View for Reply {
    type V = ReplyView;

    open spec fn view(&self) -> ReplyView {
        match self {
            Reply::Answered { status, body } => ReplyView::Answered {
                status: *status,
                body: match body {
                    Some(text) => Some(text@),
                    None => None,
                },
            },
            Reply::NoAnswer { description } => ReplyView::NoAnswer {
                description: description@,
            },
        }
    }
}

/// A status code counts as success exactly when it lies in the 2xx range.
pub open spec fn is_success_status(status: u16) -> bool {
    200 <= status < 300
}

/// The body text that a rejection carries: the text that was read, or the
/// empty text where none could be read.
pub open spec fn body_or_empty(body: Option<Seq<char>>) -> Seq<char> {
    match body {
        Some(text) => text,
        None => Seq::empty(),
    }
}

/// The result of a dispatch as a function of the reply alone.
pub open spec fn outcome_of(reply: ReplyView) -> Result<(), SendErrorView> {
    match reply {
        ReplyView::Answered { status, body } => if is_success_status(status) {
            Ok(())
        } else {
            Err(SendErrorView::Rejected { status, body: body_or_empty(body) })
        },
        ReplyView::NoAnswer { description } => Err(SendErrorView::Transport { description }),
    }
}

/// The mathematical content of a dispatch result.
pub open spec fn result_view(r: Result<(), SendError>) -> Result<(), SendErrorView> {
    match r {
        Ok(()) => Ok(()),
        Err(e) => Err(e@),
    }
}

/// Tells whether `status` is a success status. The transport needs this to
/// know whether the body of an answer has to be read at all.
pub fn is_success(status: u16) -> (b: bool)
    ensures
        b == is_success_status(status),
{
    200 <= status && status < 300
}

/// Interprets the reply to one posted notification.
///
/// Any 2xx status is success, whatever the body. Any other status is a
/// rejection that carries the status and the body text as it was read; a body
/// that could not be read counts as empty. A transport fault is reported as
/// such, never as a rejection.
pub fn outcome(reply: Reply) -> (r: Result<(), SendError>)
    ensures
        result_view(r) == outcome_of(reply@),
        r is Ok <==> (reply matches Reply::Answered { status, .. } && is_success_status(status)),
{
    match reply {
        Reply::Answered { status, body } => {
            if is_success(status) {
                Ok(())
            } else {
                let text = match body {
                    Some(text) => text,
                    None => String::new(),
                };
                Err(SendError::Rejected { status, body: text })
            }
        },
        Reply::NoAnswer { description } => Err(SendError::Transport { description }),
    }
}

} // verus!
