//! The failures that the client reports to its caller.

use vstd::prelude::*;
use vstd::string::StringExecFns;

verus! {

/// Code of an internal error: a matching response without a result, or a
/// connection that closed while a request was waiting.
pub const INTERNAL_ERROR: i32 = -32603;

/// Seconds that a request waits for its response.
pub const REQUEST_TIMEOUT_SECS: u64 = 30;

/// A failure of a client operation.
#[derive(Clone, Debug, PartialEq)]
pub enum Error {
    /// The transport failed to send, receive or close.
    Transport(String),
    /// The peer answered with an error object, or the exchange broke the
    /// protocol.
    Protocol { code: i32, message: String, data: Option<serde_json::Value> },
    /// A payload could not be turned into the expected structure.
    Serialization(String),
    /// Any other failure, with its text: a timeout, a failed tool.
    Other(String),
}

/// What an [`Error`] is in contracts: its strings as character sequences.
pub enum ErrorView {
    Transport(Seq<char>),
    Protocol { code: i32, message: Seq<char>, data: Option<serde_json::Value> },
    Serialization(Seq<char>),
    Other(Seq<char>),
}

impl View for Error {
    type V = ErrorView;

    open spec fn view(&self) -> ErrorView {
        match *self {
            Error::Transport(s) => ErrorView::Transport(s@),
            Error::Protocol { code, message, data } => ErrorView::Protocol {
                code,
                message: message@,
                data,
            },
            Error::Serialization(s) => ErrorView::Serialization(s@),
            Error::Other(s) => ErrorView::Other(s@),
        }
    }
}

/// The view of a request's outcome: the value as it is, the error by its view.
pub open spec fn outcome_view(outcome: Result<serde_json::Value, Error>) -> Result<
    serde_json::Value,
    ErrorView,
> {
    match outcome {
        Ok(v) => Ok(v),
        Err(e) => Err(e@),
    }
}

impl Error {
    /// A protocol error with the given code and message and no data.
    pub fn protocol(code: i32, message: &str) -> (e: Error)
        ensures
            e@ == (ErrorView::Protocol { code, message: message@, data: None }),
    {
        Error::Protocol { code, message: String::from_str(message), data: None }
    }
}

} // verus!
