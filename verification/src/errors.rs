//! The failures that an operation can end in.

use vstd::prelude::*;

verus! {

/// The error object that a server sends with a non-success status.
#[derive(Debug, Clone, PartialEq)]
pub struct ApiError {
    /// The kind: the discriminator that callers branch on.
    pub error: String,
    /// A text for humans, where the server sent one.
    pub message: Option<String>,
}

/// Why a single call failed.
#[derive(Debug, Clone, PartialEq)]
pub enum BiskyError {
    /// An operation that needs authentication was attempted with no session.
    MissingSession,
    /// The exchange did not complete, or a non-success response carried no
    /// error object. The text is the cause as the transport gave it.
    TransportError(String),
    /// The server rejected the request at the protocol level.
    RemoteError { kind: String, message: Option<String> },
    /// A success response whose body did not have the expected shape. The
    /// text is the body as received.
    DecodeError(String),
}

/// Why a paginated stream ended early.
#[derive(Debug, Clone, PartialEq)]
pub enum StreamError {
    /// A page could not be fetched.
    Bisky(BiskyError),
}

/// A failure with its texts as sequences of characters.
pub enum FailureView {
    MissingSession,
    TransportError(Seq<char>),
    RemoteError { kind: Seq<char>, message: Option<Seq<char>> },
    DecodeError(Seq<char>),
}

/// The view of an optional text.
pub open spec fn opt_text(t: Option<String>) -> Option<Seq<char>> {
    match t {
        Some(s) => Some(s@),
        None => None,
    }
}

/// The view of an optional borrowed text.
pub open spec fn opt_str(t: Option<&str>) -> Option<Seq<char>> {
    match t {
        Some(s) => Some(s@),
        None => None,
    }
}

impl View for BiskyError {
    type V = FailureView;

    open spec fn view(&self) -> FailureView {
        match *self {
            BiskyError::MissingSession => FailureView::MissingSession,
            BiskyError::TransportError(cause) => FailureView::TransportError(cause@),
            BiskyError::RemoteError { kind, message } => FailureView::RemoteError {
                kind: kind@,
                message: opt_text(message),
            },
            BiskyError::DecodeError(body) => FailureView::DecodeError(body@),
        }
    }
}

impl View for StreamError {
    type V = FailureView;

    open spec fn view(&self) -> FailureView {
        match *self {
            StreamError::Bisky(e) => e@,
        }
    }
}

impl BiskyError {
    /// Whether this is the failure of a call made without a session.
    pub fn is_missing_session(&self) -> (r: bool)
        ensures
            r == (self@ == FailureView::MissingSession),
    {
        match self {
            BiskyError::MissingSession => true,
            _ => false,
        }
    }

    /// The kind that the server named, where the server rejected the request.
    pub fn remote_kind(&self) -> (r: Option<&str>)
        ensures
            opt_str(r) == (match self@ {
                FailureView::RemoteError { kind, .. } => Some(kind),
                _ => None,
            }),
    {
        match self {
            BiskyError::RemoteError { kind, .. } => Some(kind.as_str()),
            _ => None,
        }
    }
}

impl StreamError {
    /// The failed call behind the stream's end.
    pub fn into_inner(self) -> (r: BiskyError)
        ensures
            self == StreamError::Bisky(r),
    {
        match self {
            StreamError::Bisky(e) => e,
        }
    }
}

} // verus!
