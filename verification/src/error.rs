//! The errors that a request can end in, and the status each is answered
//! with.

use vstd::prelude::*;
use vstd::string::*;

verus! {

/// The kinds of failure of a request.
#[derive(Clone, Copy, PartialEq, Eq, Debug, Structural)]
pub enum ErrorKind {
    /// The request names an unknown plan, or the address pool is exhausted.
    BadRequest,
    /// The token is missing, malformed or not recorded.
    Unauthorized,
    /// The server does not exist, or belongs to someone else.
    NotFound,
    /// The provisioning controller refused the call or could not be reached.
    UpstreamFailure,
    /// Storage or decoding failed.
    Internal,
}

/// The status that a failure of each kind is answered with. Both kinds of
/// failure on the server's side are answered with 500.
pub open spec fn status_of(kind: ErrorKind) -> u16 {
    match kind {
        ErrorKind::BadRequest => 400,
        ErrorKind::Unauthorized => 401,
        ErrorKind::NotFound => 404,
        ErrorKind::UpstreamFailure => 500,
        ErrorKind::Internal => 500,
    }
}

/// A failure of a request: its kind, and a message for the caller.
#[derive(Clone, Debug, PartialEq, Eq)]
pub struct APIError {
    pub kind: ErrorKind,
    pub message: String,
}

/// An `APIError` with its message as a sequence of characters.
pub struct APIErrorView {
    pub kind: ErrorKind,
    pub message: Seq<char>,
}

impl DeepView for APIError {
    type V = APIErrorView;

    open spec fn deep_view(&self) -> APIErrorView {
        APIErrorView { kind: self.kind, message: self.message@ }
    }
}

/// The body that a failure is answered with.
#[derive(Clone, Debug, PartialEq, Eq)]
pub struct ResponseAPIError {
    pub status: u16,
    pub message: String,
}

/// A `ResponseAPIError` with its message as a sequence of characters.
pub struct ResponseAPIErrorView {
    pub status: u16,
    pub message: Seq<char>,
}

impl DeepView for ResponseAPIError {
    type V = ResponseAPIErrorView;

    open spec fn deep_view(&self) -> ResponseAPIErrorView {
        ResponseAPIErrorView { status: self.status, message: self.message@ }
    }
}

/// A failure of a kind with a message.
pub open spec fn failure(kind: ErrorKind, message: Seq<char>) -> APIErrorView {
    APIErrorView { kind, message }
}

impl ErrorKind {
    /// The status that a failure of this kind is answered with.
    pub fn status(self) -> (r: u16)
        ensures
            r == status_of(self),
    {
        match self {
            ErrorKind::BadRequest => 400,
            ErrorKind::Unauthorized => 401,
            ErrorKind::NotFound => 404,
            ErrorKind::UpstreamFailure => 500,
            ErrorKind::Internal => 500,
        }
    }
}

impl APIError {
    /// A failure of a kind with a message.
    pub fn new(kind: ErrorKind, message: &str) -> (r: Self)
        ensures
            r.deep_view() == failure(kind, message@),
    {
        APIError { kind, message: String::from_str(message) }
    }

    /// The token is missing, malformed or not recorded.
    pub fn unauthorized(message: &str) -> (r: Self)
        ensures
            r.deep_view() == failure(ErrorKind::Unauthorized, message@),
    {
        APIError::new(ErrorKind::Unauthorized, message)
    }

    /// The server does not exist, or belongs to someone else.
    pub fn not_found(message: &str) -> (r: Self)
        ensures
            r.deep_view() == failure(ErrorKind::NotFound, message@),
    {
        APIError::new(ErrorKind::NotFound, message)
    }

    /// The request cannot be served as it stands.
    pub fn bad_request(message: &str) -> (r: Self)
        ensures
            r.deep_view() == failure(ErrorKind::BadRequest, message@),
    {
        APIError::new(ErrorKind::BadRequest, message)
    }

    /// Storage or decoding failed.
    pub fn internal_server_error(message: &str) -> (r: Self)
        ensures
            r.deep_view() == failure(ErrorKind::Internal, message@),
    {
        APIError::new(ErrorKind::Internal, message)
    }

    /// The provisioning controller refused the call or could not be reached.
    pub fn upstream_failure(message: &str) -> (r: Self)
        ensures
            r.deep_view() == failure(ErrorKind::UpstreamFailure, message@),
    {
        APIError::new(ErrorKind::UpstreamFailure, message)
    }

    /// The status that this failure is answered with.
    pub fn status(&self) -> (r: u16)
        ensures
            r == status_of(self.kind),
    {
        self.kind.status()
    }

    /// The body that this failure is answered with: its status and its
    /// message, unchanged.
    pub fn into_response(self) -> (r: ResponseAPIError)
        ensures
            r.deep_view() == (ResponseAPIErrorView {
                status: status_of(self.kind),
                message: self.message@,
            }),
    {
        let status: u16 = self.kind.status();
        ResponseAPIError { status, message: self.message }
    }
}

} // verus!
