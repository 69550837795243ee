//! Domain errors of the real-time services, with their HTTP status codes.

use vstd::prelude::*;
use crate::report::{arrow_join, arrow_join_of, colon_join, head_message, head_message_of, views};

verus! {

/// Domain level error type returned by the adapters.
#[derive(Clone, Debug, PartialEq, Eq)]
pub enum Error {
    /// The request payload is invalid or missing required fields.
    BadRequest(String),
    /// The requested resource could not be found.
    NotFound(String),
    /// A non recoverable internal error occurred.
    Internal(String),
    /// An upstream dependency failed while fulfilling the request.
    BadGateway(String),
    /// A processing error occurred.
    ProcessingError(String),
    /// The payload has an invalid format.
    InvalidFormat(String),
    /// A field is missing.
    MissingField(String),
    /// A timestamp is invalid.
    InvalidTimestamp(String),
    /// Delayed message arrival.
    Outdated(String),
    /// Ahead of time message arrival.
    WrongTime(String),
    /// A server error occurred.
    ServerError(String),
    /// No update.
    NoUpdate,
    /// No actual update.
    NoActualUpdate,
}

/// An [`Error`] with its details taken as character sequences.
pub enum ErrorView {
    BadRequest(Seq<char>),
    NotFound(Seq<char>),
    Internal(Seq<char>),
    BadGateway(Seq<char>),
    ProcessingError(Seq<char>),
    InvalidFormat(Seq<char>),
    MissingField(Seq<char>),
    InvalidTimestamp(Seq<char>),
    Outdated(Seq<char>),
    WrongTime(Seq<char>),
    ServerError(Seq<char>),
    NoUpdate,
    NoActualUpdate,
}

impl View for Error {
    type V = ErrorView;

    open spec fn view(&self) -> ErrorView {
        match self {
            Error::BadRequest(s) => ErrorView::BadRequest(s@),
            Error::NotFound(s) => ErrorView::NotFound(s@),
            Error::Internal(s) => ErrorView::Internal(s@),
            Error::BadGateway(s) => ErrorView::BadGateway(s@),
            Error::ProcessingError(s) => ErrorView::ProcessingError(s@),
            Error::InvalidFormat(s) => ErrorView::InvalidFormat(s@),
            Error::MissingField(s) => ErrorView::MissingField(s@),
            Error::InvalidTimestamp(s) => ErrorView::InvalidTimestamp(s@),
            Error::Outdated(s) => ErrorView::Outdated(s@),
            Error::WrongTime(s) => ErrorView::WrongTime(s@),
            Error::ServerError(s) => ErrorView::ServerError(s@),
            Error::NoUpdate => ErrorView::NoUpdate,
            Error::NoActualUpdate => ErrorView::NoActualUpdate,
        }
    }
}

impl ErrorView {
    /// HTTP status code of each variant.
    pub open spec fn status(self) -> u16 {
        match self {
            ErrorView::BadRequest(_) => 400,
            ErrorView::NotFound(_) => 404,
            ErrorView::BadGateway(_) => 502,
            _ => 500,
        }
    }

    /// What the error displays.
    pub open spec fn display(self) -> Seq<char> {
        match self {
            ErrorView::BadRequest(s) => "code: 400, description: "@ + s,
            ErrorView::NotFound(s) => "code: 404, description: "@ + s,
            ErrorView::Internal(s) => "code: 500, description: "@ + s,
            ErrorView::BadGateway(s) => "code: 502, description: "@ + s,
            ErrorView::ProcessingError(s) => "code: 500, description: processing_error "@ + s,
            ErrorView::InvalidFormat(s) => "code: 500, description: invalid_format "@ + s,
            ErrorView::MissingField(s) => "code: 500, description: missing_field "@ + s,
            ErrorView::InvalidTimestamp(s) => "code: 500, description: invalid_timestamp "@ + s,
            ErrorView::Outdated(s) => "code: 500, description: outdated "@ + s,
            ErrorView::WrongTime(s) => "code: 500, description: wrong_time "@ + s,
            ErrorView::ServerError(s) => "code: 500, description: server_error "@ + s,
            ErrorView::NoUpdate => "code: 500, description: no_update"@,
            ErrorView::NoActualUpdate => "code: 500, description: no_actual_update"@,
        }
    }
}

/// The view of an optional error.
pub open spec fn opt_error_view(e: Option<Error>) -> Option<ErrorView> {
    match e {
        Some(x) => Some(x@),
        None => None,
    }
}

/// The error made of a chain of messages (outermost first) and of the
/// domain error found in that chain, if any. The four HTTP-style variants
/// take the whole chain joined with `" -> "`; the other detailed variants
/// get the outermost message put before their detail; a chain without a
/// domain error becomes `Internal` with the joined chain.
pub open spec fn from_chain_spec(chain: Seq<Seq<char>>, inner: Option<ErrorView>) -> ErrorView {
    let joined = arrow_join(chain);
    let head = head_message(chain);
    match inner {
        Some(ErrorView::BadRequest(_)) => ErrorView::BadRequest(joined),
        Some(ErrorView::NotFound(_)) => ErrorView::NotFound(joined),
        Some(ErrorView::BadGateway(_)) => ErrorView::BadGateway(joined),
        Some(ErrorView::Internal(_)) => ErrorView::Internal(joined),
        Some(ErrorView::ProcessingError(e)) => ErrorView::ProcessingError(head + ": "@ + e),
        Some(ErrorView::InvalidFormat(e)) => ErrorView::InvalidFormat(head + ": "@ + e),
        Some(ErrorView::MissingField(e)) => ErrorView::MissingField(head + ": "@ + e),
        Some(ErrorView::InvalidTimestamp(e)) => ErrorView::InvalidTimestamp(head + ": "@ + e),
        Some(ErrorView::Outdated(e)) => ErrorView::Outdated(head + ": "@ + e),
        Some(ErrorView::WrongTime(e)) => ErrorView::WrongTime(head + ": "@ + e),
        Some(ErrorView::ServerError(e)) => ErrorView::ServerError(head + ": "@ + e),
        Some(ErrorView::NoUpdate) => ErrorView::NoUpdate,
        Some(ErrorView::NoActualUpdate) => ErrorView::NoActualUpdate,
        None => ErrorView::Internal(joined),
    }
}

impl Error {
    /// Returns the HTTP status code associated with the variant.
    pub fn code(&self) -> (r: u16)
        ensures
            r == self@.status(),
    {
        match self {
            Error::BadRequest(_) => 400,
            Error::NotFound(_) => 404,
            Error::BadGateway(_) => 502,
            _ => 500,
        }
    }

    /// What the error displays.
    pub fn to_string(&self) -> (r: String)
        ensures
            r@ == self@.display(),
    {
        match self {
            Error::BadRequest(s) => String::from_str("code: 400, description: ").concat(s.as_str()),
            Error::NotFound(s) => String::from_str("code: 404, description: ").concat(s.as_str()),
            Error::Internal(s) => String::from_str("code: 500, description: ").concat(s.as_str()),
            Error::BadGateway(s) => String::from_str("code: 502, description: ").concat(s.as_str()),
            Error::ProcessingError(s) => String::from_str("code: 500, description: processing_error ").concat(s.as_str()),
            Error::InvalidFormat(s) => String::from_str("code: 500, description: invalid_format ").concat(s.as_str()),
            Error::MissingField(s) => String::from_str("code: 500, description: missing_field ").concat(s.as_str()),
            Error::InvalidTimestamp(s) => String::from_str("code: 500, description: invalid_timestamp ").concat(s.as_str()),
            Error::Outdated(s) => String::from_str("code: 500, description: outdated ").concat(s.as_str()),
            Error::WrongTime(s) => String::from_str("code: 500, description: wrong_time ").concat(s.as_str()),
            Error::ServerError(s) => String::from_str("code: 500, description: server_error ").concat(s.as_str()),
            Error::NoUpdate => String::from_str("code: 500, description: no_update"),
            Error::NoActualUpdate => String::from_str("code: 500, description: no_actual_update"),
        }
    }

    /// Returns the error description (what the error displays).
    pub fn description(&self) -> (r: String)
        ensures
            r@ == self@.display(),
    {
        self.to_string()
    }

    /// The error for a chain of messages, outermost first, and the domain
    /// error found in that chain, if any.
    pub fn from_chain(chain: &Vec<String>, inner: Option<Error>) -> (r: Error)
        ensures
            r@ == from_chain_spec(views(chain@), opt_error_view(inner)),
    {
        let head = head_message_of(chain);
        match inner {
            Some(Error::BadRequest(_)) => Error::BadRequest(arrow_join_of(chain)),
            Some(Error::NotFound(_)) => Error::NotFound(arrow_join_of(chain)),
            Some(Error::BadGateway(_)) => Error::BadGateway(arrow_join_of(chain)),
            Some(Error::Internal(_)) => Error::Internal(arrow_join_of(chain)),
            Some(Error::ProcessingError(e)) => Error::ProcessingError(colon_join(head.as_str(), e.as_str())),
            Some(Error::InvalidFormat(e)) => Error::InvalidFormat(colon_join(head.as_str(), e.as_str())),
            Some(Error::MissingField(e)) => Error::MissingField(colon_join(head.as_str(), e.as_str())),
            Some(Error::InvalidTimestamp(e)) => Error::InvalidTimestamp(colon_join(head.as_str(), e.as_str())),
            Some(Error::Outdated(e)) => Error::Outdated(colon_join(head.as_str(), e.as_str())),
            Some(Error::WrongTime(e)) => Error::WrongTime(colon_join(head.as_str(), e.as_str())),
            Some(Error::ServerError(e)) => Error::ServerError(colon_join(head.as_str(), e.as_str())),
            Some(Error::NoUpdate) => Error::NoUpdate,
            Some(Error::NoActualUpdate) => Error::NoActualUpdate,
            None => Error::Internal(arrow_join_of(chain)),
        }
    }

    /// The error for a JSON payload that could not be decoded, given the
    /// decoder's message.
    pub fn invalid_json(detail: &str) -> (r: Error)
        ensures
            r@ == ErrorView::InvalidFormat(detail@),
    {
        Error::InvalidFormat(String::from_str(detail))
    }

    /// The error for an XML message that could not be deserialized, given
    /// the deserializer's message.
    pub fn deserialize_failure(detail: &str) -> (r: Error)
        ensures
            r@ == ErrorView::InvalidFormat("failed to deserialize message: "@ + detail@),
    {
        Error::InvalidFormat(String::from_str("failed to deserialize message: ").concat(detail))
    }
}


/// The HTTP reply for a failed request.
#[derive(Clone, Debug)]
pub struct HttpError {
    pub status: u16,
    pub error: String,
}

/// The last message of a chain (its root cause), or the empty string.
pub open spec fn root_message(chain: Seq<Seq<char>>) -> Seq<char> {
    if chain.len() > 0 { chain.last() } else { Seq::empty() }
}

impl HttpError {
    /// The reply for an error chain, outermost message first, and the domain
    /// error found in it, if any: the domain error's status (500 without
    /// one), and `"{outermost}, caused by: {root cause}"`.
    pub fn from_chain(chain: &Vec<String>, inner: Option<Error>) -> (r: HttpError)
        ensures
            r.status == match inner { Some(e) => e@.status(), None => 500u16 },
            r.error@ == head_message(views(chain@)) + ", caused by: "@ + root_message(views(chain@)),
    {
        let status = match &inner {
            Some(e) => e.code(),
            None => 500,
        };
        let head = head_message_of(chain);
        let root = if chain.len() > 0 { chain[chain.len() - 1].clone() } else { String::new() };
        let error = head.concat(", caused by: ").concat(root.as_str());
        HttpError { status, error }
    }
}


/// Context added around a domain error never changes the HTTP status it is
/// answered with; an error chain without one is answered with 500.
pub proof fn context_keeps_status(chain: Seq<Seq<char>>, inner: Option<ErrorView>)
    ensures
        from_chain_spec(chain, inner).status() == match inner { Some(e) => e.status(), None => 500u16 },
{
}


/// The HTTP status an error is answered with: 400 for a bad request, 404
/// for something not found, 502 for a failed upstream service, and 500 for
/// every other error.
pub proof fn status_by_kind(e: ErrorView)
    ensures
        e is BadRequest ==> e.status() == 400,
        e is NotFound ==> e.status() == 404,
        e is BadGateway ==> e.status() == 502,
        !(e is BadRequest || e is NotFound || e is BadGateway) ==> e.status() == 500,
{
}

} // verus!
