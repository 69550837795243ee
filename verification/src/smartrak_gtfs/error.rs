//! Domain errors of the SmarTrak GTFS adapter.

use vstd::prelude::*;
use crate::report::{arrow_stack, arrow_stack_of, colon_join, head_message, head_message_of, views};

verus! {

/// Domain-specific error codes for SmarTrak GTFS adapter processing.
#[derive(Clone, Debug, PartialEq, Eq)]
pub enum Error {
    ProcessingError(String),
    InvalidFormat(String),
    MissingField(String),
    InvalidTimestamp(String),
    Outdated(String),
    WrongTime(String),
    CachingError(String),
    ServerError(String),
    NoUpdate,
    NoActualUpdate,
}

/// An [`Error`] with its details taken as character sequences.
pub enum ErrorView {
    ProcessingError(Seq<char>),
    InvalidFormat(Seq<char>),
    MissingField(Seq<char>),
    InvalidTimestamp(Seq<char>),
    Outdated(Seq<char>),
    WrongTime(Seq<char>),
    CachingError(Seq<char>),
    ServerError(Seq<char>),
    NoUpdate,
    NoActualUpdate,
}

impl View for Error {
    type V = ErrorView;

    open spec fn view(&self) -> ErrorView {
        match self {
            Error::ProcessingError(s) => ErrorView::ProcessingError(s@),
            Error::InvalidFormat(s) => ErrorView::InvalidFormat(s@),
            Error::MissingField(s) => ErrorView::MissingField(s@),
            Error::InvalidTimestamp(s) => ErrorView::InvalidTimestamp(s@),
            Error::Outdated(s) => ErrorView::Outdated(s@),
            Error::WrongTime(s) => ErrorView::WrongTime(s@),
            Error::CachingError(s) => ErrorView::CachingError(s@),
            Error::ServerError(s) => ErrorView::ServerError(s@),
            Error::NoUpdate => ErrorView::NoUpdate,
            Error::NoActualUpdate => ErrorView::NoActualUpdate,
        }
    }
}

impl ErrorView {
    /// The error code of each variant.
    pub open spec fn code(self) -> Seq<char> {
        match self {
            ErrorView::ProcessingError(_) => "processing_error"@,
            ErrorView::InvalidFormat(_) => "invalid_format"@,
            ErrorView::MissingField(_) => "missing_field"@,
            ErrorView::InvalidTimestamp(_) => "invalid_timestamp"@,
            ErrorView::Outdated(_) => "outdated"@,
            ErrorView::WrongTime(_) => "wrong_time"@,
            ErrorView::CachingError(_) => "caching_error"@,
            ErrorView::ServerError(_) => "server_error"@,
            ErrorView::NoUpdate => "no_update"@,
            ErrorView::NoActualUpdate => "no_actual_update"@,
        }
    }

    /// The same variant carrying `detail` in place of its own detail.
    pub open spec fn with_detail(self, detail: Seq<char>) -> ErrorView {
        match self {
            ErrorView::ProcessingError(_) => ErrorView::ProcessingError(detail),
            ErrorView::InvalidFormat(_) => ErrorView::InvalidFormat(detail),
            ErrorView::MissingField(_) => ErrorView::MissingField(detail),
            ErrorView::InvalidTimestamp(_) => ErrorView::InvalidTimestamp(detail),
            ErrorView::Outdated(_) => ErrorView::Outdated(detail),
            ErrorView::WrongTime(_) => ErrorView::WrongTime(detail),
            ErrorView::CachingError(_) => ErrorView::CachingError(detail),
            ErrorView::ServerError(_) => ErrorView::ServerError(detail),
            ErrorView::NoUpdate => ErrorView::NoUpdate,
            ErrorView::NoActualUpdate => ErrorView::NoActualUpdate,
        }
    }

    /// What the error displays.
    pub open spec fn display(self) -> Seq<char> {
        match self {
            ErrorView::ProcessingError(s) => "code: processing_error, description: "@ + s,
            ErrorView::InvalidFormat(s) => "code: invalid_format, description: "@ + s,
            ErrorView::MissingField(s) => "code: missing_field, description: missing "@ + s,
            ErrorView::InvalidTimestamp(s) => "code: invalid_timestamp, description: "@ + s,
            ErrorView::Outdated(s) => "code: outdated, description: "@ + s,
            ErrorView::WrongTime(s) => "code: wrong_time, description: "@ + s,
            ErrorView::CachingError(s) => "code: caching_error, description: "@ + s,
            ErrorView::ServerError(s) => "code: server_error, description: "@ + s,
            ErrorView::NoUpdate => "code: no_update"@,
            ErrorView::NoActualUpdate => "code: no_actual_update"@,
        }
    }
}

/// The view of an optional error.
pub open spec fn opt_error_view(e: Option<Error>) -> Option<ErrorView> {
    match e {
        Some(x) => Some(x@),
        None => None,
    }
}

/// The error made of a chain of messages (outermost first) and of the
/// adapter error found in that chain, if any: a detailed error keeps its
/// variant with the outermost message put before its detail; a chain
/// without one becomes a `ServerError` holding the chain folded with
/// `" -> "`.
pub open spec fn from_chain_spec(chain: Seq<Seq<char>>, inner: Option<ErrorView>) -> ErrorView {
    let head = head_message(chain);
    match inner {
        Some(ErrorView::ProcessingError(e)) => ErrorView::ProcessingError(head + ": "@ + e),
        Some(ErrorView::InvalidFormat(e)) => ErrorView::InvalidFormat(head + ": "@ + e),
        Some(ErrorView::MissingField(e)) => ErrorView::MissingField(head + ": "@ + e),
        Some(ErrorView::InvalidTimestamp(e)) => ErrorView::InvalidTimestamp(head + ": "@ + e),
        Some(ErrorView::Outdated(e)) => ErrorView::Outdated(head + ": "@ + e),
        Some(ErrorView::WrongTime(e)) => ErrorView::WrongTime(head + ": "@ + e),
        Some(ErrorView::ServerError(e)) => ErrorView::ServerError(head + ": "@ + e),
        Some(ErrorView::CachingError(e)) => ErrorView::CachingError(head + ": "@ + e),
        Some(ErrorView::NoUpdate) => ErrorView::NoUpdate,
        Some(ErrorView::NoActualUpdate) => ErrorView::NoActualUpdate,
        None => ErrorView::ServerError(arrow_stack(chain)),
    }
}

impl Error {
    /// Returns the error code.
    pub fn code(&self) -> (r: &'static str)
        ensures
            r@ == self@.code(),
    {
        match self {
            Error::ProcessingError(_) => "processing_error",
            Error::InvalidFormat(_) => "invalid_format",
            Error::MissingField(_) => "missing_field",
            Error::InvalidTimestamp(_) => "invalid_timestamp",
            Error::Outdated(_) => "outdated",
            Error::WrongTime(_) => "wrong_time",
            Error::CachingError(_) => "caching_error",
            Error::ServerError(_) => "server_error",
            Error::NoUpdate => "no_update",
            Error::NoActualUpdate => "no_actual_update",
        }
    }

    /// What the error displays.
    pub fn to_string(&self) -> (r: String)
        ensures
            r@ == self@.display(),
    {
        match self {
            Error::ProcessingError(s) => String::from_str("code: processing_error, description: ").concat(s.as_str()),
            Error::InvalidFormat(s) => String::from_str("code: invalid_format, description: ").concat(s.as_str()),
            Error::MissingField(s) => String::from_str("code: missing_field, description: missing ").concat(s.as_str()),
            Error::InvalidTimestamp(s) => String::from_str("code: invalid_timestamp, description: ").concat(s.as_str()),
            Error::Outdated(s) => String::from_str("code: outdated, description: ").concat(s.as_str()),
            Error::WrongTime(s) => String::from_str("code: wrong_time, description: ").concat(s.as_str()),
            Error::CachingError(s) => String::from_str("code: caching_error, description: ").concat(s.as_str()),
            Error::ServerError(s) => String::from_str("code: server_error, description: ").concat(s.as_str()),
            Error::NoUpdate => String::from_str("code: no_update"),
            Error::NoActualUpdate => String::from_str("code: no_actual_update"),
        }
    }

    /// Returns the error description (what the error displays).
    pub fn description(&self) -> (r: String)
        ensures
            r@ == self@.display(),
    {
        self.to_string()
    }

    /// The error for a chain of messages, outermost first, and the adapter
    /// error found in that chain, if any.
    pub fn from_chain(chain: &Vec<String>, inner: Option<Error>) -> (r: Error)
        ensures
            r@ == from_chain_spec(views(chain@), opt_error_view(inner)),
    {
        let head = head_message_of(chain);
        match inner {
            Some(Error::ProcessingError(e)) => Error::ProcessingError(colon_join(head.as_str(), e.as_str())),
            Some(Error::InvalidFormat(e)) => Error::InvalidFormat(colon_join(head.as_str(), e.as_str())),
            Some(Error::MissingField(e)) => Error::MissingField(colon_join(head.as_str(), e.as_str())),
            Some(Error::InvalidTimestamp(e)) => Error::InvalidTimestamp(colon_join(head.as_str(), e.as_str())),
            Some(Error::Outdated(e)) => Error::Outdated(colon_join(head.as_str(), e.as_str())),
            Some(Error::WrongTime(e)) => Error::WrongTime(colon_join(head.as_str(), e.as_str())),
            Some(Error::ServerError(e)) => Error::ServerError(colon_join(head.as_str(), e.as_str())),
            Some(Error::CachingError(e)) => Error::CachingError(colon_join(head.as_str(), e.as_str())),
            Some(Error::NoUpdate) => Error::NoUpdate,
            Some(Error::NoActualUpdate) => Error::NoActualUpdate,
            None => Error::ServerError(arrow_stack_of(chain)),
        }
    }

    /// The error for a JSON payload that could not be decoded, given the
    /// decoder's message.
    pub fn invalid_json(detail: &str) -> (r: Error)
        ensures
            r@ == ErrorView::InvalidFormat(detail@),
    {
        Error::InvalidFormat(String::from_str(detail))
    }
}


/// Context added around an adapter error never changes its code; an error
/// chain without one is a server error.
pub proof fn context_keeps_code(chain: Seq<Seq<char>>, inner: Option<ErrorView>)
    ensures
        from_chain_spec(chain, inner).code() == match inner { Some(e) => e.code(), None => "server_error"@ },
{
}


/// What an error displays begins with `code: ` and its code, and the code
/// depends on the variant alone, never on the detail the error carries.
pub proof fn display_starts_with_code(e: ErrorView, detail: Seq<char>)
    ensures
        ("code: "@ + e.code()).is_prefix_of(e.display()),
        e.with_detail(detail).code() == e.code(),
{
    reveal_strlit("code: ");
    reveal_strlit("processing_error");
    reveal_strlit("invalid_format");
    reveal_strlit("missing_field");
    reveal_strlit("invalid_timestamp");
    reveal_strlit("outdated");
    reveal_strlit("wrong_time");
    reveal_strlit("caching_error");
    reveal_strlit("server_error");
    reveal_strlit("no_update");
    reveal_strlit("no_actual_update");
    reveal_strlit("code: processing_error, description: ");
    reveal_strlit("code: invalid_format, description: ");
    reveal_strlit("code: missing_field, description: missing ");
    reveal_strlit("code: invalid_timestamp, description: ");
    reveal_strlit("code: outdated, description: ");
    reveal_strlit("code: wrong_time, description: ");
    reveal_strlit("code: caching_error, description: ");
    reveal_strlit("code: server_error, description: ");
    reveal_strlit("code: no_update");
    reveal_strlit("code: no_actual_update");
    assert(("code: "@ + e.code()) =~= e.display().subrange(0, ("code: "@ + e.code()).len() as int));
}

} // verus!
