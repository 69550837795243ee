//! Errors of the R9K position adapter.

use vstd::prelude::*;
use crate::report::{arrow_stack, arrow_stack_of, colon_join, head_message, head_message_of, views};

verus! {

/// Error codes of the R9K position adapter.
#[derive(Clone, Debug, PartialEq, Eq)]
pub enum Error {
    InvalidFormat(String),
    Outdated(String),
    WrongTime(String),
    ServerError(String),
    NoUpdate,
    NoActualUpdate,
}

/// An [`Error`] with its details taken as character sequences.
pub enum ErrorView {
    InvalidFormat(Seq<char>),
    Outdated(Seq<char>),
    WrongTime(Seq<char>),
    ServerError(Seq<char>),
    NoUpdate,
    NoActualUpdate,
}

impl View for Error {
    type V = ErrorView;

    open spec fn view(&self) -> ErrorView {
        match self {
            Error::InvalidFormat(s) => ErrorView::InvalidFormat(s@),
            Error::Outdated(s) => ErrorView::Outdated(s@),
            Error::WrongTime(s) => ErrorView::WrongTime(s@),
            Error::ServerError(s) => ErrorView::ServerError(s@),
            Error::NoUpdate => ErrorView::NoUpdate,
            Error::NoActualUpdate => ErrorView::NoActualUpdate,
        }
    }
}

impl ErrorView {
    /// The error code of each variant.
    pub open spec fn code(self) -> Seq<char> {
        match self {
            ErrorView::InvalidFormat(_) => "invalid_format"@,
            ErrorView::Outdated(_) => "outdated"@,
            ErrorView::WrongTime(_) => "wrong_time"@,
            ErrorView::ServerError(_) => "server_error"@,
            ErrorView::NoUpdate => "no_update"@,
            ErrorView::NoActualUpdate => "no_actual_update"@,
        }
    }

    /// The same variant carrying `detail` in place of its own detail.
    pub open spec fn with_detail(self, detail: Seq<char>) -> ErrorView {
        match self {
            ErrorView::InvalidFormat(_) => ErrorView::InvalidFormat(detail),
            ErrorView::Outdated(_) => ErrorView::Outdated(detail),
            ErrorView::WrongTime(_) => ErrorView::WrongTime(detail),
            ErrorView::ServerError(_) => ErrorView::ServerError(detail),
            ErrorView::NoUpdate => ErrorView::NoUpdate,
            ErrorView::NoActualUpdate => ErrorView::NoActualUpdate,
        }
    }

    /// What the error displays: `code: <code>, description: <detail>`, or
    /// only the code for the variants without detail.
    pub open spec fn display(self) -> Seq<char> {
        match self {
            ErrorView::InvalidFormat(s) => "code: invalid_format, description: "@ + s,
            ErrorView::Outdated(s) => "code: outdated, description: "@ + s,
            ErrorView::WrongTime(s) => "code: wrong_time, description: "@ + s,
            ErrorView::ServerError(s) => "code: server_error, description: "@ + s,
            ErrorView::NoUpdate => "code: no_update"@,
            ErrorView::NoActualUpdate => "code: no_actual_update"@,
        }
    }
}

/// The error made of a chain of messages (outermost first) and of the
/// adapter error found in that chain, if any. A wrapped error keeps its
/// variant and gets the outermost message put before its detail
/// (`"{outer}: {detail}"`); a chain without one becomes a `ServerError`
/// holding the chain folded with `" -> "`.
pub open spec fn from_chain_spec(chain: Seq<Seq<char>>, inner: Option<ErrorView>) -> ErrorView {
    let head = head_message(chain);
    match inner {
        Some(ErrorView::InvalidFormat(e)) => ErrorView::InvalidFormat(head + ": "@ + e),
        Some(ErrorView::Outdated(e)) => ErrorView::Outdated(head + ": "@ + e),
        Some(ErrorView::WrongTime(e)) => ErrorView::WrongTime(head + ": "@ + e),
        Some(ErrorView::ServerError(e)) => ErrorView::ServerError(head + ": "@ + e),
        Some(ErrorView::NoUpdate) => ErrorView::NoUpdate,
        Some(ErrorView::NoActualUpdate) => ErrorView::NoActualUpdate,
        None => ErrorView::ServerError(arrow_stack(chain)),
    }
}

/// The view of an optional error.
pub open spec fn opt_error_view(e: Option<Error>) -> Option<ErrorView> {
    match e {
        Some(x) => Some(x@),
        None => None,
    }
}

impl Error {
    /// Returns the error code.
    pub fn code(&self) -> (r: &'static str)
        ensures
            r@ == self@.code(),
    {
        match self {
            Error::InvalidFormat(_) => "invalid_format",
            Error::Outdated(_) => "outdated",
            Error::WrongTime(_) => "wrong_time",
            Error::ServerError(_) => "server_error",
            Error::NoUpdate => "no_update",
            Error::NoActualUpdate => "no_actual_update",
        }
    }

    /// What the error displays.
    pub fn to_string(&self) -> (r: String)
        ensures
            r@ == self@.display(),
    {
        match self {
            Error::InvalidFormat(s) => String::from_str("code: invalid_format, description: ").concat(s.as_str()),
            Error::Outdated(s) => String::from_str("code: outdated, description: ").concat(s.as_str()),
            Error::WrongTime(s) => String::from_str("code: wrong_time, description: ").concat(s.as_str()),
            Error::ServerError(s) => String::from_str("code: server_error, description: ").concat(s.as_str()),
            Error::NoUpdate => String::from_str("code: no_update"),
            Error::NoActualUpdate => String::from_str("code: no_actual_update"),
        }
    }

    /// Returns the error description (what the error displays).
    pub fn description(&self) -> (r: String)
        ensures
            r@ == self@.display(),
    {
        self.to_string()
    }

    /// The error for a chain of messages, outermost first, and the adapter
    /// error found in that chain, if any.
    pub fn from_chain(chain: &Vec<String>, inner: Option<Error>) -> (r: Error)
        ensures
            r@ == from_chain_spec(views(chain@), opt_error_view(inner)),
    {
        let head = head_message_of(chain);
        match inner {
            Some(Error::InvalidFormat(e)) => Error::InvalidFormat(colon_join(head.as_str(), e.as_str())),
            Some(Error::Outdated(e)) => Error::Outdated(colon_join(head.as_str(), e.as_str())),
            Some(Error::WrongTime(e)) => Error::WrongTime(colon_join(head.as_str(), e.as_str())),
            Some(Error::ServerError(e)) => Error::ServerError(colon_join(head.as_str(), e.as_str())),
            Some(Error::NoUpdate) => Error::NoUpdate,
            Some(Error::NoActualUpdate) => Error::NoActualUpdate,
            None => Error::ServerError(arrow_stack_of(chain)),
        }
    }

    /// The error for a message that could not be deserialized.
    pub fn deserialize_failure(detail: &str) -> (r: Error)
        ensures
            r@ == ErrorView::InvalidFormat("failed to deserialize message: "@ + detail@),
    {
        Error::InvalidFormat(String::from_str("failed to deserialize message: ").concat(detail))
    }
}


/// Context added around an adapter error never changes its code; an error
/// chain without one is a server error.
pub proof fn context_keeps_code(chain: Seq<Seq<char>>, inner: Option<ErrorView>)
    ensures
        from_chain_spec(chain, inner).code() == match inner { Some(e) => e.code(), None => "server_error"@ },
{
}


/// What an error displays begins with `code: ` and its code, and the code
/// depends on the variant alone, never on the detail the error carries.
pub proof fn display_starts_with_code(e: ErrorView, detail: Seq<char>)
    ensures
        ("code: "@ + e.code()).is_prefix_of(e.display()),
        e.with_detail(detail).code() == e.code(),
{
    reveal_strlit("code: ");
    reveal_strlit("invalid_format");
    reveal_strlit("outdated");
    reveal_strlit("wrong_time");
    reveal_strlit("server_error");
    reveal_strlit("no_update");
    reveal_strlit("no_actual_update");
    reveal_strlit("code: invalid_format, description: ");
    reveal_strlit("code: outdated, description: ");
    reveal_strlit("code: wrong_time, description: ");
    reveal_strlit("code: server_error, description: ");
    reveal_strlit("code: no_update");
    reveal_strlit("code: no_actual_update");
    assert(("code: "@ + e.code()) =~= e.display().subrange(0, ("code: "@ + e.code()).len() as int));
}

} // verus!
