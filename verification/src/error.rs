//! The error taxonomy of commands and queries, and how a caller sees it.

use vstd::prelude::*;
use vstd::string::StringExecFns;

verus! {

/// Why a command or a query failed.
#[derive(Debug, Clone, PartialEq, Eq)]
pub enum Error {
    /// A storage, database or blob failure, or a broken structural invariant.
    /// The text is detail for the server's log and never reaches the caller.
    InternalServerErr(String),
    /// The caller's input is invalid; the text says why.
    BadRequest(String),
    /// The named kind of thing with the given identifier does not exist.
    NotFound(String, String),
    /// The optimistic append lost: the stream moved on since it was loaded.
    VersionConflict,
}

/// The message shown to callers for every internal failure.
pub open spec fn internal_message() -> Seq<char> {
    "internal server error"@
}

/// The message shown to callers for a lost optimistic append.
pub open spec fn conflict_message() -> Seq<char> {
    "version conflict"@
}

impl Error {
    /// The status code that a caller sees.
    pub open spec fn spec_status_code(self) -> u16 {
        match self {
            Error::InternalServerErr(_) => 500,
            Error::BadRequest(_) => 400,
            Error::NotFound(_, _) => 404,
            Error::VersionConflict => 409,
        }
    }

    /// The message that a caller sees. For an internal failure it is the same
    /// generic text whatever the detail.
    pub open spec fn spec_message(self) -> Seq<char> {
        match self {
            Error::InternalServerErr(_) => internal_message(),
            Error::BadRequest(reason) => reason@,
            Error::NotFound(kind, id) => kind@ + " `"@ + id@ + "` does not exist"@,
            Error::VersionConflict => conflict_message(),
        }
    }

    /// What goes to the server's log: the detail of an internal failure, and
    /// nothing for the other kinds.
    pub open spec fn spec_log_detail(self) -> Option<Seq<char>> {
        match self {
            Error::InternalServerErr(detail) => Some(detail@),
            _ => None,
        }
    }

    /// Whether the caller may retry after reloading the aggregate.
    pub open spec fn spec_is_retryable(self) -> bool {
        self is VersionConflict
    }

    pub fn status_code(&self) -> (code: u16)
        ensures
            code == self.spec_status_code(),
    {
        match self {
            Error::InternalServerErr(_) => 500,
            Error::BadRequest(_) => 400,
            Error::NotFound(_, _) => 404,
            Error::VersionConflict => 409,
        }
    }

    pub fn message(&self) -> (text: String)
        ensures
            text@ == self.spec_message(),
    {
        match self {
            Error::InternalServerErr(_) => String::from_str("internal server error"),
            Error::BadRequest(reason) => reason.clone(),
            Error::NotFound(kind, id) => {
                let mut text = kind.clone();
                text.append(" `");
                text.append(id.as_str());
                text.append("` does not exist");
                text
            },
            Error::VersionConflict => String::from_str("version conflict"),
        }
    }

    pub fn log_detail(&self) -> (detail: Option<String>)
        ensures
            match detail {
                Some(text) => self.spec_log_detail() == Some(text@),
                None => self.spec_log_detail() is None,
            },
    {
        match self {
            Error::InternalServerErr(detail) => Some(detail.clone()),
            _ => None,
        }
    }

    pub fn is_retryable(&self) -> (retry: bool)
        ensures
            retry == self.spec_is_retryable(),
    {
        match self {
            Error::VersionConflict => true,
            _ => false,
        }
    }

    /// The structured failure that a caller sees: the status code and the message.
    pub fn error_response(&self) -> (body: ErrorBody)
        ensures
            body.code == self.spec_status_code(),
            body.message@ == self.spec_message(),
    {
        ErrorBody { code: self.status_code(), message: self.message() }
    }
}

/// The `{code, message}` body of a failed request.
#[derive(Debug, Clone, PartialEq, Eq)]
pub struct ErrorBody {
    pub code: u16,
    pub message: String,
}

/// The body of a command that succeeded: the identifier of the aggregate it touched.
#[derive(Debug, Clone, PartialEq, Eq)]
pub struct CommandResponse {
    pub id: String,
}

/// What the caller of a command gets back.
pub fn command_response(result: Result<String, Error>) -> (out: Result<CommandResponse, ErrorBody>)
    ensures
        match result {
            Ok(id) => out == Ok::<CommandResponse, ErrorBody>(CommandResponse { id }),
            Err(e) => out matches Err(body) && body.code == e.spec_status_code() && body.message@
                == e.spec_message(),
        },
{
    match result {
        Ok(id) => Ok(CommandResponse { id }),
        Err(e) => Err(e.error_response()),
    }
}

/// No internal detail ever reaches a caller: two internal failures with
/// different details look the same from outside.
pub proof fn internal_detail_never_leaks(a: String, b: String)
    ensures
        Error::InternalServerErr(a).spec_message() == Error::InternalServerErr(b).spec_message(),
        Error::InternalServerErr(a).spec_status_code() == Error::InternalServerErr(
            b,
        ).spec_status_code(),
{
}

} // verus!
