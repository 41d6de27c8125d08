//! What a transport layer answers: the status that each kind of failure
//! is reported with.

use vstd::prelude::*;
use vstd::string::StringExecFns;
use crate::error::{Error, ErrorKind};
use crate::store::{canonical_reason, canonical_reason_of};

verus! {

/// The status code for "not found".
pub const STATUS_NOT_FOUND: u16 = 404;

/// The status code for "internal server error".
pub const STATUS_INTERNAL_SERVER_ERROR: u16 = 500;

/// The status code for "bad request".
pub const STATUS_BAD_REQUEST: u16 = 400;

/// The status code for "conflict".
pub const STATUS_CONFLICT: u16 = 409;

/// A failure as it is answered to a request.
#[derive(Debug, PartialEq, Eq)]
pub enum AppError {
    NotFound(String),
    InternalServerError(String),
    BadRequest(String),
    Conflict(String),
    /// The body of the request could not be read as JSON: the status that
    /// the rejection asks for and its text.
    JsonExtractionError { status: u16, body: String },
}

/// The status that a kind of failure is answered with.
pub open spec fn status_of_kind(kind: ErrorKind) -> u16 {
    match kind {
        ErrorKind::NotFound => STATUS_NOT_FOUND,
        ErrorKind::Invalid => STATUS_BAD_REQUEST,
        ErrorKind::Conflict => STATUS_CONFLICT,
        ErrorKind::Generic => STATUS_INTERNAL_SERVER_ERROR,
    }
}

impl AppError {
    /// The status code of the answer.
    pub open spec fn spec_code(&self) -> u16 {
        match self {
            AppError::NotFound(_) => STATUS_NOT_FOUND,
            AppError::InternalServerError(_) => STATUS_INTERNAL_SERVER_ERROR,
            AppError::BadRequest(_) => STATUS_BAD_REQUEST,
            AppError::Conflict(_) => STATUS_CONFLICT,
            AppError::JsonExtractionError { status, body } => *status,
        }
    }

    /// The text of the answer.
    pub open spec fn spec_message(&self) -> Seq<char> {
        match self {
            AppError::NotFound(m) => m@,
            AppError::InternalServerError(m) => m@,
            AppError::BadRequest(m) => m@,
            AppError::Conflict(m) => m@,
            AppError::JsonExtractionError { status, body } => body@,
        }
    }

    /// The status code of the answer.
    #[verifier::when_used_as_spec(spec_code)]
    pub fn code(&self) -> (r: u16)
        ensures
            r == self.spec_code(),
    {
        match self {
            AppError::NotFound(_) => STATUS_NOT_FOUND,
            AppError::InternalServerError(_) => STATUS_INTERNAL_SERVER_ERROR,
            AppError::BadRequest(_) => STATUS_BAD_REQUEST,
            AppError::Conflict(_) => STATUS_CONFLICT,
            AppError::JsonExtractionError { status, body } => *status,
        }
    }

    /// The canonical reason of the status code, `Unknown` where it has
    /// none.
    pub fn reason(&self) -> (r: String)
        ensures
            r@ == reason_or_unknown(canonical_reason_of(self.spec_code())),
    {
        reason_text(canonical_reason(self.code()))
    }

    /// The text of the answer.
    pub fn message(self) -> (r: String)
        ensures
            r@ == self.spec_message(),
    {
        match self {
            AppError::NotFound(m) => m,
            AppError::InternalServerError(m) => m,
            AppError::BadRequest(m) => m,
            AppError::Conflict(m) => m,
            AppError::JsonExtractionError { status, body } => body,
        }
    }

    /// The answer to a failure of the library: a missing object is "not
    /// found", invalid input is a "bad request", a name that is taken is a
    /// "conflict", and anything else an "internal server error". The text
    /// is that of the failure.
    pub fn from_error(error: &Error) -> (r: AppError)
        ensures
            r.spec_code() == status_of_kind(error.spec_kind()),
            r.spec_message() == error.spec_message(),
    {
        let text = error.message();
        match error.kind() {
            ErrorKind::NotFound => AppError::NotFound(text),
            ErrorKind::Invalid => AppError::BadRequest(text),
            ErrorKind::Conflict => AppError::Conflict(text),
            ErrorKind::Generic => AppError::InternalServerError(text),
        }
    }
}

/// The reason that is shown for a status: its canonical reason, or
/// `Unknown`.
pub open spec fn reason_or_unknown(reason: Option<Seq<char>>) -> Seq<char> {
    match reason {
        Some(t) => t,
        None => "Unknown"@,
    }
}

/// The reason that is shown, given the canonical reason if there is one.
pub fn reason_text(reason: Option<String>) -> (r: String)
    ensures
        r@ == reason_or_unknown(
            match reason {
                Some(t) => Some(t@),
                None => None,
            },
        ),
{
    match reason {
        Some(t) => t,
        None => String::from_str("Unknown"),
    }
}

/// A status as it is answered.
#[derive(Debug, PartialEq, Eq)]
pub struct ApiStatusResponse {
    /// HTTP status code.
    pub status: u16,
    /// Canonical reason of the status.
    pub reason: String,
}

impl ApiStatusResponse {
    /// The answer for a status code.
    pub fn from_code(status: u16) -> (r: ApiStatusResponse)
        ensures
            r.status == status,
            r.reason@ == reason_or_unknown(canonical_reason_of(status)),
    {
        ApiStatusResponse { status, reason: reason_text(canonical_reason(status)) }
    }
}

/// A failure as it is answered, with its text.
#[derive(Debug, PartialEq, Eq)]
pub struct ApiStatusDetailResponse {
    /// HTTP status code.
    pub status: u16,
    /// Canonical reason of the status.
    pub reason: String,
    /// Error message.
    pub message: String,
    /// More details.
    pub details: Option<Vec<String>>,
}

impl ApiStatusDetailResponse {
    /// The answer for a failure: its status, the reason of that status,
    /// its text, and no details.
    pub fn from_app_error(app_error: AppError) -> (r: ApiStatusDetailResponse)
        ensures
            r.status == app_error.spec_code(),
            r.reason@ == reason_or_unknown(canonical_reason_of(app_error.spec_code())),
            r.message@ == app_error.spec_message(),
            r.details is None,
    {
        let status = app_error.code();
        let reason = app_error.reason();
        ApiStatusDetailResponse { status, reason, message: app_error.message(), details: None }
    }
}

} // verus!
