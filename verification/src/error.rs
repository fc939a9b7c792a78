//! The failure kinds of the service and their client-visible form.

use vstd::prelude::*;
use vstd::std_specs::convert::FromSpecImpl;

verus! {

/// `sqlx::Error`, carried through as an opaque value.
#[verifier::external_type_specification]
#[verifier::external_body]
pub struct ExSqlxError(sqlx::Error);

/// A failure of a request, as the handlers report it.
#[derive(Debug)]
pub enum AppError {
    /// The store failed; the cause is kept for server-side diagnostics only.
    Database(sqlx::Error),
    /// Missing, invalid or expired token, or wrong credentials.
    Unauthorized,
    /// The request cannot be served as sent; the text is shown to the client.
    BadRequest(String),
    /// An unexpected failure inside the service.
    InternalServerError,
}

/// The JSON body of an error response: one field, `error`.
#[derive(Debug, PartialEq, Eq)]
pub struct ErrorBody {
    pub error: String,
}

/// What the boundary sends for a failure, and what it records.
#[derive(Debug, PartialEq, Eq)]
pub struct ErrorResponse {
    /// HTTP status code.
    pub status: u16,
    /// Body sent to the client.
    pub body: ErrorBody,
    /// Text for the server's error log; never sent to the client.
    pub diagnostic: Option<String>,
}

pub const STATUS_BAD_REQUEST: u16 = 400;

pub const STATUS_UNAUTHORIZED: u16 = 401;

pub const STATUS_INTERNAL_SERVER_ERROR: u16 = 500;

impl AppError {
    /// The HTTP status code that stands for this failure.
    pub open spec fn status(&self) -> u16 {
        match self {
            AppError::Database(_) => STATUS_INTERNAL_SERVER_ERROR,
            AppError::Unauthorized => STATUS_UNAUTHORIZED,
            AppError::BadRequest(_) => STATUS_BAD_REQUEST,
            AppError::InternalServerError => STATUS_INTERNAL_SERVER_ERROR,
        }
    }

    /// The text shown to the client. Only a `BadRequest` speaks for itself;
    /// every other kind has one fixed, generic message.
    pub open spec fn message(&self) -> Seq<char> {
        match self {
            AppError::Database(_) => "Database Error"@,
            AppError::Unauthorized => "Unauthorized"@,
            AppError::BadRequest(text) => text@,
            AppError::InternalServerError => "Internal Server Error"@,
        }
    }

    /// Whether the failure has a cause that is written to the error log.
    pub open spec fn is_logged(&self) -> bool {
        self is Database
    }

    /// Turns the failure into its response. This is the one place where the
    /// cause of a store failure is parted from what the client sees: the
    /// cause goes to `diagnostic`, in full and behind a fixed prefix, and the
    /// client gets the generic message.
    pub fn into_response(self) -> (response: ErrorResponse)
        ensures
            response.status == self.status(),
            response.body.error@ == self.message(),
            response.diagnostic is Some <==> self.is_logged(),
            match self {
                AppError::Database(cause) => response.diagnostic matches Some(text) && text@
                    == DIAGNOSTIC_PREFIX@ + store_error_text(cause),
                _ => response.diagnostic is None,
            },
    {
        match self {
            AppError::Database(cause) => {
                let cause_text = debug_text(&cause);
                let text = String::from_str(DIAGNOSTIC_PREFIX).concat(cause_text.as_str());
                ErrorResponse {
                    status: STATUS_INTERNAL_SERVER_ERROR,
                    body: ErrorBody { error: String::from_str("Database Error") },
                    diagnostic: Some(text),
                }
            },
            AppError::Unauthorized => ErrorResponse {
                status: STATUS_UNAUTHORIZED,
                body: ErrorBody { error: String::from_str("Unauthorized") },
                diagnostic: None,
            },
            AppError::BadRequest(text) => ErrorResponse {
                status: STATUS_BAD_REQUEST,
                body: ErrorBody { error: text },
                diagnostic: None,
            },
            AppError::InternalServerError => ErrorResponse {
                status: STATUS_INTERNAL_SERVER_ERROR,
                body: ErrorBody { error: String::from_str("Internal Server Error") },
                diagnostic: None,
            },
        }
    }
}

/// How every logged store failure begins.
pub const DIAGNOSTIC_PREFIX: &'static str = "Database error: ";

/// The text that the `Debug` formatting of a `sqlx::Error` gives: the cause
/// of a store failure as it is written to the log.
pub uninterp spec fn store_error_text(cause: sqlx::Error) -> Seq<char>;

/// Formats a `sqlx::Error` with `{:?}`, that is with the `Debug` impl that
/// sqlx derives for it.
///
/// Trusted: the text is a function of the error alone, the one that
/// `store_error_text` names.
#[verifier::external_body]
fn debug_text(cause: &sqlx::Error) -> (text: String)
    ensures
        text@ == store_error_text(*cause),
{
    format!("{:?}", cause)
}

impl From<sqlx::Error> for AppError {
    fn from(inner: sqlx::Error) -> (error: AppError) {
        AppError::Database(inner)
    }
}

impl FromSpecImpl<sqlx::Error> for AppError {
    open spec fn obeys_from_spec() -> bool {
        true
    }

    open spec fn from_spec(inner: sqlx::Error) -> AppError {
        AppError::Database(inner)
    }
}

} // verus!
