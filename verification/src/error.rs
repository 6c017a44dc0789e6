//! The failures that the backend reports to its callers.

use vstd::prelude::*;

verus! {

/// Why an operation was refused or could not be completed.
#[derive(Debug, Clone, PartialEq, Eq)]
pub enum AppError {
    /// The store failed; the text says how.
    Database(String),
    /// No connection to the store could be had; the text says why.
    DatabasePool(String),
    /// The request was malformed; the text says in what way.
    InvalidInput(String),
    /// No valid admin session came with the request, or the login was wrong.
    Unauthorized,
    /// The entity that the request names does not exist.
    NotFound,
    /// The upload is of a type that is not accepted.
    UnsupportedMediaType,
    /// The request collides with a record that exists already.
    Conflict,
    /// Reading the request's payload failed; the text says how.
    Io(String),
}

impl AppError {
    /// The HTTP status code of each failure.
    pub open spec fn status_code(self) -> u16 {
        match self {
            AppError::Database(_) => 500,
            AppError::DatabasePool(_) => 500,
            AppError::InvalidInput(_) => 400,
            AppError::Unauthorized => 401,
            AppError::NotFound => 404,
            AppError::UnsupportedMediaType => 415,
            AppError::Conflict => 409,
            AppError::Io(_) => 500,
        }
    }

    /// A failure of the store or of the transport, which the operator has to
    /// hear of, as opposed to one that the caller brought about.
    pub open spec fn is_server_fault(self) -> bool {
        self is Database || self is DatabasePool || self is Io
    }

    /// Get the HTTP status code for this error.
    pub fn status(&self) -> (code: u16)
        ensures
            code == self.status_code(),
    {
        match self {
            AppError::Database(_) => 500,
            AppError::DatabasePool(_) => 500,
            AppError::InvalidInput(_) => 400,
            AppError::Unauthorized => 401,
            AppError::NotFound => 404,
            AppError::UnsupportedMediaType => 415,
            AppError::Conflict => 409,
            AppError::Io(_) => 500,
        }
    }

    /// Check if this error should be logged as an error.
    pub fn should_log_as_error(&self) -> (r: bool)
        ensures
            r == self.is_server_fault(),
            r == (self.status_code() == 500),
    {
        match self {
            AppError::Database(_) | AppError::DatabasePool(_) | AppError::Io(_) => true,
            _ => false,
        }
    }

    /// The failure in full, as the operator reads it in the log: a fixed
    /// label, followed by the detail where the failure carries one. This is
    /// not what the caller is sent: see [`AppError::response_text`].
    pub open spec fn message_text(self) -> Seq<char> {
        match self {
            AppError::Database(d) => "Database error: "@ + d@,
            AppError::DatabasePool(d) => "Database pool error: "@ + d@,
            AppError::InvalidInput(d) => "Invalid input: "@ + d@,
            AppError::Unauthorized => "Unauthorized"@,
            AppError::NotFound => "Resource not found"@,
            AppError::UnsupportedMediaType => "Unsupported media type"@,
            AppError::Conflict => "Conflict"@,
            AppError::Io(d) => "IO error: "@ + d@,
        }
    }

    /// The failure in full, for the log.
    pub fn message(&self) -> (m: String)
        ensures
            m@ == self.message_text(),
    {
        match self {
            AppError::Database(d) => "Database error: ".to_owned().concat(d.as_str()),
            AppError::DatabasePool(d) => "Database pool error: ".to_owned().concat(d.as_str()),
            AppError::InvalidInput(d) => "Invalid input: ".to_owned().concat(d.as_str()),
            AppError::Unauthorized => "Unauthorized".to_owned(),
            AppError::NotFound => "Resource not found".to_owned(),
            AppError::UnsupportedMediaType => "Unsupported media type".to_owned(),
            AppError::Conflict => "Conflict".to_owned(),
            AppError::Io(d) => "IO error: ".to_owned().concat(d.as_str()),
        }
    }

    /// The text that is sent to the caller: for a failure of the store or
    /// of the transport one fixed text, which gives none of the detail away;
    /// for any other failure the failure in full.
    pub open spec fn response_body(self) -> Seq<char> {
        if self.is_server_fault() {
            "Internal server error"@
        } else {
            self.message_text()
        }
    }

    /// The text that is sent to the caller.
    pub fn response_text(&self) -> (m: String)
        ensures
            m@ == self.response_body(),
            self.is_server_fault() ==> m@ == "Internal server error"@,
            !self.is_server_fault() ==> m@ == self.message_text(),
    {
        if self.should_log_as_error() {
            "Internal server error".to_owned()
        } else {
            self.message()
        }
    }
}

/// Result type alias for the application.
pub type AppResult<T> = Result<T, AppError>;

} // verus!
