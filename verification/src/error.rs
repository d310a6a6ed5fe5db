//! The error type shared by every operation of the library.

use vstd::prelude::*;
use vstd::string::*;

verus! {

/// What can go wrong in an operation. Storage, migration and I/O failures
/// carry the text of the underlying failure.
#[derive(Debug, Clone, PartialEq, Eq)]
pub enum AppError {
    Database(String),
    Migration(String),
    Validation(String),
    Io(String),
    Internal(String),
    Unauthorized,
    NotFound(String),
}

impl AppError {
    /// The text shown to a caller: a fixed prefix per kind, then the detail.
    pub open spec fn message_text(&self) -> Seq<char> {
        match self {
            AppError::Database(detail) => "Database error: "@ + detail@,
            AppError::Migration(detail) => "Migration error: "@ + detail@,
            AppError::Validation(detail) => "Validation error: "@ + detail@,
            AppError::Io(detail) => "Io error: "@ + detail@,
            AppError::Internal(detail) => "Internal error: "@ + detail@,
            AppError::Unauthorized => "Unauthorized"@,
            AppError::NotFound(detail) => "Not found: "@ + detail@,
        }
    }

    /// Renders the error as the descriptive message reported to the caller.
    pub fn message(&self) -> (text: String)
        ensures
            text@ == self.message_text(),
    {
        match self {
            AppError::Database(detail) => String::from_str("Database error: ").concat(
                detail.as_str(),
            ),
            AppError::Migration(detail) => String::from_str("Migration error: ").concat(
                detail.as_str(),
            ),
            AppError::Validation(detail) => String::from_str("Validation error: ").concat(
                detail.as_str(),
            ),
            AppError::Io(detail) => String::from_str("Io error: ").concat(detail.as_str()),
            AppError::Internal(detail) => String::from_str("Internal error: ").concat(
                detail.as_str(),
            ),
            AppError::Unauthorized => String::from_str("Unauthorized"),
            AppError::NotFound(detail) => String::from_str("Not found: ").concat(detail.as_str()),
        }
    }
}

/// Whether a verdict is the one that a refusal, or its absence, calls for:
/// acceptance where nothing is refused, else a validation error with the
/// refusal as its text.
pub open spec fn verdict_is(verdict: Result<(), AppError>, refusal: Option<Seq<char>>) -> bool {
    match refusal {
        None => verdict is Ok,
        Some(text) => verdict matches Err(AppError::Validation(detail)) && detail@ == text,
    }
}

/// The error for a record that the store does not hold. Its text names the
/// kind of record and the identifier that was asked for.
pub fn not_found(what: &str, id: &str) -> (error: AppError)
    ensures
        error matches AppError::NotFound(detail) && detail@ == what@ + " "@ + id@ + " not found"@,
{
    AppError::NotFound(String::from_str(what).concat(" ").concat(id).concat(" not found"))
}

} // verus!
