//! The application error taxonomy.
//!
//! Four kinds, mirrored on HTTP status codes at the boundary: an
//! opaque storage failure, a missing record, a malformed external
//! identifier, and any other internal invariant violation.  A
//! malformed identifier is a client error, kept strictly distinct from
//! "not found".

use vstd::prelude::*;

use crate::error_response::SerializableError;

verus! {

/// Application-level error classification.
#[derive(Debug, PartialEq, Eq)]
pub enum AppError {
    /// Opaque failure of the storage driver; surfaced as a generic
    /// server-side failure.
    StorageError(String),
    /// The requested record does not exist; carries a description of
    /// the entity for diagnostics.
    NotFound(String),
    /// An external identifier string failed to parse; a client error,
    /// never conflated with `NotFound`.
    InvalidIdentifier(String),
    /// Any other internal invariant violation.
    InternalServerError(String),
}

impl AppError {
    /// HTTP status this error is surfaced as.
    pub open spec fn status_code_spec(&self) -> u16 {
        match self {
            AppError::StorageError(_) => 500,
            AppError::NotFound(_) => 404,
            AppError::InvalidIdentifier(_) => 400,
            AppError::InternalServerError(_) => 500,
        }
    }

    /// The diagnostic message carried by this error.
    pub open spec fn message_spec(&self) -> Seq<char> {
        match self {
            AppError::StorageError(m) => m@,
            AppError::NotFound(m) => m@,
            AppError::InvalidIdentifier(m) => m@,
            AppError::InternalServerError(m) => m@,
        }
    }

    /// HTTP status this error is surfaced as.
    pub fn status_code(&self) -> (r: u16)
        ensures
            r == self.status_code_spec(),
    {
        match self {
            AppError::StorageError(_) => 500,
            AppError::NotFound(_) => 404,
            AppError::InvalidIdentifier(_) => 400,
            AppError::InternalServerError(_) => 500,
        }
    }

    /// The diagnostic message carried by this error.
    pub fn message(&self) -> (r: &String)
        ensures
            r@ == self.message_spec(),
    {
        match self {
            AppError::StorageError(m) => m,
            AppError::NotFound(m) => m,
            AppError::InvalidIdentifier(m) => m,
            AppError::InternalServerError(m) => m,
        }
    }

    /// The serializable body this error is answered with at the
    /// boundary.  A storage failure's driver detail is never
    /// forwarded to external callers: a fixed generic body replaces
    /// it (the detail stays available internally, for logging).
    /// Every other kind carries its own message.
    pub fn to_response(&self) -> (r: SerializableError)
        ensures
            self is StorageError ==> r.error@ == "Database error"@,
            !(self is StorageError) ==> r.error@ == self.message_spec(),
            r.status == self.status_code_spec(),
    {
        match self {
            AppError::StorageError(_) => SerializableError::new(
                String::from_str("Database error"),
                500,
            ),
            _ => SerializableError::new(self.message().clone(), self.status_code()),
        }
    }
}

/// Any plain message is an internal server error, as when an
/// unclassified failure is wrapped on its way to the boundary.
impl From<String> for AppError {
    fn from(msg: String) -> (r: AppError) {
        AppError::InternalServerError(msg)
    }
}

impl vstd::std_specs::convert::FromSpecImpl<String> for AppError {
    open spec fn obeys_from_spec() -> bool {
        true
    }

    open spec fn from_spec(msg: String) -> AppError {
        AppError::InternalServerError(msg)
    }
}

} // verus!
