//! Serializable error body returned to external callers: a message
//! and the HTTP status it travels with.

use vstd::prelude::*;

verus! {

/// Error object with its message and status code.
#[derive(Debug, PartialEq, Eq)]
pub struct SerializableError {
    pub error: String,
    pub status: u16,
}

impl SerializableError {
    /// Bundle a message with its status code.
    pub fn new(error: String, status: u16) -> (r: Self)
        ensures
            r.error == error,
            r.status == status,
    {
        SerializableError { error, status }
    }
}

} // verus!
