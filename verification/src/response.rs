//! The error envelope every endpoint reports: a stable machine code, a
//! human message, and the HTTP status chosen for the error kind.

use vstd::prelude::*;

verus! {

pub const STATUS_OK: u16 = 200;

pub const STATUS_PARTIAL_CONTENT: u16 = 206;

pub const STATUS_BAD_REQUEST: u16 = 400;

pub const STATUS_UNAUTHORIZED: u16 = 401;

pub const STATUS_FORBIDDEN: u16 = 403;

pub const STATUS_NOT_FOUND: u16 = 404;

pub const STATUS_INTERNAL_SERVER_ERROR: u16 = 500;

/// The body of an error response, together with the status it is sent
/// under.
#[derive(Debug)]
pub struct ApiError {
    /// Stable machine-readable code.
    pub error: String,
    /// Human-readable text.
    pub message: String,
    /// HTTP status code.
    pub status: u16,
}

impl ApiError {
    /// A 500-class error with the given code and text.
    pub fn internal(error: &str, message: String) -> (r: ApiError)
        ensures
            r.error@ == error@,
            r.message@ == message@,
            r.status == STATUS_INTERNAL_SERVER_ERROR,
    {
        ApiError { error: error.to_owned(), message, status: STATUS_INTERNAL_SERVER_ERROR }
    }

    /// The generic 404 response.
    pub fn not_found() -> (r: ApiError)
        ensures
            r.error@ == "not_found"@,
            r.message@ == "The requested resource was not found"@,
            r.status == STATUS_NOT_FOUND,
    {
        ApiError {
            error: "not_found".to_owned(),
            message: "The requested resource was not found".to_owned(),
            status: STATUS_NOT_FOUND,
        }
    }
}

} // verus!
