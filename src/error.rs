//! Errors of the authentication core and the statuses that requests end with.

use vstd::prelude::*;

verus! {

/// What went wrong inside the authentication core.
#[derive(Debug, Clone, Copy, PartialEq, Eq, Structural)]
pub enum AuthError {
    /// The signing secret is absent from the configuration.
    Configuration,
    /// The password hasher failed (random source or encoding).
    Hashing,
    /// A token is malformed, wrongly signed or expired.
    InvalidToken,
    /// A stored password hash cannot be parsed.
    MalformedHash,
    /// The system clock reads a time that a token cannot carry.
    Clock,
}

/// The HTTP statuses that a failed request ends with.
#[derive(Debug, Clone, Copy, PartialEq, Eq, Structural)]
pub enum Status {
    Unauthorized,
    Forbidden,
    NotFound,
    InternalServerError,
}

impl Status {
    pub open spec fn spec_code(self) -> u16 {
        match self {
            Status::Unauthorized => 401,
            Status::Forbidden => 403,
            Status::NotFound => 404,
            Status::InternalServerError => 500,
        }
    }

    /// The numeric HTTP status code.
    pub fn code(&self) -> (r: u16)
        ensures
            r == self.spec_code(),
    {
        match self {
            Status::Unauthorized => 401,
            Status::Forbidden => 403,
            Status::NotFound => 404,
            Status::InternalServerError => 500,
        }
    }
}

/// The JSON body of a failed request: `{ "error": "<message>" }`.
#[derive(Debug, Clone)]
pub struct ErrorResponse {
    pub error: String,
}

/// A failed request: its status and its body.
#[derive(Debug, Clone)]
pub struct ApiError {
    pub status: Status,
    pub body: ErrorResponse,
}

/// The error that a request ends with: `status` and a body carrying `message`.
pub fn api_error(status: Status, message: &str) -> (r: ApiError)
    ensures
        r.status == status,
        r.body.error@ == message@,
{
    ApiError { status, body: ErrorResponse { error: message.to_string() } }
}

} // verus!
