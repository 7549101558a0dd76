//! The typed errors of the service and their mapping to a wire response:
//! a status code and a message body that never carries the secret or a
//! derived code.

use vstd::prelude::*;

verus! {

/// The JSON body of an error response: `{message: string}`.
#[derive(Debug)]
pub struct ErrorResponseBody {
    pub message: String,
}

/// The closed taxonomy of request failures.
///
/// `BadRequest` is a client error (a malformed body or an invalid interval),
/// `Unauthorized` is a failed verification, and `ServerError` is an
/// unreadable system clock. Each maps to exactly one status code.
#[derive(Debug)]
pub enum ErrorResponse {
    BadRequest { message: String },
    Unauthorized { message: String },
    ServerError,
}

impl ErrorResponse {
    /// The status code this error is reported with.
    pub open spec fn spec_status_code(&self) -> u16 {
        match self {
            ErrorResponse::BadRequest { .. } => 400,
            ErrorResponse::Unauthorized { .. } => 401,
            ErrorResponse::ServerError => 500,
        }
    }

    /// The message this error is reported with.
    pub open spec fn spec_message(&self) -> Seq<char> {
        match self {
            ErrorResponse::BadRequest { message } => message@,
            ErrorResponse::Unauthorized { message } => message@,
            ErrorResponse::ServerError => "Internal server error"@,
        }
    }

    /// Maps each error kind to its status code: 400 for a client error,
    /// 401 for a failed verification, 500 for a server error.
    pub fn status_code(&self) -> (code: u16)
        ensures
            code == self.spec_status_code(),
    {
        match self {
            ErrorResponse::BadRequest { .. } => 400,
            ErrorResponse::Unauthorized { .. } => 401,
            ErrorResponse::ServerError => 500,
        }
    }

    /// Renders the error as a full response: its status code and a body
    /// carrying its message.
    pub fn error_response(&self) -> (r: (u16, ErrorResponseBody))
        ensures
            r.0 == self.spec_status_code(),
            r.1.message@ == self.spec_message(),
    {
        match self {
            ErrorResponse::BadRequest { message } => build_response(self, message.clone()),
            ErrorResponse::Unauthorized { message } => build_response(self, message.clone()),
            ErrorResponse::ServerError => build_response(self, "Internal server error".to_owned()),
        }
    }
}

/// Pairs the status code of `res` with a body carrying `message`.
pub fn build_response(res: &ErrorResponse, message: String) -> (r: (u16, ErrorResponseBody))
    ensures
        r.0 == res.spec_status_code(),
        r.1.message@ == message@,
{
    (res.status_code(), ErrorResponseBody { message })
}

} // verus!
