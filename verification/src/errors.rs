//! Error taxonomy and response shaping: every failure maps to one of three
//! kinds, each with a fixed HTTP status and a `{ok: false, message}` body.

use vstd::prelude::*;
use vstd::string::*;

verus! {

/// JSON body returned on every failed request: `{ok: false, message}`.
#[derive(Debug)]
pub struct ErrorResponse {
    pub ok: bool,
    pub message: String,
}

impl ErrorResponse {
    pub fn new(message: String) -> (r: Self)
        ensures
            r.ok == false,
            r.message == message,
    {
        Self { ok: false, message }
    }
}

/// The three failure kinds a handler can surface to a client.
#[derive(Debug)]
#[non_exhaustive]
pub enum AppError {
    NoRowReturned { entity_name: String },
    InvalidRequest,
    InternalError,
}

impl AppError {
    /// HTTP status carried by this error kind.
    pub open spec fn spec_status(self) -> u16 {
        match self {
            AppError::NoRowReturned { .. } => 404,
            AppError::InvalidRequest => 400,
            AppError::InternalError => 500,
        }
    }

    /// Client-visible message carried by this error kind.
    pub open spec fn spec_message(self) -> Seq<char> {
        match self {
            AppError::NoRowReturned { entity_name } => "no "@ + entity_name@ + " found"@,
            AppError::InvalidRequest => "invalid request"@,
            AppError::InternalError => "unexpected error"@,
        }
    }

    /// Shapes the error into the HTTP status and JSON body that the
    /// transport layer sends back.
    pub fn into_response(self) -> (r: (u16, ErrorResponse))
        ensures
            r.0 == self.spec_status(),
            r.1.ok == false,
            r.1.message@ == self.spec_message(),
    {
        match self {
            AppError::NoRowReturned { entity_name } => {
                let mut message = String::from_str("no ");
                message.append(entity_name.as_str());
                message.append(" found");
                (404, ErrorResponse::new(message))
            },
            AppError::InvalidRequest => {
                (400, ErrorResponse::new(String::from_str("invalid request")))
            },
            AppError::InternalError => {
                (500, ErrorResponse::new(String::from_str("unexpected error")))
            },
        }
    }
}

} // verus!
