//! The error a request handler answers with.

use vstd::prelude::*;

verus! {

/// A request-path failure: the HTTP status to answer with and the
/// human-readable message that goes into the response body.
#[derive(Debug)]
pub struct ApiError {
    pub status: u16,
    pub message: String,
}

impl View for ApiError {
    type V = (u16, Seq<char>);

    open spec fn view(&self) -> (u16, Seq<char>) {
        (self.status, self.message@)
    }
}

/// 401 Unauthorized
pub const UNAUTHORIZED: u16 = 401;

/// 400 Bad Request
pub const BAD_REQUEST: u16 = 400;

/// 415 Unsupported Media Type
pub const UNSUPPORTED_MEDIA_TYPE: u16 = 415;

/// 413 Payload Too Large
pub const PAYLOAD_TOO_LARGE: u16 = 413;

/// 503 Service Unavailable
pub const SERVICE_UNAVAILABLE: u16 = 503;

/// 502 Bad Gateway
pub const BAD_GATEWAY: u16 = 502;

impl ApiError {
    /// An error that answers with `status` and `message`.
    pub fn new(status: u16, message: &str) -> (e: ApiError)
        ensures
            e@ == (status, message@),
    {
        ApiError { status, message: message.to_owned() }
    }

    /// A 401 with `message`.
    pub fn unauthorized(message: &str) -> (e: ApiError)
        ensures
            e@ == (UNAUTHORIZED, message@),
    {
        ApiError::new(UNAUTHORIZED, message)
    }

    /// A 400 with `message`.
    pub fn bad_request(message: &str) -> (e: ApiError)
        ensures
            e@ == (BAD_REQUEST, message@),
    {
        ApiError::new(BAD_REQUEST, message)
    }

    /// A 415 with `message`.
    pub fn unsupported_media_type(message: &str) -> (e: ApiError)
        ensures
            e@ == (UNSUPPORTED_MEDIA_TYPE, message@),
    {
        ApiError::new(UNSUPPORTED_MEDIA_TYPE, message)
    }

    /// A 413 with `message`.
    pub fn payload_too_large(message: &str) -> (e: ApiError)
        ensures
            e@ == (PAYLOAD_TOO_LARGE, message@),
    {
        ApiError::new(PAYLOAD_TOO_LARGE, message)
    }

    /// A 503 with `message`.
    pub fn service_unavailable(message: &str) -> (e: ApiError)
        ensures
            e@ == (SERVICE_UNAVAILABLE, message@),
    {
        ApiError::new(SERVICE_UNAVAILABLE, message)
    }
}

} // verus!
