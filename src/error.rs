//! The gateway's error taxonomy and its wire envelope.
use vstd::prelude::*;
use vstd::string::*;

use crate::models::{ErrorDetail, ErrorResponse};

verus! {

/// Every way a call through the gateway can fail.
#[derive(PartialEq, Eq, Structural)]
pub enum ProxyError {
    /// The body is larger than the configured ceiling; it was never parsed.
    PayloadTooLarge,
    /// The body is not valid JSON or lacks required fields.
    MalformedRequest,
    /// A content block that the target dialect cannot represent.
    UnsupportedContent,
    /// No configured provider lists the requested model.
    NoProviderForModel,
    /// The rate limiter has no room left in the current window.
    RateLimited,
    /// The backend did not answer within the configured deadline.
    UpstreamTimeout,
    /// The backend was unreachable or answered with a failure status.
    UpstreamError { status: Option<u16> },
}

/// The HTTP status class of each error.
pub open spec fn status_of(e: ProxyError) -> u16 {
    match e {
        ProxyError::PayloadTooLarge => 413,
        ProxyError::MalformedRequest => 400,
        ProxyError::UnsupportedContent => 400,
        ProxyError::NoProviderForModel => 404,
        ProxyError::RateLimited => 429,
        ProxyError::UpstreamTimeout => 504,
        ProxyError::UpstreamError { .. } => 502,
    }
}

/// The stable `type` tag of each error in the envelope.
pub open spec fn type_tag_of(e: ProxyError) -> Seq<char> {
    match e {
        ProxyError::PayloadTooLarge => "payload_too_large"@,
        ProxyError::MalformedRequest => "malformed_request"@,
        ProxyError::UnsupportedContent => "unsupported_content"@,
        ProxyError::NoProviderForModel => "no_provider_for_model"@,
        ProxyError::RateLimited => "rate_limited"@,
        ProxyError::UpstreamTimeout => "upstream_timeout"@,
        ProxyError::UpstreamError { .. } => "upstream_error"@,
    }
}

impl ProxyError {
    pub fn status_code(&self) -> (r: u16)
        ensures
            r == status_of(*self),
    {
        match self {
            ProxyError::PayloadTooLarge => 413,
            ProxyError::MalformedRequest => 400,
            ProxyError::UnsupportedContent => 400,
            ProxyError::NoProviderForModel => 404,
            ProxyError::RateLimited => 429,
            ProxyError::UpstreamTimeout => 504,
            ProxyError::UpstreamError { .. } => 502,
        }
    }

    pub fn type_tag(&self) -> (r: String)
        ensures
            r@ == type_tag_of(*self),
    {
        match self {
            ProxyError::PayloadTooLarge => String::from_str("payload_too_large"),
            ProxyError::MalformedRequest => String::from_str("malformed_request"),
            ProxyError::UnsupportedContent => String::from_str("unsupported_content"),
            ProxyError::NoProviderForModel => String::from_str("no_provider_for_model"),
            ProxyError::RateLimited => String::from_str("rate_limited"),
            ProxyError::UpstreamTimeout => String::from_str("upstream_timeout"),
            ProxyError::UpstreamError { .. } => String::from_str("upstream_error"),
        }
    }

    /// The envelope reported to the caller, with a human-readable message
    /// and, for a backend failure that carried one, the backend's status as
    /// `code`.
    pub fn to_response(&self, message: String) -> (r: ErrorResponse)
        ensures
            r.error.message == message,
            r.error.error_type@ == type_tag_of(*self),
            (r.error.code is None) <==> !(*self matches ProxyError::UpstreamError { status: Some(_) }),
    {
        let code = match self {
            ProxyError::UpstreamError { status: Some(s) } => Some(s.to_string()),
            _ => None,
        };
        ErrorResponse { error: ErrorDetail { message, error_type: self.type_tag(), code } }
    }
}

} // verus!
