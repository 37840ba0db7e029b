//! The classes of failure that a request can end in.

use vstd::prelude::*;
use vstd::string::*;

verus! {

/// Why a request failed.
#[derive(Clone, Copy, Debug, PartialEq, Eq, Structural)]
pub enum GatewayError {
    /// The prefix or the object is absent.
    NotFound,
    /// The upload request is malformed.
    BadRequest,
    /// The object store failed: a call to it failed, it answered with a
    /// status outside 200..=299 that does not say that the object is
    /// absent, or its answer holds a date that cannot be read. A request
    /// body that cannot be read further, and an answer that was not asked
    /// for, count as this too.
    UpstreamError,
    /// The gateway is misconfigured: no download link can be made from its
    /// public base URL, or its page size is no number greater than 0.
    ConfigurationError,
    /// The upload needs more parts than a multipart upload may have.
    TooManyParts,
}

/// The status of an answer that the store gave in good order.
pub open spec fn is_success(status: u16) -> bool {
    200 <= status < 300
}

/// Whether the store gave its answer in good order.
pub fn succeeded(status: u16) -> (r: bool)
    ensures
        r == is_success(status),
{
    200 <= status && status < 300
}

impl GatewayError {
    /// The HTTP status that answers a request which failed this way.
    pub open spec fn status(self) -> u16 {
        match self {
            GatewayError::NotFound => 404,
            GatewayError::BadRequest => 400,
            GatewayError::UpstreamError => 500,
            GatewayError::ConfigurationError => 500,
            GatewayError::TooManyParts => 500,
        }
    }

    /// The text shown to the client. It names the class of the failure and
    /// nothing of what the store said.
    pub open spec fn message_text(self) -> Seq<char> {
        match self {
            GatewayError::NotFound => "Not Found"@,
            GatewayError::BadRequest => "No 'file' field found in request"@,
            GatewayError::UpstreamError => "Error accessing S3 object store"@,
            GatewayError::ConfigurationError => "Invalid API_URL"@,
            GatewayError::TooManyParts => "Too many parts"@,
        }
    }

    pub fn status_code(self) -> (r: u16)
        ensures
            r == self.status(),
    {
        match self {
            GatewayError::NotFound => 404,
            GatewayError::BadRequest => 400,
            GatewayError::UpstreamError => 500,
            GatewayError::ConfigurationError => 500,
            GatewayError::TooManyParts => 500,
        }
    }

    pub fn message(self) -> (r: String)
        ensures
            r@ == self.message_text(),
    {
        match self {
            GatewayError::NotFound => String::from_str("Not Found"),
            GatewayError::BadRequest => String::from_str("No 'file' field found in request"),
            GatewayError::UpstreamError => String::from_str("Error accessing S3 object store"),
            GatewayError::ConfigurationError => String::from_str("Invalid API_URL"),
            GatewayError::TooManyParts => String::from_str("Too many parts"),
        }
    }
}

} // verus!
