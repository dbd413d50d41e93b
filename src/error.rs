//! The failures a request can end in.

use vstd::prelude::*;

verus! {

/// A failure response of the service.
#[derive(Clone, Debug, PartialEq, Eq)]
pub enum ApiError {
    /// Status 401.
    Unauthorized,
    /// Status 429; the rate limiter was penalized first.
    RateLimited,
    /// Any other status outside 2xx, with the body as text.
    Other(u16, String),
}

/// Every way a request through the coordinator can fail.
#[derive(Clone, Debug, PartialEq, Eq)]
pub enum EndpointError {
    /// The resource needs authentication and the client holds no key.
    NotAuthenticated,
    /// The service answered with a failure status.
    ApiError(ApiError),
    /// The transport failed before a response arrived.
    TransportError(String),
    /// The body did not have the expected shape.
    DecodeError(String),
    /// `ids=all` was asked of a resource that does not support it.
    UnsupportedEndpointQuery,
    /// A follower's broadcast closed without a value and the cache still
    /// missed on the re-check.
    ChannelClosed,
    /// A bulk response held an entity whose id no chunk asked for.
    UnexpectedEntry,
}

} // verus!
