use vstd::prelude::*;

verus! {

/// Every way in which a client operation can fail.
#[derive(Debug)]
pub enum ChromaClientError {
    /// A header value supplied at construction is not a legal header value.
    ConfigurationError(String),
    /// The request URL could not be formed from the configured origin.
    UrlParseError(String),
    /// The readiness probe came back with a status outside the success class.
    PreflightError(String),
    /// The transport failed to deliver the request or to receive a reply.
    RequestError(String),
    /// The reply's body could not be read.
    ResponseError(String),
    /// The service answered with a status outside the success class.
    ResponseStatusError(u16, String),
    /// The reply's body does not have the expected shape.
    ResponseParseError(String),
}

} // verus!
