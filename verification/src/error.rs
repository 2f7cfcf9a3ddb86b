//! The closed set of failures that the library reports to its callers.

use vstd::prelude::*;

verus! {

/// Everything that can go wrong between building a request and handing back a
/// table.
///
/// The taxonomy is deliberately flat: the kind itself tells the caller all the
/// library knows about whether a retry could help.
#[derive(Debug, Clone)]
#[non_exhaustive]
pub enum Error {
    /// The HTTP round trip itself failed (DNS, connect, timeout).
    Network(String),
    /// A 2xx response body could not be decoded into the expected envelope;
    /// `response_body` carries the raw text untruncated, for diagnosis.
    Parsing { details: String, source: String, response_body: String },
    /// The server answered with a non-2xx, non-429 status; `message` is the
    /// literal response body.
    ApiError { status_code: u16, message: String },
    /// A locally rejected input; never involves the network.
    InvalidInput(String),
    /// A record list could not be shaped into a table.
    DataFrame(String),
    /// The server rejected the credentials.
    Authentication(String),
    /// The server answered 429; `retry_after` is the advertised (or defaulted)
    /// wait in seconds.
    RateLimit { retry_after: u64 },
}

} // verus!
