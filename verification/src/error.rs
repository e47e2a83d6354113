use vstd::prelude::*;

verus! {

/// Everything that can end a run early: one variant per failure class.
#[derive(Debug, Clone, Copy, PartialEq, Eq, Structural)]
pub enum Error {
    /// The API rejected the key (HTTP 401).
    InvalidApiKey,
    /// The transport failed: no connectivity, DNS failure, connection refused.
    NoInternet,
    /// The request URL was malformed.
    BadUrl,
    /// The HTTP status itself could not be read.
    BadResponseCode,
    /// The response body was not valid text or not well-formed JSON.
    ParseFailure,
}

} // verus!
