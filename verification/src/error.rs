//! The closed set of errors a price query can fail with.

use vstd::prelude::*;

verus! {

/// Common error enum for this crate.
///
/// Every failure of a query is one of these two; nothing is retried or
/// silently downgraded, and partial results are never returned.
#[derive(Debug)]
pub enum AwattarError {
    /// The outbound network call failed, or the response body could not be
    /// read or decoded; carries a description of the underlying failure.
    Transport(String),
    /// The API responded with a structurally valid body holding a value this
    /// library does not know how to interpret; carries the offending value.
    UnsupportedResponse(String),
}

} // verus!
