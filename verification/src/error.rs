//! The errors of this crate, and the decisions that produce them.
use vstd::prelude::*;

verus! {

/// Errors for `klipy` crate.
#[derive(Debug, Clone, PartialEq, Eq)]
pub enum Error {
    /// The underlying HTTP transport failed; holds the transport's own
    /// description of the failure.
    Http(String),
    /// The API responded with a non-success HTTP status.
    Status { status: u16, body: String },
    /// The request succeeded but the API reported `result: false`.
    Unsuccessful,
}

/// Alias for results returned by this crate.
pub type Result<T> = core::result::Result<T, Error>;

} // verus!
