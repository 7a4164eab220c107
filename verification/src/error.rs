//! The closed set of failures a dispatched operation can produce.
//!
//! Every call produces exactly one of these outcomes; nothing in this crate
//! panics across its public contract.

use vstd::prelude::*;

use crate::http::models::PineconeErrorResponse;
use crate::http::Method;

verus! {

/// What the HTTP transport reported when a request could not be carried out,
/// or when a body could not be read or decoded. The transport's own error
/// value is opaque to this crate; the driver hands its rendered message in.
#[derive(Debug, Clone, PartialEq)]
pub struct ReqwestFailure {
    /// Rendered message of the underlying transport or decode error.
    pub message: String,
}

/// A set of errors that can occur in the Pinecone client.
///
/// Exactly one variant is produced per call:
/// - `ArgumentError` is raised before any request plan is produced;
/// - `ReqwestError` stands for a transport-level failure (the request never
///   yielded a response);
/// - `ReqwestResponseError` stands for a response whose body could not be
///   read or decoded, and carries the status code that came with it;
/// - `PineconeResponseError` stands for a response whose status differed
///   from the expected success code, with either the parsed structured error
///   body or the raw body text;
/// - `URLNotAvailable` is raised when a data-plane call needs a resolved
///   host but the cached index description carries none;
/// - `UnsupportedMethod` is a defensive error for a verb outside the
///   supported set, never reachable through the public operations.
#[derive(Debug, Clone, PartialEq)]
#[allow(inconsistent_fields)]
pub enum Error {
    /// An error for when an invalid argument is used / given.
    ArgumentError {
        /// Name of the argument.
        name: String,
        /// Found value or description of found value.
        found: String,
        /// Expected value or description of expected value.
        expected: String,
    },
    /// The transport failed before any response arrived.
    ReqwestError(ReqwestFailure),
    /// A response arrived but its body could not be read or decoded; carries
    /// the response's status code.
    ReqwestResponseError(u16, ReqwestFailure),
    /// The service replied with a non-success status: the status code, the
    /// structured error body when it parsed, and the raw body text when it
    /// did not.
    PineconeResponseError(u16, Option<PineconeErrorResponse>, Option<String>),
    /// An error that describes an incorrectly sized vector.
    VectorDimensionError {
        /// The dimension found.
        found: u32,
        /// The expected dimension.
        expected: u32,
        /// The vector id.
        id: String,
    },
    /// A data-plane call required a resolved host but the cached description
    /// holds none.
    URLNotAvailable,
    /// Internal defensive error for a verb outside the supported set.
    UnsupportedMethod {
        /// The unsupported method.
        method: Method,
    },
}

} // verus!
