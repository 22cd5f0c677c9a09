//! The ways in which a request can fail.

use vstd::prelude::*;

verus! {

/// Why a request produced no table. Each stage of the pipeline has its own
/// kind, so that a caller can tell a bad template from a bad query from a
/// value that has no portable form.
#[derive(Clone, Debug, PartialEq, Eq)]
pub enum OrbiterError {
    /// The template has no role header before its first line, or names a
    /// role that is not known.
    MalformedTemplate,
    /// The model could not be reached, refused, or answered without a message
    /// of the assistant. Holds the backend's own words, if any.
    UpstreamError(String),
    /// The database rejected the statement. Holds its diagnostic text.
    QueryExecutionError(String),
    /// A value of the result has a native kind with no normalized form.
    UnsupportedValueKind,
}

} // verus!
