//! Error kinds of the write-IR layer and of the connector dispatcher.

use vstd::prelude::*;

verus! {

/// A protocol method was invoked on a variant that does not implement it.
/// This is a planner programming error; callers are expected to treat it as fatal.
#[derive(Clone, Copy, Debug, PartialEq, Eq, Structural)]
pub enum DomainError {
    NotApplicable,
}

/// Errors surfaced by the connector dispatcher.
#[derive(Debug)]
pub enum CoreError {
    /// Unrecognized provider token, unparseable connection URL, or a
    /// datasource the connector refused.
    ConfigurationError(String),
    /// Propagated unchanged from an underlying connector factory.
    ConnectorError(String),
}

} // verus!
