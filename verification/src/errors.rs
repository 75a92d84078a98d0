//! Hard errors of the enrichment core.
//!
//! Insufficient history is not an error: indicators report it as an absent
//! value (`None`) and enrichment continues.

use vstd::prelude::*;

verus! {

/// A hard failure that aborts the current symbol's enrichment.
#[derive(Clone, Copy, Debug, PartialEq, Eq, Structural)]
pub enum EnrichError {
    /// Invalid indicator parameters: a zero EMA period, an empty window, or
    /// a Bollinger window whose length differs from its period.
    Computation,
    /// A bar's timestamp is not a parseable RFC 3339 datetime.
    MalformedTimestamp,
}

impl EnrichError {
    /// A short text for logs and error messages.
    pub fn describe(&self) -> (r: &'static str)
        ensures
            self is Computation ==> r@ == "invalid indicator parameters"@,
            self is MalformedTimestamp ==> r@ == "malformed bar timestamp"@,
    {
        match self {
            EnrichError::Computation => "invalid indicator parameters",
            EnrichError::MalformedTimestamp => "malformed bar timestamp",
        }
    }
}

} // verus!
