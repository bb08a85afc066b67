//! The ways a run can fail.

use vstd::prelude::*;

verus! {

/// Why no texts were produced.
#[derive(Debug, PartialEq, Eq)]
pub enum ScrapeError {
    /// Exactly one of attribute name and attribute value was given; either
    /// both or neither must be provided.
    Validation,
    /// A response arrived, but its status code does not indicate success.
    HttpFailure(u16),
    /// The request could not be completed; the string describes why.
    TransportFailure(String),
}

} // verus!
