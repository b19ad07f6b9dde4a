//! The error envelope the remote service's REST API returns.

use vstd::prelude::*;

verus! {

/// An error reported by the remote service inside an HTTP response body.
///
/// Responses are checked against this envelope before they are read as the
/// expected payload, so any recognised service error is surfaced as such.
#[derive(Debug, Clone, PartialEq)]
pub struct RevoltError {
    /// The service's error discriminator, e.g. a missing-permission tag.
    pub error_type: String,
}

impl RevoltError {
    pub fn new(error_type: String) -> (r: RevoltError)
        ensures
            r.error_type@ == error_type@,
    {
        RevoltError { error_type }
    }
}

} // verus!
