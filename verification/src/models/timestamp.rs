//! A plain point-in-time value.
//!
//! The wire protocol carries timestamps as ISO 8601 strings; inside the
//! library a timestamp is just the number of milliseconds since the Unix
//! epoch, which is all the session logic ever carries around.

use vstd::prelude::*;

verus! {

/// Milliseconds since the Unix epoch, as reported by the remote service.
#[derive(Debug, Clone, Copy, PartialEq, Eq, Structural)]
pub struct Timestamp {
    pub unix_millis: i64,
}

impl Timestamp {
    pub fn new(unix_millis: i64) -> (r: Timestamp)
        ensures
            r.unix_millis == unix_millis,
    {
        Timestamp { unix_millis }
    }
}

} // verus!
