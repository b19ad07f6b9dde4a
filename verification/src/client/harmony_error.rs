//! The error a single event's resolution can fail with.

use vstd::prelude::*;

use crate::http::client::HttpError;

verus! {

/// Why resolving an event's referenced entities was aborted: the
/// fetch-through network call failed. Such a failure is contained to the
/// one event that triggered it; the dispatch loop continues.
#[derive(Debug, Clone, PartialEq)]
pub enum HarmonyError {
    HttpError(HttpError),
}

} // verus!
