//! Administration client core for a namespace-scoped database service.
//!
//! The library holds everything the client decides and computes: the URL and
//! body of the one HTTP request each command issues, the classification of
//! the response status, and the exact text the client prints in either output
//! format. The surrounding binary only parses arguments, sends the request,
//! and writes the prepared lines.

use vstd::prelude::*;

pub mod json;
pub mod model;
pub mod render;
pub mod request;
pub mod roundtrip;
pub mod text;

verus! {

/// A response status counts as success exactly when it lies in the 2xx range.
pub open spec fn spec_is_success_status(status: u16) -> bool {
    200 <= status < 300
}

/// Classifies an HTTP status code the way the client treats it: only a 2xx
/// status means the operation succeeded.
pub fn is_success_status(status: u16) -> (b: bool)
    ensures
        b == spec_is_success_status(status),
{
    200 <= status && status < 300
}

} // verus!
