//! The bodies that replace those of error responses.
use vstd::prelude::*;

verus! {

/// The body of a response with status 500.
pub fn error_500() -> (body: &'static str)
    ensures
        body@ == "An error occurred."@,
{
    "An error occurred."
}

/// The body of a response with status 429, when a client sends too many
/// requests.
pub fn error_429() -> (body: &'static str)
    ensures
        body@ == "Hold your horses! You are doing too many requests."@,
{
    "Hold your horses! You are doing too many requests."
}

} // verus!
