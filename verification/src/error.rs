//! Error values with no outside payload.

use vstd::prelude::*;

verus! {

/// A failure reported by the sunrise/sunset lookup, carrying the reason as
/// plain text.
#[derive(Debug)]
pub struct SunriseApiError(pub String);

/// An ownership violation over a shared resource, carrying the reason as
/// plain text.
#[derive(Debug)]
pub struct ResourceOwnershipError(pub String);

impl SunriseApiError {
    /// Wraps a reason.
    pub fn new(reason: String) -> (r: SunriseApiError)
        ensures
            r.0@ == reason@,
    {
        SunriseApiError(reason)
    }
}

impl ResourceOwnershipError {
    /// Wraps a reason.
    pub fn new(reason: String) -> (r: ResourceOwnershipError)
        ensures
            r.0@ == reason@,
    {
        ResourceOwnershipError(reason)
    }
}

} // verus!
