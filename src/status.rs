//! Classes of HTTP status codes.

use vstd::prelude::*;

verus! {

/// What a response status means for a redirect chain.
#[derive(Debug, Clone, Copy, PartialEq, Eq, Structural)]
pub enum StatusClass {
    /// 2xx: the chain ends at this URL.
    Success,
    /// 3xx: the response points somewhere else.
    Redirection,
    /// Anything else: the server cannot be reached through this URL.
    Other,
}

/// The class of a status code, by its hundreds digit.
pub open spec fn class_of(status: u16) -> StatusClass {
    if 200 <= status && status < 300 {
        StatusClass::Success
    } else if 300 <= status && status < 400 {
        StatusClass::Redirection
    } else {
        StatusClass::Other
    }
}

/// Sorts a status code into success, redirection or anything else.
pub fn classify(status: u16) -> (r: StatusClass)
    ensures
        r == class_of(status),
{
    if 200 <= status && status < 300 {
        StatusClass::Success
    } else if 300 <= status && status < 400 {
        StatusClass::Redirection
    } else {
        StatusClass::Other
    }
}

} // verus!
