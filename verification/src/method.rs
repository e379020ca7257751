//! The closed set of HTTP methods a request can carry.

use vstd::prelude::*;

verus! {

/// One of the four HTTP verbs the primitive supports. A fresh request
/// defaults to `Get`.
#[derive(Debug, Clone, PartialEq, Eq, Copy, Structural)]
pub enum Method {
    Post,
    Put,
    Get,
    Delete,
}

/// The small integer code that stands for a method on the wire of the
/// sandboxed backend's start-request foreign call.
pub open spec fn spec_scheme_code(method: Method) -> i32 {
    match method {
        Method::Post => 0,
        Method::Put => 1,
        Method::Get => 2,
        Method::Delete => 3,
    }
}

/// Maps a method to the scheme code the sandboxed host expects:
/// `Post` 0, `Put` 1, `Get` 2, `Delete` 3.
pub fn scheme_code(method: Method) -> (code: i32)
    ensures
        code == spec_scheme_code(method),
{
    match method {
        Method::Post => 0,
        Method::Put => 1,
        Method::Get => 2,
        Method::Delete => 3,
    }
}

} // verus!
