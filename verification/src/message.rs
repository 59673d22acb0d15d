use vstd::prelude::*;

use crate::body::BodyHandle;
use crate::frame::{ErrorCode, Headers};

verus! {

/// An inbound request as the handler contract sees it: metadata plus the
/// handle to a body that may still be in flight.
pub struct Request {
    pub method: String,
    pub target: String,
    pub headers: Headers,
    pub body: BodyHandle,
}

/// A response as a handler returns it: a status code, headers, and the
/// handle to a body that may still be being produced.
pub struct Response {
    pub status: u16,
    pub headers: Headers,
    pub body: BodyHandle,
}

/// The terminal result of one handler invocation.  Exactly one of the two is
/// produced per invocation; a handler that has begun streaming a response
/// body can no longer turn the exchange into a failure.
pub enum Outcome {
    Success(Response),
    Failure(ErrorCode),
}

} // verus!
