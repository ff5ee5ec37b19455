//! The uniform success / failure envelopes returned to callers.

use vstd::prelude::*;

verus! {

/// A successful invocation: the platform request id and a body string.
#[derive(Debug)]
pub struct SuccessResponse {
    pub req_id: String,
    pub body: String,
}

/// A failed invocation: a human-readable explanation, no structured code.
#[derive(Debug)]
pub struct FailureResponse {
    pub body: String,
}

impl FailureResponse {
    /// The human-readable text of the failure, as shown to the caller.
    pub fn message(&self) -> (r: String)
        ensures
            r@ == self.body@,
    {
        self.body.clone()
    }
}

} // verus!
