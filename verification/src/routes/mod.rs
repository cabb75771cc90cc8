//! What the HTTP surface hands out and takes in, as plain values.

use vstd::prelude::*;

pub mod admin;
pub mod public;

verus! {

/// A refusal: the HTTP status and the message that go out as a JSON object with the fields
/// `status` and `error`.
#[derive(Debug)]
pub struct ErrorResponse {
    pub status: u32,
    pub error: String,
}

impl ErrorResponse {
    pub fn new(status: u32, error: &str) -> (r: Self)
        ensures
            r.status == status,
            r.error@ == error@,
    {
        Self { status, error: error.to_owned() }
    }
}

} // verus!
