//! The messages of the service: a request, a response, and the results that a
//! response holds.

use vstd::prelude::*;
use crate::kv::Attributes;

verus! {

/// A request: `data` is one index into the greetings, or several with commas
/// between them; `meta` says who sent it.
#[derive(Debug)]
pub struct TalkRequest {
    pub data: String,
    pub meta: String,
}

/// Whether a result holds an answer.
#[derive(Clone, Copy, Debug, PartialEq, Eq, Structural)]
pub enum ResultType {
    OK,
    FAIL,
}

/// One result: the time at which it was made, in milliseconds since 1970,
/// its kind, and its attributes under the keys `id`, `idx`, `data`, `meta`.
#[derive(Debug)]
pub struct TalkResult {
    pub id: i64,
    pub kind: ResultType,
    pub kv: Attributes,
}

/// A response: a status and the results in order.
#[derive(Debug)]
pub struct TalkResponse {
    pub status: i32,
    pub results: Vec<TalkResult>,
}

} // verus!
