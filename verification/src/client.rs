//! The client that tries out the four shapes of a call: what it sends, what
//! it logs, and when it tries again.

use vstd::prelude::*;
use vstd::string::*;
use crate::error_mapper::Status;
use crate::landing::{ResultType, TalkRequest, TalkResponse, TalkResult};
use crate::log_formatter::{code_name, code_str};
use crate::server::{is_uuid_text, new_uuid};
use crate::text::{
    decimal, push_decimal, push_signed_decimal, push_str_chars, signed_decimal, string_of,
};
use crate::utils::{is_id_below, random_id};

verus! {

/// How often the client tries to connect and run.
pub const RETRY_ATTEMPTS: u32 = 3;

/// The pause before the client tries again, in seconds.
pub const RETRY_DELAY_SECONDS: u64 = 2;

/// How often the client goes through the four shapes.
pub const ITERATION_COUNT: u32 = 3;

/// The pause between two rounds, in milliseconds.
pub const REQUEST_DELAY_MS: u64 = 200;

/// The pause between two requests of a stream, in milliseconds.
pub const SEND_DELAY_MS: u64 = 2;

/// The time that a call may take, in seconds.
pub const REQUEST_TIMEOUT_SECONDS: u64 = 5;

/// The number of requests that a stream of both directions sends.
pub const DEFAULT_BATCH_SIZE: usize = 5;

/// How one attempt to connect and run ended.
#[derive(Clone, Copy, Debug, PartialEq, Eq, Structural)]
pub enum RunOutcome {
    /// All calls were made.
    Completed,
    /// The run ended without failure before all calls were made.
    Incomplete,
    /// The attempt failed.
    Failed,
}

/// What follows an attempt to connect and run.
#[derive(Clone, Copy, Debug, PartialEq, Eq, Structural)]
pub enum NextAttempt {
    /// Nothing: the client is done.
    Stop,
    /// The next attempt at once.
    Now,
    /// The next attempt after so many seconds.
    After(u64),
}

/// What follows attempt number `attempt`, counted from 1, that ended in
/// `outcome`: a run that completed ends the client, as does the last attempt;
/// a failure before the last attempt is followed by a pause.
pub open spec fn next_attempt(attempt: u32, outcome: RunOutcome) -> NextAttempt {
    if outcome == RunOutcome::Completed || attempt >= 3 {
        NextAttempt::Stop
    } else if outcome == RunOutcome::Failed {
        NextAttempt::After(2)
    } else {
        NextAttempt::Now
    }
}

/// What follows attempt number `attempt` that ended in `outcome`.
pub fn after_attempt(attempt: u32, outcome: RunOutcome) -> (next: NextAttempt)
    ensures
        next == next_attempt(attempt, outcome),
{
    match outcome {
        RunOutcome::Completed => NextAttempt::Stop,
        RunOutcome::Incomplete => if attempt >= RETRY_ATTEMPTS {
            NextAttempt::Stop
        } else {
            NextAttempt::Now
        },
        RunOutcome::Failed => if attempt >= RETRY_ATTEMPTS {
            NextAttempt::Stop
        } else {
            NextAttempt::After(RETRY_DELAY_SECONDS)
        },
    }
}

/// The pause after round number `iteration` of `iterations`, counted from 1:
/// `delay_ms` milliseconds after each round but the last.
pub fn pause_after_iteration(iteration: u32, iterations: u32, delay_ms: u64) -> (pause: Option<u64>)
    ensures
        pause == if iteration < iterations {
            Some(delay_ms)
        } else {
            None
        },
{
    if iteration < iterations {
        Some(delay_ms)
    } else {
        None
    }
}

/// A fresh id for a request: `prefix`, a `-`, and a random identifier.
pub fn request_id(prefix: &str) -> (id: String)
    ensures
        exists|uuid: Seq<char>| is_uuid_text(uuid) && id@ == prefix@ + "-"@ + uuid,
{
    let uuid = new_uuid();
    let mut chars: Vec<char> = Vec::new();
    push_str_chars(&mut chars, prefix);
    push_str_chars(&mut chars, "-");
    push_str_chars(&mut chars, uuid.as_str());
    assert(chars@ =~= prefix@ + "-"@ + uuid@);
    string_of(&chars)
}

/// The request of the call with one request and one response.
pub fn unary_request() -> (request: TalkRequest)
    ensures
        request.data@ == "0"@,
        request.meta@ == "RUST"@,
{
    TalkRequest { data: String::from_str("0"), meta: String::from_str("RUST") }
}

/// The request of the call with one request and many responses.
pub fn server_streaming_request() -> (request: TalkRequest)
    ensures
        request.data@ == "0,1,2"@,
        request.meta@ == "RUST"@,
{
    TalkRequest { data: String::from_str("0,1,2"), meta: String::from_str("RUST") }
}

/// One request of the stream of both directions: a random greeting of the
/// first five.
pub fn bidirectional_request() -> (request: TalkRequest)
    ensures
        is_id_below(request.data@, 5),
        request.meta@ == "RUST"@,
{
    TalkRequest { data: random_id(5), meta: String::from_str("RUST") }
}

/// The number under which a kind of result is written.
pub open spec fn kind_number(kind: ResultType) -> nat {
    match kind {
        ResultType::OK => 0,
        ResultType::FAIL => 1,
    }
}

/// The value of `kv` under `key`, or nothing where there is none.
pub open spec fn value_or_empty(kv: Map<Seq<char>, Seq<char>>, key: Seq<char>) -> Seq<char> {
    if kv.contains_key(key) {
        kv[key]
    } else {
        Seq::<char>::empty()
    }
}

/// The first line that reports a response.
pub open spec fn response_line(response: TalkResponse) -> Seq<char> {
    "Response status: "@ + signed_decimal(response.status as int) + ", results: "@ + decimal(
        response.results@.len(),
    )
}

/// The line that reports the result number `number`, counted from 1.
pub open spec fn result_line(number: nat, result: TalkResult) -> Seq<char> {
    "  Result #"@ + decimal(number) + ": id="@ + signed_decimal(result.id as int) + ", type="@
        + decimal(kind_number(result.kind)) + ", meta="@ + value_or_empty(result.kv@, "meta"@)
        + ", id="@ + value_or_empty(result.kv@, "id"@) + ", idx="@ + value_or_empty(
        result.kv@,
        "idx"@,
    ) + ", data="@ + value_or_empty(result.kv@, "data"@)
}

fn push_value(chars: &mut Vec<char>, result: &TalkResult, key: &str)
    ensures
        final(chars)@ == old(chars)@ + value_or_empty(result.kv@, key@),
{
    match result.kv.get(key) {
        Some(v) => {
            push_str_chars(chars, v.as_str());
        },
        None => {
            assert(chars@ =~= old(chars)@ + Seq::<char>::empty());
        },
    }
}

fn result_text(index: usize, result: &TalkResult) -> (line: String)
    requires
        index < usize::MAX,
    ensures
        line@ == result_line((index + 1) as nat, *result),
{
    let mut chars: Vec<char> = Vec::new();
    push_str_chars(&mut chars, "  Result #");
    push_decimal(&mut chars, (index + 1) as u64);
    push_str_chars(&mut chars, ": id=");
    push_signed_decimal(&mut chars, result.id);
    push_str_chars(&mut chars, ", type=");
    match result.kind {
        ResultType::OK => push_decimal(&mut chars, 0),
        ResultType::FAIL => push_decimal(&mut chars, 1),
    }
    push_str_chars(&mut chars, ", meta=");
    push_value(&mut chars, result, "meta");
    push_str_chars(&mut chars, ", id=");
    push_value(&mut chars, result, "id");
    push_str_chars(&mut chars, ", idx=");
    push_value(&mut chars, result, "idx");
    push_str_chars(&mut chars, ", data=");
    push_value(&mut chars, result, "data");
    assert(chars@ =~= result_line((index + 1) as nat, *result));
    string_of(&chars)
}

/// The lines that report a response: one for the response, then one for each
/// result.
pub fn log_response(response: &TalkResponse) -> (lines: Vec<String>)
    ensures
        lines@.len() == response.results@.len() + 1,
        lines@[0]@ == response_line(*response),
        forall|i: int|
            0 <= i < response.results@.len() ==> (#[trigger] lines@[i + 1])@ == result_line(
                (i + 1) as nat,
                response.results@[i],
            ),
{
    let mut lines: Vec<String> = Vec::new();
    let mut head: Vec<char> = Vec::new();
    push_str_chars(&mut head, "Response status: ");
    push_signed_decimal(&mut head, response.status as i64);
    push_str_chars(&mut head, ", results: ");
    push_decimal(&mut head, response.results.len() as u64);
    assert(head@ =~= response_line(*response));
    lines.push(string_of(&head));
    let mut i: usize = 0;
    while i < response.results.len()
        invariant
            i <= response.results.len(),
            lines@.len() == i + 1,
            lines@[0]@ == response_line(*response),
            forall|k: int|
                0 <= k < i ==> (#[trigger] lines@[k + 1])@ == result_line(
                    (k + 1) as nat,
                    response.results@[k],
                ),
        decreases response.results.len() - i,
    {
        let line = result_text(i, &response.results[i]);
        lines.push(line);
        i += 1;
    }
    lines
}

/// The line that reports a failed request.
pub fn log_error(status: &Status, request_id: &str, method: &str) -> (line: String)
    ensures
        line@ == "Request failed - request_id: "@ + request_id@ + ", method: "@ + method@
            + ", error_code: "@ + code_name(status.spec_code()) + ", message: "@
            + status.spec_message(),
{
    let mut chars: Vec<char> = Vec::new();
    push_str_chars(&mut chars, "Request failed - request_id: ");
    push_str_chars(&mut chars, request_id);
    push_str_chars(&mut chars, ", method: ");
    push_str_chars(&mut chars, method);
    push_str_chars(&mut chars, ", error_code: ");
    push_str_chars(&mut chars, code_str(status.code()));
    push_str_chars(&mut chars, ", message: ");
    push_str_chars(&mut chars, status.message());
    assert(chars@ =~= "Request failed - request_id: "@ + request_id@ + ", method: "@ + method@
        + ", error_code: "@ + code_name(status.spec_code()) + ", message: "@
        + status.spec_message());
    string_of(&chars)
}

} // verus!
