//! Status codes of a call, their descriptions, which of them are worth a
//! retry, and retrying under exponential backoff.

use vstd::prelude::*;
use vstd::string::*;
use crate::metrics::{bump_by, ServerMetrics};
use crate::text::{push_chars, push_str_chars, string_of};

verus! {

/// The status codes of a call.
#[derive(Clone, Copy, Debug, PartialEq, Eq, Structural)]
pub enum Code {
    OK,
    Cancelled,
    Unknown,
    InvalidArgument,
    DeadlineExceeded,
    NotFound,
    AlreadyExists,
    PermissionDenied,
    ResourceExhausted,
    FailedPrecondition,
    Aborted,
    OutOfRange,
    Unimplemented,
    Internal,
    Unavailable,
    DataLoss,
    Unauthenticated,
}

/// How a call ended: a code and a message, which may be empty.
#[derive(Debug)]
pub struct Status {
    code: Code,
    message: String,
}

impl Clone for Status {
    fn clone(&self) -> (out: Self)
        ensures
            out.spec_code() == self.spec_code(),
            out.spec_message() == self.spec_message(),
    {
        Status { code: self.code, message: self.message.clone() }
    }
}

impl Status {
    /// The code.
    pub closed spec fn spec_code(&self) -> Code {
        self.code
    }

    /// The message.
    pub closed spec fn spec_message(&self) -> Seq<char> {
        self.message@
    }

    /// A status with the given code and message.
    pub fn new(code: Code, message: &str) -> (out: Status)
        ensures
            out.spec_code() == code,
            out.spec_message() == message@,
    {
        Status { code, message: String::from_str(message) }
    }

    /// The operation completed.
    pub fn ok(message: &str) -> (out: Status)
        ensures
            out.spec_code() == Code::OK,
            out.spec_message() == message@,
    {
        Status::new(Code::OK, message)
    }

    /// The operation was cancelled.
    pub fn cancelled(message: &str) -> (out: Status)
        ensures
            out.spec_code() == Code::Cancelled,
            out.spec_message() == message@,
    {
        Status::new(Code::Cancelled, message)
    }

    /// Unknown error.
    pub fn unknown(message: &str) -> (out: Status)
        ensures
            out.spec_code() == Code::Unknown,
            out.spec_message() == message@,
    {
        Status::new(Code::Unknown, message)
    }

    /// The caller gave an invalid argument.
    pub fn invalid_argument(message: &str) -> (out: Status)
        ensures
            out.spec_code() == Code::InvalidArgument,
            out.spec_message() == message@,
    {
        Status::new(Code::InvalidArgument, message)
    }

    /// The deadline passed before the operation completed.
    pub fn deadline_exceeded(message: &str) -> (out: Status)
        ensures
            out.spec_code() == Code::DeadlineExceeded,
            out.spec_message() == message@,
    {
        Status::new(Code::DeadlineExceeded, message)
    }

    /// Something asked for was not found.
    pub fn not_found(message: &str) -> (out: Status)
        ensures
            out.spec_code() == Code::NotFound,
            out.spec_message() == message@,
    {
        Status::new(Code::NotFound, message)
    }

    /// The caller may not do this.
    pub fn permission_denied(message: &str) -> (out: Status)
        ensures
            out.spec_code() == Code::PermissionDenied,
            out.spec_message() == message@,
    {
        Status::new(Code::PermissionDenied, message)
    }

    /// A resource has run out.
    pub fn resource_exhausted(message: &str) -> (out: Status)
        ensures
            out.spec_code() == Code::ResourceExhausted,
            out.spec_message() == message@,
    {
        Status::new(Code::ResourceExhausted, message)
    }

    /// The operation was aborted.
    pub fn aborted(message: &str) -> (out: Status)
        ensures
            out.spec_code() == Code::Aborted,
            out.spec_message() == message@,
    {
        Status::new(Code::Aborted, message)
    }

    /// Internal error.
    pub fn internal(message: &str) -> (out: Status)
        ensures
            out.spec_code() == Code::Internal,
            out.spec_message() == message@,
    {
        Status::new(Code::Internal, message)
    }

    /// The service cannot be reached now.
    pub fn unavailable(message: &str) -> (out: Status)
        ensures
            out.spec_code() == Code::Unavailable,
            out.spec_message() == message@,
    {
        Status::new(Code::Unavailable, message)
    }

    /// The code.
    pub fn code(&self) -> (code: Code)
        ensures
            code == self.spec_code(),
    {
        self.code
    }

    /// The message.
    pub fn message(&self) -> (message: &str)
        ensures
            message@ == self.spec_message(),
    {
        self.message.as_str()
    }
}

/// A few words for each status code.
pub open spec fn description_of(code: Code) -> Seq<char> {
    match code {
        Code::OK => "Success"@,
        Code::Cancelled => "Operation cancelled"@,
        Code::Unknown => "Unknown error"@,
        Code::InvalidArgument => "Invalid request parameters"@,
        Code::DeadlineExceeded => "Request timeout"@,
        Code::NotFound => "Resource not found"@,
        Code::AlreadyExists => "Resource already exists"@,
        Code::PermissionDenied => "Permission denied"@,
        Code::ResourceExhausted => "Resource exhausted"@,
        Code::FailedPrecondition => "Precondition failed"@,
        Code::Aborted => "Operation aborted"@,
        Code::OutOfRange => "Out of range"@,
        Code::Unimplemented => "Not implemented"@,
        Code::Internal => "Internal server error"@,
        Code::Unavailable => "Service unavailable"@,
        Code::DataLoss => "Data loss"@,
        Code::Unauthenticated => "Authentication required"@,
    }
}

/// A few words for `code`.
pub fn get_status_description(code: Code) -> (text: &'static str)
    ensures
        text@ == description_of(code),
{
    match code {
        Code::OK => "Success",
        Code::Cancelled => "Operation cancelled",
        Code::Unknown => "Unknown error",
        Code::InvalidArgument => "Invalid request parameters",
        Code::DeadlineExceeded => "Request timeout",
        Code::NotFound => "Resource not found",
        Code::AlreadyExists => "Resource already exists",
        Code::PermissionDenied => "Permission denied",
        Code::ResourceExhausted => "Resource exhausted",
        Code::FailedPrecondition => "Precondition failed",
        Code::Aborted => "Operation aborted",
        Code::OutOfRange => "Out of range",
        Code::Unimplemented => "Not implemented",
        Code::Internal => "Internal server error",
        Code::Unavailable => "Service unavailable",
        Code::DataLoss => "Data loss",
        Code::Unauthenticated => "Authentication required",
    }
}

/// What `map_grpc_error` writes for a code and a message: the description of
/// the code, then `: ` and the message where there is one.
pub open spec fn error_text(code: Code, message: Seq<char>) -> Seq<char> {
    if message.len() > 0 {
        description_of(code) + ": "@ + message
    } else {
        description_of(code)
    }
}

/// A readable line for `status`.
pub fn map_grpc_error(status: &Status) -> (text: String)
    ensures
        text@ == error_text(status.spec_code(), status.spec_message()),
{
    let mut chars: Vec<char> = Vec::new();
    push_str_chars(&mut chars, get_status_description(status.code()));
    let message = status.message();
    if !message.is_empty() {
        push_str_chars(&mut chars, ": ");
        push_str_chars(&mut chars, message);
    }
    assert(chars@ =~= error_text(status.spec_code(), status.spec_message()));
    string_of(&chars)
}

/// Whether a failure with `code` may pass on its own, so that the same call is
/// worth another attempt.
pub open spec fn is_retryable_code(code: Code) -> bool {
    code == Code::Unavailable || code == Code::DeadlineExceeded || code == Code::ResourceExhausted
        || code == Code::Internal
}

/// Whether `status` is worth another attempt.
pub fn is_retryable_error(status: &Status) -> (r: bool)
    ensures
        r == is_retryable_code(status.spec_code()),
{
    match status.code() {
        Code::Unavailable | Code::DeadlineExceeded | Code::ResourceExhausted | Code::Internal => true,
        _ => false,
    }
}

/// The entries of `context` as `key=value`, with `, ` between them.
pub open spec fn joined_context(context: Seq<(&str, &str)>) -> Seq<char>
    decreases context.len(),
{
    if context.len() == 0 {
        Seq::<char>::empty()
    } else if context.len() == 1 {
        context[0].0@ + "="@ + context[0].1@
    } else {
        joined_context(context.drop_last()) + ", "@ + context.last().0@ + "="@ + context.last().1@
    }
}

/// The line that reports a failed call.
pub open spec fn error_report(
    code: Code,
    message: Seq<char>,
    operation: Seq<char>,
    context: Seq<(&str, &str)>,
) -> Seq<char> {
    let head = if is_retryable_code(code) {
        "Retryable error occurred: operation="@
    } else {
        "Non-retryable error occurred: operation="@
    };
    let tail = if context.len() == 0 {
        Seq::<char>::empty()
    } else {
        ", "@ + joined_context(context)
    };
    head + operation + ", error="@ + error_text(code, message) + tail
}

/// A report on a failed call, for the log.
pub struct ErrorReport {
    /// Whether the failure is worth another attempt: such a report is a
    /// warning, any other an error.
    pub retryable: bool,
    /// The line to log.
    pub line: String,
}

/// Describes the failure `status` of `operation`, with `context` as
/// `key=value` pairs.
pub fn handle_rpc_error(status: &Status, operation: &str, context: &[(&str, &str)]) -> (report:
    ErrorReport)
    ensures
        report.retryable == is_retryable_code(status.spec_code()),
        report.line@ == error_report(
            status.spec_code(),
            status.spec_message(),
            operation@,
            context@,
        ),
{
    let error_msg = map_grpc_error(status);
    let mut joined: Vec<char> = Vec::new();
    let mut i: usize = 0;
    while i < context.len()
        invariant
            i <= context.len(),
            joined@ == joined_context(context@.take(i as int)),
        decreases context.len() - i,
    {
        let ghost before = joined@;
        if i > 0 {
            push_str_chars(&mut joined, ", ");
        }
        push_str_chars(&mut joined, context[i].0);
        push_str_chars(&mut joined, "=");
        push_str_chars(&mut joined, context[i].1);
        proof {
            let next = context@.take(i + 1);
            assert(next.drop_last() =~= context@.take(i as int));
            assert(next.last() == context@[i as int]);
            assert(next[0] == context@[0]);
            assert(joined@ =~= joined_context(next));
        }
        i += 1;
    }
    assert(context@.take(i as int) =~= context@);
    let retryable = is_retryable_error(status);
    let mut line: Vec<char> = Vec::new();
    if retryable {
        push_str_chars(&mut line, "Retryable error occurred: operation=");
    } else {
        push_str_chars(&mut line, "Non-retryable error occurred: operation=");
    }
    push_str_chars(&mut line, operation);
    push_str_chars(&mut line, ", error=");
    push_str_chars(&mut line, error_msg.as_str());
    if context.len() > 0 {
        push_str_chars(&mut line, ", ");
        push_chars(&mut line, &joined);
    }
    assert(line@ =~= error_report(
        status.spec_code(),
        status.spec_message(),
        operation@,
        context@,
    ));
    ErrorReport { retryable, line: string_of(&line) }
}

// ---------------------------------------------------------------------------
// Retrying

/// How often and how patiently a failing call is tried again.
#[derive(Clone, Copy, Debug)]
pub struct RetryConfig {
    /// The number of attempts that may follow the first one.
    pub max_retries: u32,
    /// The pause before the second attempt, in milliseconds.
    pub initial_delay_ms: u64,
    /// The longest pause that follows a shorter one, in milliseconds.
    pub max_delay_ms: u64,
    /// The factor by which the pause grows from one attempt to the next, in
    /// thousandths: 2000 doubles it.
    pub multiplier_permille: u64,
}

impl RetryConfig {
    /// Three retries, pauses from two seconds up to thirty, doubling.
    pub fn default() -> (out: Self)
        ensures
            out.max_retries == 3,
            out.initial_delay_ms == 2000,
            out.max_delay_ms == 30000,
            out.multiplier_permille == 2000,
    {
        RetryConfig {
            max_retries: 3,
            initial_delay_ms: 2000,
            max_delay_ms: 30000,
            multiplier_permille: 2000,
        }
    }

    /// The number of attempts at most: the first one and the retries.
    pub open spec fn max_attempts(&self) -> nat {
        self.max_retries as nat + 1
    }

    /// The pause that follows a pause of `delay_ms`: that pause times the
    /// multiplier, rounded down, and `max_delay_ms` where that is shorter.
    pub open spec fn next_delay(&self, delay_ms: u64) -> u64 {
        let scaled = (delay_ms as nat * self.multiplier_permille as nat) / 1000;
        if scaled > self.max_delay_ms {
            self.max_delay_ms
        } else {
            scaled as u64
        }
    }

    /// The pause that follows a pause of `delay_ms`.
    pub fn delay_after(&self, delay_ms: u64) -> (next: u64)
        ensures
            next == self.next_delay(delay_ms),
    {
        assert(delay_ms as nat * self.multiplier_permille as nat <= u128::MAX) by (nonlinear_arith)
            requires
                delay_ms <= u64::MAX,
                self.multiplier_permille <= u64::MAX,
        ;
        let product: u128 = (delay_ms as u128) * (self.multiplier_permille as u128);
        let scaled: u128 = product / 1000;
        if scaled > self.max_delay_ms as u128 {
            self.max_delay_ms
        } else {
            scaled as u64
        }
    }
}

/// How one attempt ended.
#[derive(Clone, Copy, Debug, PartialEq, Eq, Structural)]
pub enum AttemptOutcome {
    /// The operation succeeded.
    Success,
    /// It failed in a way that is worth another attempt.
    Retryable,
    /// It failed for good.
    Terminal,
}

/// How an attempt that ended in `result` counts: as a success, or by its
/// code as a failure worth a retry or a failure for good.
pub fn attempt_outcome<T>(result: &Result<T, Status>) -> (outcome: AttemptOutcome)
    ensures
        outcome == match result {
            Ok(_) => AttemptOutcome::Success,
            Err(status) => if is_retryable_code(status.spec_code()) {
                AttemptOutcome::Retryable
            } else {
                AttemptOutcome::Terminal
            },
        },
{
    match result {
        Ok(_) => AttemptOutcome::Success,
        Err(status) => if is_retryable_error(status) {
            AttemptOutcome::Retryable
        } else {
            AttemptOutcome::Terminal
        },
    }
}

/// What follows an attempt.
#[derive(Clone, Copy, Debug, PartialEq, Eq, Structural)]
pub enum RetryDecision {
    /// Hand the result to the caller.
    Succeed,
    /// Hand the failure to the caller as it is.
    Fail,
    /// Give up: the last attempt allowed has failed too.
    GiveUp,
    /// Pause for so many milliseconds, then try again.
    RetryAfter(u64),
}

/// What follows attempt number `attempts + 1` that ended in `outcome`, when
/// the next pause is `delay_ms`.
pub open spec fn decide(
    config: RetryConfig,
    attempts: nat,
    delay_ms: u64,
    outcome: AttemptOutcome,
) -> RetryDecision {
    match outcome {
        AttemptOutcome::Success => RetryDecision::Succeed,
        AttemptOutcome::Terminal => RetryDecision::Fail,
        AttemptOutcome::Retryable => if attempts + 1 >= config.max_attempts() {
            RetryDecision::GiveUp
        } else {
            RetryDecision::RetryAfter(delay_ms)
        },
    }
}

/// The number of errors that an attempt with this outcome adds to the count.
pub open spec fn errors_of(outcome: AttemptOutcome) -> nat {
    if outcome == AttemptOutcome::Success {
        0
    } else {
        1
    }
}

/// One operation under retry: the attempts that were made, and the pause
/// before the next one.
#[derive(Debug)]
pub struct RetrySession {
    config: RetryConfig,
    attempts: u32,
    delay_ms: u64,
}

/// What follows an attempt, with the session to go on with where another
/// attempt is due.
#[derive(Debug)]
pub enum RetryStep {
    /// The operation succeeded at attempt number `attempts`.
    Succeeded { attempts: u64 },
    /// Attempt number `attempts` failed for good.
    Failed { attempts: u64 },
    /// All `attempts` attempts failed.
    Exhausted { attempts: u64 },
    /// Pause for `delay_ms` milliseconds, make the next attempt, and report it
    /// to `session`.
    RetryAfter { delay_ms: u64, session: RetrySession },
}

impl RetryStep {
    /// The decision that this step carries.
    pub open spec fn decision(&self) -> RetryDecision {
        match self {
            RetryStep::Succeeded { .. } => RetryDecision::Succeed,
            RetryStep::Failed { .. } => RetryDecision::Fail,
            RetryStep::Exhausted { .. } => RetryDecision::GiveUp,
            RetryStep::RetryAfter { delay_ms, .. } => RetryDecision::RetryAfter(*delay_ms),
        }
    }
}

impl RetrySession {
    #[verifier::type_invariant]
    spec fn well_formed(&self) -> bool {
        self.attempts <= self.config.max_retries
    }

    /// The configuration.
    pub closed spec fn config(&self) -> RetryConfig {
        self.config
    }

    /// The number of attempts that were reported.
    pub closed spec fn attempts(&self) -> nat {
        self.attempts as nat
    }

    /// The pause before the next retry, in milliseconds.
    pub closed spec fn delay_ms(&self) -> u64 {
        self.delay_ms
    }

    /// A session in which no attempt was made yet.
    pub fn new(config: RetryConfig) -> (out: Self)
        ensures
            out.config() == config,
            out.attempts() == 0,
            out.delay_ms() == config.initial_delay_ms,
    {
        RetrySession { config, attempts: 0, delay_ms: config.initial_delay_ms }
    }

    /// Takes the outcome of the attempt that was just made, counts a failure
    /// in `metrics`, and says what follows.
    pub fn step(self, outcome: AttemptOutcome, metrics: &mut ServerMetrics) -> (next: RetryStep)
        ensures
            next.decision() == decide(self.config(), self.attempts(), self.delay_ms(), outcome),
            match next {
                RetryStep::Succeeded { attempts } => attempts == self.attempts() + 1,
                RetryStep::Failed { attempts } => attempts == self.attempts() + 1,
                RetryStep::Exhausted { attempts } => attempts == self.attempts() + 1,
                RetryStep::RetryAfter { delay_ms, session } => {
                    &&& session.config() == self.config()
                    &&& session.attempts() == self.attempts() + 1
                    &&& session.delay_ms() == self.config().next_delay(self.delay_ms())
                },
            },
            final(metrics).errors() == bump_by(old(metrics).errors(), errors_of(outcome)),
            final(metrics).requests() == old(metrics).requests(),
            final(metrics).last_request() == old(metrics).last_request(),
    {
        proof {
            use_type_invariant(&self);
        }
        let made: u64 = self.attempts as u64 + 1;
        match outcome {
            AttemptOutcome::Success => RetryStep::Succeeded { attempts: made },
            AttemptOutcome::Terminal => {
                metrics.record_error();
                RetryStep::Failed { attempts: made }
            },
            AttemptOutcome::Retryable => {
                metrics.record_error();
                if self.attempts >= self.config.max_retries {
                    RetryStep::Exhausted { attempts: made }
                } else {
                    RetryStep::RetryAfter {
                        delay_ms: self.delay_ms,
                        session: RetrySession {
                            config: self.config,
                            attempts: self.attempts + 1,
                            delay_ms: self.config.delay_after(self.delay_ms),
                        },
                    }
                }
            },
        }
    }
}

/// How a run of attempts ended.
#[derive(PartialEq, Eq, Structural)]
pub enum RunEnd {
    /// An attempt succeeded.
    Succeeded,
    /// An attempt failed for good.
    Failed,
    /// The last attempt allowed failed.
    Exhausted,
    /// The outcomes end before the run does: another attempt is due.
    Unfinished,
}

/// A run of attempts: how it ended, the attempts made, the errors counted, and
/// the pauses between the attempts.
pub struct RetryRun {
    pub end: RunEnd,
    pub attempts: nat,
    pub errors: nat,
    pub pauses: Seq<u64>,
}

/// The run that the outcomes give, one attempt for each as long as another
/// attempt is due, when `attempts` attempts were made before and the next pause
/// is `delay_ms`.
pub open spec fn run_from(
    config: RetryConfig,
    attempts: nat,
    delay_ms: u64,
    outcomes: Seq<AttemptOutcome>,
) -> RetryRun
    decreases outcomes.len(),
{
    if outcomes.len() == 0 {
        RetryRun { end: RunEnd::Unfinished, attempts, errors: 0, pauses: Seq::empty() }
    } else {
        match decide(config, attempts, delay_ms, outcomes[0]) {
            RetryDecision::Succeed => RetryRun {
                end: RunEnd::Succeeded,
                attempts: attempts + 1,
                errors: 0,
                pauses: Seq::empty(),
            },
            RetryDecision::Fail => RetryRun {
                end: RunEnd::Failed,
                attempts: attempts + 1,
                errors: 1,
                pauses: Seq::empty(),
            },
            RetryDecision::GiveUp => RetryRun {
                end: RunEnd::Exhausted,
                attempts: attempts + 1,
                errors: 1,
                pauses: Seq::empty(),
            },
            RetryDecision::RetryAfter(pause) => {
                let rest = run_from(
                    config,
                    attempts + 1,
                    config.next_delay(delay_ms),
                    outcomes.drop_first(),
                );
                RetryRun {
                    end: rest.end,
                    attempts: rest.attempts,
                    errors: rest.errors + 1,
                    pauses: seq![pause] + rest.pauses,
                }
            },
        }
    }
}

/// The run that the outcomes give from the first attempt on.
pub open spec fn run(config: RetryConfig, outcomes: Seq<AttemptOutcome>) -> RetryRun {
    run_from(config, 0, config.initial_delay_ms, outcomes)
}

/// `failures` retryable failures, then a success.
pub open spec fn failures_then_success(failures: nat) -> Seq<AttemptOutcome> {
    Seq::new(failures, |i: int| AttemptOutcome::Retryable).push(AttemptOutcome::Success)
}

proof fn lemma_run_failures_then_success(
    config: RetryConfig,
    attempts: nat,
    delay_ms: u64,
    failures: nat,
)
    requires
        attempts + failures + 1 <= config.max_attempts(),
    ensures
        run_from(config, attempts, delay_ms, failures_then_success(failures)).end
            == RunEnd::Succeeded,
        run_from(config, attempts, delay_ms, failures_then_success(failures)).attempts == attempts
            + failures + 1,
        run_from(config, attempts, delay_ms, failures_then_success(failures)).errors == failures,
        run_from(config, attempts, delay_ms, failures_then_success(failures)).pauses.len()
            == failures,
    decreases failures,
{
    let outcomes = failures_then_success(failures);
    if failures == 0 {
        assert(outcomes[0] == AttemptOutcome::Success);
    } else {
        assert(outcomes[0] == AttemptOutcome::Retryable);
        assert(outcomes.drop_first() =~= failures_then_success((failures - 1) as nat));
        lemma_run_failures_then_success(
            config,
            attempts + 1,
            config.next_delay(delay_ms),
            (failures - 1) as nat,
        );
    }
}

/// An operation that fails `k - 1` times in a way worth a retry and then
/// succeeds is given its `k` attempts where the configuration allows that
/// many: the run succeeds at attempt `k`, after `k - 1` errors were counted
/// and `k - 1` pauses made.
pub proof fn lemma_retry_succeeds_at_attempt(config: RetryConfig, k: nat)
    requires
        1 <= k <= config.max_attempts(),
    ensures
        run(config, failures_then_success((k - 1) as nat)).end == RunEnd::Succeeded,
        run(config, failures_then_success((k - 1) as nat)).attempts == k,
        run(config, failures_then_success((k - 1) as nat)).errors == k - 1,
        run(config, failures_then_success((k - 1) as nat)).pauses.len() == k - 1,
{
    lemma_run_failures_then_success(config, 0, config.initial_delay_ms, (k - 1) as nat);
}

/// A failure for good at the first attempt ends the run there: one attempt,
/// no pause, whatever outcomes might have followed.
pub proof fn lemma_terminal_failure_ends_run(config: RetryConfig, outcomes: Seq<AttemptOutcome>)
    requires
        outcomes.len() > 0,
        outcomes[0] == AttemptOutcome::Terminal,
    ensures
        run(config, outcomes).end == RunEnd::Failed,
        run(config, outcomes).attempts == 1,
        run(config, outcomes).errors == 1,
        run(config, outcomes).pauses.len() == 0,
{
}

/// The pause number `i`, counted from 0, of a run whose first pause is
/// `delay_ms`: each pause is the one that follows the pause before it.
pub open spec fn nth_pause(config: RetryConfig, delay_ms: u64, i: nat) -> u64
    decreases i,
{
    if i == 0 {
        delay_ms
    } else {
        nth_pause(config, config.next_delay(delay_ms), (i - 1) as nat)
    }
}

/// The pauses of a run follow the schedule: the first is the pause that the
/// run starts with, and each other is the pause before it times the
/// multiplier, but no longer than the longest pause configured. There is one
/// pause fewer than attempts, or as many where another attempt is due.
pub proof fn lemma_run_pauses(
    config: RetryConfig,
    attempts: nat,
    delay_ms: u64,
    outcomes: Seq<AttemptOutcome>,
)
    ensures
        forall|i: int|
            0 <= i < run_from(config, attempts, delay_ms, outcomes).pauses.len() ==> (
            #[trigger] run_from(config, attempts, delay_ms, outcomes).pauses[i]) == nth_pause(
                config,
                delay_ms,
                i as nat,
            ),
        run_from(config, attempts, delay_ms, outcomes).attempts == attempts + run_from(
            config,
            attempts,
            delay_ms,
            outcomes,
        ).pauses.len() + if run_from(config, attempts, delay_ms, outcomes).end
            == RunEnd::Unfinished {
            0nat
        } else {
            1nat
        },
    decreases outcomes.len(),
{
    if outcomes.len() > 0 {
        match decide(config, attempts, delay_ms, outcomes[0]) {
            RetryDecision::RetryAfter(pause) => {
                let rest = run_from(
                    config,
                    attempts + 1,
                    config.next_delay(delay_ms),
                    outcomes.drop_first(),
                );
                lemma_run_pauses(
                    config,
                    attempts + 1,
                    config.next_delay(delay_ms),
                    outcomes.drop_first(),
                );
                let all = run_from(config, attempts, delay_ms, outcomes).pauses;
                assert(all == seq![pause] + rest.pauses);
                assert forall|i: int| 0 <= i < all.len() implies #[trigger] all[i] == nth_pause(
                    config,
                    delay_ms,
                    i as nat,
                ) by {
                    if i > 0 {
                        assert(all[i] == rest.pauses[i - 1]);
                    }
                }
            },
            _ => {},
        }
    }
}

/// The pause after pause number `i` is the one that follows it.
pub proof fn lemma_nth_pause_next(config: RetryConfig, delay_ms: u64, i: nat)
    ensures
        nth_pause(config, delay_ms, i + 1) == config.next_delay(nth_pause(config, delay_ms, i)),
    decreases i,
{
    if i > 0 {
        lemma_nth_pause_next(config, config.next_delay(delay_ms), (i - 1) as nat);
    } else {
        assert(nth_pause(config, config.next_delay(delay_ms), 0) == config.next_delay(delay_ms));
    }
}

/// No pause after the first is longer than the longest pause configured.
pub proof fn lemma_pause_is_capped(config: RetryConfig, delay_ms: u64, i: nat)
    requires
        i >= 1,
    ensures
        nth_pause(config, delay_ms, i) <= config.max_delay_ms,
    decreases i,
{
    if i > 1 {
        lemma_pause_is_capped(config, config.next_delay(delay_ms), (i - 1) as nat);
    } else {
        assert(nth_pause(config, config.next_delay(delay_ms), 0) == config.next_delay(delay_ms));
    }
}

/// Failures worth a retry, one for each attempt allowed, exhaust the run: it
/// makes every attempt, counts each as an error, and pauses between them.
pub proof fn lemma_run_exhausts(config: RetryConfig, attempts: nat, delay_ms: u64, n: nat)
    requires
        attempts + n == config.max_attempts(),
        n >= 1,
    ensures
        run_from(config, attempts, delay_ms, Seq::new(n, |i: int| AttemptOutcome::Retryable)).end
            == RunEnd::Exhausted,
        run_from(
            config,
            attempts,
            delay_ms,
            Seq::new(n, |i: int| AttemptOutcome::Retryable),
        ).attempts == config.max_attempts(),
        run_from(config, attempts, delay_ms, Seq::new(n, |i: int| AttemptOutcome::Retryable)).errors
            == n,
        run_from(
            config,
            attempts,
            delay_ms,
            Seq::new(n, |i: int| AttemptOutcome::Retryable),
        ).pauses.len() == n - 1,
    decreases n,
{
    let outcomes = Seq::new(n, |i: int| AttemptOutcome::Retryable);
    assert(outcomes[0] == AttemptOutcome::Retryable);
    if n > 1 {
        assert(outcomes.drop_first() =~= Seq::new(
            (n - 1) as nat,
            |i: int| AttemptOutcome::Retryable,
        ));
        lemma_run_exhausts(config, attempts + 1, config.next_delay(delay_ms), (n - 1) as nat);
    }
}

/// Why an operation under retry failed.
#[derive(Debug)]
pub enum RetryError<E> {
    /// An attempt failed for good: the failure as it came.
    Terminal(E),
    /// Every attempt failed: the last failure, and the number of attempts.
    Aborted { last: E, attempts: u64 },
}

/// Whether a call of an operation of type `F` can return `r`.
pub open spec fn returned_by<T, E, F: FnMut() -> Result<T, E>>(r: Result<T, E>) -> bool {
    exists|f: F| call_ensures(f, (), r)
}

/// A run that is not finished has paused after each outcome; one more
/// outcome counts as an attempt and ends the run or adds a pause, as `decide`
/// says of it.
pub proof fn lemma_run_push(
    config: RetryConfig,
    attempts: nat,
    delay_ms: u64,
    outcomes: Seq<AttemptOutcome>,
    next: AttemptOutcome,
)
    requires
        run_from(config, attempts, delay_ms, outcomes).end == RunEnd::Unfinished,
    ensures
        run_from(config, attempts, delay_ms, outcomes).attempts == attempts + outcomes.len(),
        run_from(config, attempts, delay_ms, outcomes).errors == outcomes.len(),
        run_from(config, attempts, delay_ms, outcomes.push(next)).attempts == attempts
            + outcomes.len() + 1,
        run_from(config, attempts, delay_ms, outcomes.push(next)).errors == outcomes.len()
            + errors_of(next),
        run_from(config, attempts, delay_ms, outcomes.push(next)).end == match decide(
            config,
            attempts + outcomes.len(),
            nth_pause(config, delay_ms, outcomes.len()),
            next,
        ) {
            RetryDecision::Succeed => RunEnd::Succeeded,
            RetryDecision::Fail => RunEnd::Failed,
            RetryDecision::GiveUp => RunEnd::Exhausted,
            RetryDecision::RetryAfter(_) => RunEnd::Unfinished,
        },
    decreases outcomes.len(),
{
    let longer = outcomes.push(next);
    if outcomes.len() == 0 {
        assert(longer[0] == next);
        assert(longer.drop_first() =~= Seq::<AttemptOutcome>::empty());
    } else {
        assert(longer[0] == outcomes[0]);
        assert(longer.drop_first() =~= outcomes.drop_first().push(next));
        lemma_run_push(
            config,
            attempts + 1,
            config.next_delay(delay_ms),
            outcomes.drop_first(),
            next,
        );
    }
}

/// Whether `r` is what a retried operation returns after the run `run`:
/// success after a run that succeeded, the failure after a run that failed
/// for good, and the abort with the number of attempts after a run that was
/// exhausted.
pub open spec fn ends_as<T, E>(r: Result<T, RetryError<E>>, run: RetryRun) -> bool {
    match r {
        Ok(_) => run.end == RunEnd::Succeeded,
        Err(RetryError::Terminal(_)) => run.end == RunEnd::Failed,
        Err(RetryError::Aborted { attempts, .. }) => run.end == RunEnd::Exhausted && attempts
            == run.attempts,
    }
}

/// Whether `r`, with `before` errors counted before and `after` errors
/// after, is what retrying under `config` gives for the outcomes `outcomes`
/// of its attempts.
pub open spec fn retried<T, E>(
    config: RetryConfig,
    outcomes: Seq<AttemptOutcome>,
    r: Result<T, RetryError<E>>,
    before: u64,
    after: u64,
) -> bool {
    ends_as(r, run(config, outcomes)) && after == bump_by(before, run(config, outcomes).errors)
}

/// Runs `func` until it succeeds, fails for good, or has failed once more than
/// `config.max_retries` times. `classify` says of a failure whether it is
/// worth a retry. Before each retry `pause` is called with the pause in
/// milliseconds. Each failed attempt is counted in `metrics`. What is
/// returned is the end of the run that the outcomes of the attempts give.
pub fn retry_with_backoff<T, E, F, C, P>(
    mut func: F,
    classify: C,
    mut pause: P,
    config: RetryConfig,
    metrics: &mut ServerMetrics,
) -> (r: Result<T, RetryError<E>>) where
    F: FnMut() -> Result<T, E>,
    C: Fn(&E) -> bool,
    P: FnMut(u64),

    requires
        forall|f: F| call_requires(f, ()),
        forall|e: &E| call_requires(classify, (e,)),
        forall|p: P, d: u64| call_requires(p, (d,)),
    ensures
        exists|outcomes: Seq<AttemptOutcome>| #[trigger]
            retried(config, outcomes, r, old(metrics).errors(), final(metrics).errors()),
        r matches Ok(v) ==> returned_by::<T, E, F>(Ok(v)),
        r matches Err(RetryError::Terminal(e)) ==> returned_by::<T, E, F>(Err(e))
            && call_ensures(classify, (&e,), false),
        r matches Err(RetryError::Aborted { last, attempts }) ==> {
            &&& returned_by::<T, E, F>(Err(last))
            &&& call_ensures(classify, (&last,), true)
            &&& attempts == config.max_attempts()
        },
        final(metrics).requests() == old(metrics).requests(),
        final(metrics).last_request() == old(metrics).last_request(),
{
    let mut session = RetrySession::new(config);
    let ghost mut seen: Seq<AttemptOutcome> = Seq::empty();
    loop
        invariant
            forall|f: F| call_requires(f, ()),
            forall|e: &E| call_requires(classify, (e,)),
            forall|p: P, d: u64| call_requires(p, (d,)),
            session.config() == config,
            session.attempts() == seen.len(),
            session.attempts() <= config.max_retries,
            session.delay_ms() == nth_pause(config, config.initial_delay_ms, seen.len()),
            run(config, seen).end == RunEnd::Unfinished,
            metrics.errors() == bump_by(old(metrics).errors(), seen.len()),
            metrics.requests() == old(metrics).requests(),
            metrics.last_request() == old(metrics).last_request(),
        decreases config.max_attempts() - session.attempts(),
    {
        let ghost attempted = func;
        let outcome = func();
        assert(returned_by::<T, E, F>(outcome)) by {
            assert(call_ensures(attempted, (), outcome));
        }
        match outcome {
            Ok(v) => {
                let _ = session.step(AttemptOutcome::Success, metrics);
                proof {
                    lemma_run_push(
                        config,
                        0,
                        config.initial_delay_ms,
                        seen,
                        AttemptOutcome::Success,
                    );
                    assert(retried(
                        config,
                        seen.push(AttemptOutcome::Success),
                        Ok::<T, RetryError<E>>(v),
                        old(metrics).errors(),
                        metrics.errors(),
                    ));
                }
                return Ok(v);
            },
            Err(e) => {
                if classify(&e) {
                    proof {
                        lemma_run_push(
                            config,
                            0,
                            config.initial_delay_ms,
                            seen,
                            AttemptOutcome::Retryable,
                        );
                    }
                    match session.step(AttemptOutcome::Retryable, metrics) {
                        RetryStep::RetryAfter { delay_ms, session: next } => {
                            pause(delay_ms);
                            session = next;
                            proof {
                                lemma_nth_pause_next(config, config.initial_delay_ms, seen.len());
                                seen = seen.push(AttemptOutcome::Retryable);
                            }
                        },
                        RetryStep::Exhausted { attempts }
                        | RetryStep::Succeeded { attempts }
                        | RetryStep::Failed { attempts } => {
                            let r = Err(RetryError::Aborted { last: e, attempts });
                            assert(retried(
                                config,
                                seen.push(AttemptOutcome::Retryable),
                                r,
                                old(metrics).errors(),
                                metrics.errors(),
                            ));
                            return r;
                        },
                    }
                } else {
                    let _ = session.step(AttemptOutcome::Terminal, metrics);
                    let r = Err(RetryError::Terminal(e));
                    proof {
                        lemma_run_push(
                            config,
                            0,
                            config.initial_delay_ms,
                            seen,
                            AttemptOutcome::Terminal,
                        );
                        assert(retried(
                            config,
                            seen.push(AttemptOutcome::Terminal),
                            r,
                            old(metrics).errors(),
                            metrics.errors(),
                        ));
                    }
                    return r;
                }
            },
        }
    }
}

} // verus!
