use hello_grpc_rust::server::connection_failure;
use hello_grpc_rust::error_mapper::{
    attempt_outcome, get_status_description, handle_rpc_error, is_retryable_error, map_grpc_error,
    retry_with_backoff, AttemptOutcome, Code, RetryConfig, RetryError, RetrySession, RetryStep,
    Status,
};
use hello_grpc_rust::metrics::ServerMetrics;

#[test]
fn test_map_grpc_error() {
    let status = Status::unavailable("service down");
    let msg = map_grpc_error(&status);
    assert!(msg.contains("Service unavailable"));
    assert!(msg.contains("service down"));
}

#[test]
fn test_is_retryable_error() {
    assert!(is_retryable_error(&Status::unavailable("")));
    assert!(is_retryable_error(&Status::deadline_exceeded("")));
    assert!(is_retryable_error(&Status::resource_exhausted("")));
    assert!(is_retryable_error(&Status::internal("")));
    assert!(!is_retryable_error(&Status::invalid_argument("")));
    assert!(!is_retryable_error(&Status::not_found("")));
}

fn all_codes() -> Vec<Code> {
    vec![
        Code::OK,
        Code::Cancelled,
        Code::Unknown,
        Code::InvalidArgument,
        Code::DeadlineExceeded,
        Code::NotFound,
        Code::AlreadyExists,
        Code::PermissionDenied,
        Code::ResourceExhausted,
        Code::FailedPrecondition,
        Code::Aborted,
        Code::OutOfRange,
        Code::Unimplemented,
        Code::Internal,
        Code::Unavailable,
        Code::DataLoss,
        Code::Unauthenticated,
    ]
}

#[test]
fn exactly_four_codes_are_retryable() {
    let mut retryable = Vec::new();
    for code in all_codes() {
        if is_retryable_error(&Status::new(code, "x")) {
            retryable.push(code);
        }
    }
    assert_eq!(
        retryable,
        vec![Code::DeadlineExceeded, Code::ResourceExhausted, Code::Internal, Code::Unavailable]
    );
}

#[test]
fn descriptions_of_the_codes() {
    let expected = vec![
        "Success",
        "Operation cancelled",
        "Unknown error",
        "Invalid request parameters",
        "Request timeout",
        "Resource not found",
        "Resource already exists",
        "Permission denied",
        "Resource exhausted",
        "Precondition failed",
        "Operation aborted",
        "Out of range",
        "Not implemented",
        "Internal server error",
        "Service unavailable",
        "Data loss",
        "Authentication required",
    ];
    for (code, text) in all_codes().into_iter().zip(expected) {
        assert_eq!(get_status_description(code), text);
    }
}

#[test]
fn error_text_with_and_without_message() {
    assert_eq!(map_grpc_error(&Status::unavailable("service down")), "Service unavailable: service down");
    assert_eq!(map_grpc_error(&Status::unavailable("")), "Service unavailable");
    assert_eq!(map_grpc_error(&Status::ok("fine")), "Success: fine");
    let copy = Status::aborted("stop").clone();
    assert_eq!(copy.code(), Code::Aborted);
    assert_eq!(copy.message(), "stop");
}

#[test]
fn rpc_error_report() {
    let context = [("peer", "10.0.0.1"), ("attempt", "2")];
    let report = handle_rpc_error(&Status::internal("boom"), "Talk", &context);
    assert!(report.retryable);
    assert_eq!(
        report.line,
        "Retryable error occurred: operation=Talk, error=Internal server error: boom, peer=10.0.0.1, attempt=2"
    );
    let report = handle_rpc_error(&Status::not_found(""), "Talk", &[]);
    assert!(!report.retryable);
    assert_eq!(report.line, "Non-retryable error occurred: operation=Talk, error=Resource not found");
    let report = handle_rpc_error(&Status::not_found("gone"), "Op", &[("k", "v")]);
    assert_eq!(
        report.line,
        "Non-retryable error occurred: operation=Op, error=Resource not found: gone, k=v"
    );
}

#[test]
fn outcomes_of_attempts() {
    let ok: Result<u8, Status> = Ok(1);
    assert_eq!(attempt_outcome(&ok), AttemptOutcome::Success);
    let busy: Result<u8, Status> = Err(Status::resource_exhausted("busy"));
    assert_eq!(attempt_outcome(&busy), AttemptOutcome::Retryable);
    let denied: Result<u8, Status> = Err(Status::permission_denied("no"));
    assert_eq!(attempt_outcome(&denied), AttemptOutcome::Terminal);
    let down: Result<u8, Status> = Err(connection_failure("refused"));
    assert_eq!(attempt_outcome(&down), AttemptOutcome::Retryable);
    assert_eq!(connection_failure("refused").message(), "refused");
}

#[test]
fn default_retry_config() {
    let config = RetryConfig::default();
    assert_eq!(config.max_retries, 3);
    assert_eq!(config.initial_delay_ms, 2000);
    assert_eq!(config.max_delay_ms, 30000);
    assert_eq!(config.multiplier_permille, 2000);
}

#[test]
fn delays_grow_and_are_capped() {
    let config = RetryConfig::default();
    assert_eq!(config.delay_after(2000), 4000);
    assert_eq!(config.delay_after(4000), 8000);
    assert_eq!(config.delay_after(16000), 30000);
    assert_eq!(config.delay_after(30000), 30000);
    let slow = RetryConfig {
        max_retries: 1,
        initial_delay_ms: 3,
        max_delay_ms: u64::MAX,
        multiplier_permille: 1500,
    };
    assert_eq!(slow.delay_after(3), 4);
    assert_eq!(slow.delay_after(u64::MAX), u64::MAX);
    let shrinking = RetryConfig {
        max_retries: 1,
        initial_delay_ms: 100,
        max_delay_ms: 1000,
        multiplier_permille: 0,
    };
    assert_eq!(shrinking.delay_after(100), 0);
}

fn run_script(config: RetryConfig, outcomes: Vec<AttemptOutcome>) -> (String, u64, u64, Vec<u64>) {
    let mut metrics = ServerMetrics::new();
    let mut session = RetrySession::new(config);
    let mut pauses = Vec::new();
    for outcome in outcomes {
        match session.step(outcome, &mut metrics) {
            RetryStep::Succeeded { attempts } => {
                return ("succeeded".to_string(), attempts, metrics.errors_total(), pauses)
            }
            RetryStep::Failed { attempts } => {
                return ("failed".to_string(), attempts, metrics.errors_total(), pauses)
            }
            RetryStep::Exhausted { attempts } => {
                return ("exhausted".to_string(), attempts, metrics.errors_total(), pauses)
            }
            RetryStep::RetryAfter { delay_ms, session: next } => {
                pauses.push(delay_ms);
                session = next;
            }
        }
    }
    ("unfinished".to_string(), 0, metrics.errors_total(), pauses)
}

#[test]
fn retry_succeeds_at_the_third_attempt() {
    let outcomes = vec![AttemptOutcome::Retryable, AttemptOutcome::Retryable, AttemptOutcome::Success];
    let (end, attempts, errors, pauses) = run_script(RetryConfig::default(), outcomes);
    assert_eq!(end, "succeeded");
    assert_eq!(attempts, 3);
    assert_eq!(errors, 2);
    assert_eq!(pauses, vec![2000, 4000]);
}

#[test]
fn retry_stops_at_a_terminal_failure() {
    let outcomes = vec![AttemptOutcome::Terminal, AttemptOutcome::Success];
    let (end, attempts, errors, pauses) = run_script(RetryConfig::default(), outcomes);
    assert_eq!(end, "failed");
    assert_eq!(attempts, 1);
    assert_eq!(errors, 1);
    assert_eq!(pauses.len(), 0);
}

#[test]
fn retry_gives_up_after_the_last_attempt() {
    let outcomes = vec![AttemptOutcome::Retryable; 10];
    let (end, attempts, errors, pauses) = run_script(RetryConfig::default(), outcomes);
    assert_eq!(end, "exhausted");
    assert_eq!(attempts, 4);
    assert_eq!(errors, 4);
    assert_eq!(pauses, vec![2000, 4000, 8000]);
    let none = RetryConfig { max_retries: 0, ..RetryConfig::default() };
    let (end, attempts, _, pauses) = run_script(none, vec![AttemptOutcome::Retryable]);
    assert_eq!(end, "exhausted");
    assert_eq!(attempts, 1);
    assert_eq!(pauses.len(), 0);
}

#[test]
fn backoff_runs_the_operation_until_it_succeeds() {
    let mut metrics = ServerMetrics::new();
    let mut calls = 0;
    let mut pauses: Vec<u64> = Vec::new();
    let result: Result<u32, RetryError<Status>> = retry_with_backoff(
        || {
            calls += 1;
            if calls < 3 {
                Err(Status::unavailable("down"))
            } else {
                Ok(42)
            }
        },
        |status: &Status| is_retryable_error(status),
        |ms| pauses.push(ms),
        RetryConfig::default(),
        &mut metrics,
    );
    assert_eq!(result.unwrap(), 42);
    assert_eq!(calls, 3);
    assert_eq!(pauses, vec![2000, 4000]);
    assert_eq!(metrics.errors_total(), 2);
    assert_eq!(metrics.requests_total(), 0);
}

#[test]
fn backoff_returns_a_terminal_failure_at_once() {
    let mut metrics = ServerMetrics::new();
    let mut calls = 0;
    let mut paused = 0;
    let result: Result<u32, RetryError<Status>> = retry_with_backoff(
        || {
            calls += 1;
            Err(Status::invalid_argument("bad"))
        },
        |status: &Status| is_retryable_error(status),
        |_ms| paused += 1,
        RetryConfig::default(),
        &mut metrics,
    );
    match result {
        Err(RetryError::Terminal(status)) => {
            assert_eq!(status.code(), Code::InvalidArgument);
            assert_eq!(status.message(), "bad");
        }
        other => panic!("unexpected {:?}", other),
    }
    assert_eq!(calls, 1);
    assert_eq!(paused, 0);
    assert_eq!(metrics.errors_total(), 1);
}

#[test]
fn backoff_aborts_with_the_last_failure_and_the_attempts() {
    let mut metrics = ServerMetrics::new();
    let mut calls: u32 = 0;
    let mut pauses: Vec<u64> = Vec::new();
    let result: Result<u32, RetryError<Status>> = retry_with_backoff(
        || {
            calls += 1;
            Err(Status::unavailable(&format!("down {}", calls)))
        },
        |status: &Status| is_retryable_error(status),
        |ms| pauses.push(ms),
        RetryConfig { max_retries: 2, initial_delay_ms: 10, max_delay_ms: 15, multiplier_permille: 2000 },
        &mut metrics,
    );
    match result {
        Err(RetryError::Aborted { last, attempts }) => {
            assert_eq!(attempts, 3);
            assert_eq!(last.message(), "down 3");
        }
        other => panic!("unexpected {:?}", other),
    }
    assert_eq!(calls, 3);
    assert_eq!(pauses, vec![10, 15]);
    assert_eq!(metrics.errors_total(), 3);
}
