use hello_grpc_rust::client::{
    after_attempt, bidirectional_request, log_error, log_response, pause_after_iteration,
    request_id, server_streaming_request, unary_request, NextAttempt, RunOutcome,
    DEFAULT_BATCH_SIZE, ITERATION_COUNT, REQUEST_DELAY_MS, REQUEST_TIMEOUT_SECONDS,
    RETRY_ATTEMPTS, RETRY_DELAY_SECONDS, SEND_DELAY_MS,
};
use hello_grpc_rust::commands::{
    bidirectional_streaming_events, client_streaming_events, connection_status,
    disconnect_from_server, get_connection_status, get_local_ip, load_settings,
    save_connection_settings, server_streaming_event, test_connection,
    validate_connection_settings, ClientStreamingEnd, StreamEvent, StreamingCompleteEvent,
    StreamingErrorEvent, StreamingResponseEvent, BIDIRECTIONAL_SEND_DELAY_MS,
    CLIENT_STREAMING_SEND_DELAY_MS,
};
use hello_grpc_rust::grpc_client::GrpcClient;
use hello_grpc_rust::platform::{Platform, PlatformManager};
use hello_grpc_rust::conn::{
    build_client, grpc_backend_host, grpc_backend_port, grpc_server, has_backend, ConnectAttempt,
    CONFIG_PATH, DOMAIN_NAME,
};
use hello_grpc_rust::error_mapper::Status;
use hello_grpc_rust::grpc_client::{ConnectionSettings, GrpcError};
use hello_grpc_rust::landing::TalkResponse;
use hello_grpc_rust::logging_config::{
    get_log_level, initialize_logging, initialize_logging_with_dir, level_of_name, level_str,
    Level, LoggingConfig,
};
use hello_grpc_rust::server::create_response;
use hello_grpc_rust::shutdown_handler::ShutdownHandler;
use hello_grpc_rust::trans::{CERT, CERT_CHAIN, CERT_KEY, ROOT_CERT};

fn response(status: i32) -> TalkResponse {
    TalkResponse { status, results: Vec::new() }
}

fn complete_of(event: &StreamEvent) -> &StreamingCompleteEvent {
    match event {
        StreamEvent::Complete(e) => e,
        other => panic!("unexpected {:?}", other),
    }
}

fn error_of(event: &StreamEvent) -> &StreamingErrorEvent {
    match event {
        StreamEvent::Error(e) => e,
        other => panic!("unexpected {:?}", other),
    }
}

fn response_of(event: &StreamEvent) -> &StreamingResponseEvent {
    match event {
        StreamEvent::Response(e) => e,
        other => panic!("unexpected {:?}", other),
    }
}

#[test]
fn server_stream_events() {
    let event = server_streaming_event("s-1", Ok(Some(response(200))));
    assert!(event.continues());
    assert!(!server_streaming_event("s-1", Ok(None)).continues());
    assert!(!server_streaming_event("s-1", Err("e".to_string())).continues());
    assert_eq!(event.name(), "streaming-response");
    assert_eq!(response_of(&event).stream_id, "s-1");
    assert_eq!(response_of(&event).response.status, 200);

    let event = server_streaming_event("s-1", Ok(None));
    assert_eq!(event.name(), "streaming-complete");
    assert_eq!(complete_of(&event).stream_id, "s-1");
    assert_eq!(complete_of(&event).message, "Stream completed successfully");

    let event = server_streaming_event("s-1", Err("broken pipe".to_string()));
    assert_eq!(event.name(), "streaming-error");
    assert_eq!(error_of(&event).stream_id, "s-1");
    assert_eq!(error_of(&event).error, "Stream error: broken pipe");
}

#[test]
fn client_stream_events() {
    let events = client_streaming_events("s-2", ClientStreamingEnd::Response(response(200)));
    assert_eq!(events.len(), 2);
    assert_eq!(response_of(&events[0]).response.status, 200);
    assert_eq!(response_of(&events[0]).stream_id, "s-2");
    assert_eq!(complete_of(&events[1]).message, "Client streaming completed successfully");

    let events = client_streaming_events("s-2", ClientStreamingEnd::CallFailed("late".to_string()));
    assert_eq!(events.len(), 1);
    assert_eq!(error_of(&events[0]).error, "Client streaming error: late");

    let events = client_streaming_events("s-2", ClientStreamingEnd::TaskFailed("panic".to_string()));
    assert_eq!(error_of(&events[0]).error, "Task join error: panic");

    let events = client_streaming_events("s-2", ClientStreamingEnd::SendFailed);
    assert_eq!(events.len(), 1);
    assert_eq!(error_of(&events[0]).error, "Failed to send request");
    assert_eq!(error_of(&events[0]).stream_id, "s-2");
}

#[test]
fn bidirectional_stream_events() {
    let events = bidirectional_streaming_events("s-3", Some(Ok(response(200))));
    assert_eq!(events.len(), 1);
    assert_eq!(response_of(&events[0]).stream_id, "s-3");

    let events = bidirectional_streaming_events("s-3", Some(Err("reset".to_string())));
    assert_eq!(events.len(), 2);
    assert_eq!(error_of(&events[0]).error, "Stream error: reset");
    assert_eq!(complete_of(&events[1]).message, "Bidirectional streaming completed");

    let events = bidirectional_streaming_events("s-3", None);
    assert_eq!(events.len(), 1);
    assert_eq!(complete_of(&events[0]).message, "Bidirectional streaming completed");
}

#[test]
fn connection_status_events() {
    let settings = ConnectionSettings::default();
    let (event, result) = connection_status(&settings, None);
    assert!(event.connected);
    assert_eq!(event.settings.server, "localhost");
    assert_eq!(result.unwrap().port, 9996);

    let failure = GrpcError::ConnectionError("refused".to_string());
    let (event, result) = connection_status(&settings, Some(&failure));
    assert!(!event.connected);
    assert_eq!(event.settings.timeout_seconds, 30);
    assert_eq!(result.unwrap_err(), "Failed to connect: Connection error: refused");
}

#[test]
fn connection_state_for_the_shell() {
    let mut client: GrpcClient<u8> = GrpcClient::new(ConnectionSettings::default());
    assert!(!get_connection_status(&client).connected);
    client.connect(1);
    let event = get_connection_status(&client);
    assert!(event.connected);
    assert_eq!(event.settings.server, "localhost");
    let event = disconnect_from_server(&mut client);
    assert!(!event.connected);
    assert!(!client.is_connected());
    client.connect(2);
    let saved = ConnectionSettings {
        server: "saved.example.com".to_string(),
        port: 7,
        use_tls: true,
        timeout_seconds: 8,
    };
    let event = save_connection_settings(&mut client, saved);
    assert!(!event.connected);
    assert_eq!(event.settings.server, "saved.example.com");
    assert_eq!(client.settings.port, 7);
    assert!(!client.is_connected());
    assert_eq!(CLIENT_STREAMING_SEND_DELAY_MS, 100);
    assert_eq!(BIDIRECTIONAL_SEND_DELAY_MS, 500);
}

#[test]
fn settings_are_checked_against_the_platform() {
    let remote = ConnectionSettings {
        server: "example.com".to_string(),
        port: 80,
        use_tls: false,
        timeout_seconds: 1,
    };
    let desktop = PlatformManager::get_platform_info(Platform::Desktop, "linux");
    assert!(validate_connection_settings(&desktop, &remote).is_ok());
    let android = PlatformManager::get_platform_info(Platform::Android, "linux");
    assert_eq!(
        validate_connection_settings(&android, &remote).unwrap_err(),
        "HTTP connections are not allowed. Please use HTTPS or configure network security policy."
    );
    assert!(validate_connection_settings(&android, &ConnectionSettings::default()).is_ok());
}

#[test]
fn connection_test_reports() {
    assert_eq!(
        test_connection(Ok(&response(200))).unwrap(),
        "Connection test successful. Status: 200"
    );
    assert_eq!(
        test_connection(Ok(&response(-5))).unwrap(),
        "Connection test successful. Status: -5"
    );
    assert_eq!(
        test_connection(Ok(&response(i32::MIN))).unwrap(),
        "Connection test successful. Status: -2147483648"
    );
    let failure = GrpcError::TimeoutError("Unary call timed out".to_string());
    assert_eq!(
        test_connection(Err(&failure)).unwrap_err(),
        "Connection test failed: Timeout error: Unary call timed out"
    );
}

#[test]
fn local_ip_or_localhost() {
    assert_eq!(get_local_ip(Some((192, 168, 1, 20))), "192.168.1.20");
    assert_eq!(get_local_ip(Some((0, 0, 0, 0))), "0.0.0.0");
    assert_eq!(get_local_ip(Some((255, 255, 255, 255))), "255.255.255.255");
    assert_eq!(get_local_ip(Some((127, 0, 0, 1))), "localhost");
    assert_eq!(get_local_ip(Some((127, 0, 0, 2))), "127.0.0.2");
    assert_eq!(get_local_ip(None), "localhost");
}

#[test]
fn loading_settings() {
    let loaded = load_settings(None).unwrap();
    assert!(loaded.save);
    assert_eq!(loaded.settings.server, "localhost");
    assert_eq!(loaded.settings.port, 9996);

    let stored = ConnectionSettings {
        server: "stored.example.com".to_string(),
        port: 1,
        use_tls: true,
        timeout_seconds: 2,
    };
    let loaded = load_settings(Some(stored)).unwrap();
    assert!(!loaded.save);
    assert_eq!(loaded.settings.server, "stored.example.com");

    let broken = ConnectionSettings { port: 0, ..ConnectionSettings::default() };
    match load_settings(Some(broken)) {
        Err(GrpcError::ConfigError(message)) => assert_eq!(message, "Port must be greater than 0"),
        other => panic!("unexpected {:?}", other),
    }
}

#[test]
fn next_hop_settings() {
    assert_eq!(grpc_server(None), "[::1]");
    assert_eq!(grpc_server(Some("host".to_string())), "host");
    assert!(has_backend(Some("next")));
    assert!(!has_backend(Some("")));
    assert!(!has_backend(None));
    assert_eq!(grpc_backend_host(Some("next".to_string()), Some("host".to_string())), "next");
    assert_eq!(grpc_backend_host(None, Some("host".to_string())), "host");
    assert_eq!(grpc_backend_host(None, None), "[::1]");
    assert_eq!(grpc_backend_port(Some("1".to_string()), Some("2".to_string())), "1");
    assert_eq!(grpc_backend_port(None, Some("2".to_string())), "2");
    assert_eq!(grpc_backend_port(None, None), "9996");
    assert_eq!(DOMAIN_NAME, "hello.grpc.io");
    assert_eq!(CONFIG_PATH, "config/log4rs.yml");
    assert!(CERT.ends_with("cert.pem"));
    assert!(CERT_KEY.ends_with("private.key"));
    assert!(CERT_CHAIN.ends_with("full_chain.pem"));
    assert!(ROOT_CERT.ends_with("myssl_root.cer"));
}

#[test]
fn ways_to_connect() {
    let attempts = build_client(Some("Y"), "next", "8001");
    assert_eq!(attempts.len(), 2);
    match &attempts[0] {
        ConnectAttempt::Tls { address, domain } => {
            assert_eq!(address, "https://next:8001");
            assert_eq!(domain, "hello.grpc.io");
        }
        other => panic!("unexpected {:?}", other),
    }
    match &attempts[1] {
        ConnectAttempt::Insecure { address } => assert_eq!(address, "http://next:8001"),
        other => panic!("unexpected {:?}", other),
    }
    for secure in vec![None, Some("N"), Some("y"), Some("")] {
        let attempts = build_client(secure, "[::1]", "9996");
        assert_eq!(attempts.len(), 1);
        match &attempts[0] {
            ConnectAttempt::Insecure { address } => assert_eq!(address, "http://[::1]:9996"),
            other => panic!("unexpected {:?}", other),
        }
    }
}

#[test]
fn log_levels() {
    assert_eq!(get_log_level(None), Level::INFO);
    assert_eq!(get_log_level(Some("trace")), Level::TRACE);
    assert_eq!(get_log_level(Some("Debug")), Level::DEBUG);
    assert_eq!(get_log_level(Some("INFO")), Level::INFO);
    assert_eq!(get_log_level(Some("warn")), Level::WARN);
    assert_eq!(get_log_level(Some("Warning")), Level::WARN);
    assert_eq!(get_log_level(Some("error")), Level::ERROR);
    assert_eq!(get_log_level(Some("loud")), Level::INFO);
    assert_eq!(get_log_level(Some("")), Level::INFO);
    assert_eq!(level_of_name("debug"), Level::INFO);
    assert_eq!(level_of_name("DEBUG"), Level::DEBUG);
    assert_eq!(level_str(Level::TRACE), "trace");
    assert_eq!(level_str(Level::WARN), "warn");
}

#[test]
fn logging_configuration() {
    let config = LoggingConfig::new("server", Some("debug"));
    assert_eq!(config.component, "server");
    assert_eq!(config.log_dir, "logs");
    assert_eq!(config.level, Level::DEBUG);
    let config = LoggingConfig::with_log_dir("client", "/tmp/log", None);
    assert_eq!(config.log_dir, "/tmp/log");
    assert_eq!(config.level, Level::INFO);

    let plan = config.plan_at("20240501_100000");
    assert_eq!(plan.log_dir, "/tmp/log");
    assert_eq!(plan.log_file_name, "client_20240501_100000.log");
    assert_eq!(plan.directives, vec!["info", "h2=warn", "tower=warn", "hyper=warn"]);
    assert_eq!(config.create_env_filter(), vec!["info", "h2=warn", "tower=warn", "hyper=warn"]);
}

fn check_log_file_name(name: &str, component: &str) {
    let prefix = format!("{}_", component);
    assert!(name.starts_with(&prefix));
    assert!(name.ends_with(".log"));
    let stamp = &name[prefix.len()..name.len() - 4];
    assert_eq!(stamp.len(), 15);
    for (i, c) in stamp.chars().enumerate() {
        if i == 8 {
            assert_eq!(c, '_');
        } else {
            assert!(c.is_ascii_digit());
        }
    }
}

#[test]
fn logging_is_planned_with_the_local_time() {
    let plan = initialize_logging("server", Some("error"));
    assert_eq!(plan.log_dir, "logs");
    check_log_file_name(&plan.log_file_name, "server");
    assert_eq!(plan.directives[0], "error");
    let plan = initialize_logging_with_dir("client", "out", None);
    assert_eq!(plan.log_dir, "out");
    check_log_file_name(&plan.log_file_name, "client");
    assert_eq!(plan.directives.len(), 4);
    let plan = LoggingConfig::new("x", None).initialize();
    check_log_file_name(&plan.log_file_name, "x");
}

#[test]
fn cleanups_run_last_first() {
    let mut handler = ShutdownHandler::new(500);
    assert_eq!(handler.timeout_ms(), 500);
    assert_eq!(handler.register_cleanup(), Some(0));
    assert_eq!(handler.register_cleanup(), Some(1));
    assert_eq!(handler.register_cleanup(), Some(2));
    let mut order = Vec::new();
    let report = handler.shutdown(|id| {
        order.push(id);
        true
    });
    assert_eq!(order, vec![2, 1, 0]);
    assert_eq!(report.ran, vec![2, 1, 0]);
    assert!(report.clean);
    assert!(ShutdownHandler::conclude(Some(&report)));
    assert!(!ShutdownHandler::conclude(None));
}

#[test]
fn a_failing_cleanup_does_not_stop_the_others() {
    let mut handler = ShutdownHandler::default();
    assert_eq!(handler.timeout_ms(), 30000);
    for _ in 0..4 {
        handler.register_cleanup();
    }
    let mut order = Vec::new();
    let report = handler.shutdown(|id| {
        order.push(id);
        id != 2
    });
    assert_eq!(order, vec![3, 2, 1, 0]);
    assert!(!report.clean);
    assert!(!ShutdownHandler::conclude(Some(&report)));
    let empty = ShutdownHandler::default().shutdown(|_| false);
    assert!(empty.clean);
    assert_eq!(empty.ran.len(), 0);
}

#[test]
fn shutdown_is_initiated_once() {
    let mut handler = ShutdownHandler::default();
    assert!(!handler.is_shutdown_initiated());
    assert!(handler.initiate_shutdown());
    assert!(handler.is_shutdown_initiated());
    assert!(!handler.initiate_shutdown());
    assert!(handler.is_shutdown_initiated());
}

#[test]
fn client_constants_and_requests() {
    assert_eq!(RETRY_ATTEMPTS, 3);
    assert_eq!(RETRY_DELAY_SECONDS, 2);
    assert_eq!(ITERATION_COUNT, 3);
    assert_eq!(REQUEST_DELAY_MS, 200);
    assert_eq!(SEND_DELAY_MS, 2);
    assert_eq!(REQUEST_TIMEOUT_SECONDS, 5);
    assert_eq!(DEFAULT_BATCH_SIZE, 5);
    assert_eq!(unary_request().data, "0");
    assert_eq!(unary_request().meta, "RUST");
    assert_eq!(server_streaming_request().data, "0,1,2");
    for _ in 0..20 {
        let request = bidirectional_request();
        assert_eq!(request.meta, "RUST");
        assert!(vec!["0", "1", "2", "3", "4"].contains(&request.data.as_str()));
    }
    let id = request_id("unary");
    assert!(id.starts_with("unary-"));
    assert_eq!(id.len(), 6 + 36);
    assert_ne!(id, request_id("unary"));
}

#[test]
fn client_attempts() {
    assert_eq!(after_attempt(1, RunOutcome::Completed), NextAttempt::Stop);
    assert_eq!(after_attempt(1, RunOutcome::Failed), NextAttempt::After(2));
    assert_eq!(after_attempt(2, RunOutcome::Failed), NextAttempt::After(2));
    assert_eq!(after_attempt(3, RunOutcome::Failed), NextAttempt::Stop);
    assert_eq!(after_attempt(1, RunOutcome::Incomplete), NextAttempt::Now);
    assert_eq!(after_attempt(3, RunOutcome::Incomplete), NextAttempt::Stop);
    assert_eq!(pause_after_iteration(1, 3, 200), Some(200));
    assert_eq!(pause_after_iteration(2, 3, 200), Some(200));
    assert_eq!(pause_after_iteration(3, 3, 200), None);
}

#[test]
fn client_log_lines() {
    let mut talk = response(200);
    let mut result = create_response("1".to_string()).unwrap();
    result.id = 1700000000123;
    let id = result.kv.get("id").unwrap().clone();
    talk.results.push(result);
    let lines = log_response(&talk);
    assert_eq!(lines.len(), 2);
    assert_eq!(lines[0], "Response status: 200, results: 1");
    assert_eq!(
        lines[1],
        format!(
            "  Result #1: id=1700000000123, type=0, meta=RUST, id={}, idx=1, data=Bonjour,Merci beaucoup",
            id
        )
    );
    assert_eq!(log_response(&response(-1)), vec!["Response status: -1, results: 0"]);
    assert_eq!(
        log_error(&Status::unavailable("down"), "unary-1", "Talk"),
        "Request failed - request_id: unary-1, method: Talk, error_code: Unavailable, message: down"
    );
}
