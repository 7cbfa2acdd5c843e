use hello_grpc_rust::error_mapper::{Code, Status};
use hello_grpc_rust::landing::{ResultType, TalkRequest, TalkResponse, TalkResult};
use hello_grpc_rust::server::{
    answer_item, answer_request, buffer_inbound, build_result, create_response, metrics_port,
    get_server_port, relay_message, synthesize, AnswerStream, Gatherer, Handled, ProtoServer, Responder, FORWARD_TIMEOUT_MS,
};
use hello_grpc_rust::utils::{thanks, HELLOS};
use tonic::metadata::MetadataMap;

fn new_test_server() -> ProtoServer {
    ProtoServer::new(String::new())
}

fn request(data: &str, meta: &str) -> TalkRequest {
    TalkRequest { data: data.to_string(), meta: meta.to_string() }
}

fn expected_data(index: usize) -> String {
    let hello = HELLOS[index];
    format!("{},{}", hello, thanks(hello))
}

fn check_result(result: &TalkResult, idx: &str, index: usize) {
    assert_eq!(result.kind, ResultType::OK);
    assert_eq!(result.kv.get("data").unwrap(), &expected_data(index));
    assert_eq!(result.kv.get("meta").unwrap(), "RUST");
    assert_eq!(result.kv.get("idx").unwrap(), idx);
    assert!(result.kv.contains_key("id"));
    assert_eq!(result.kv.len(), 4);
}

fn local<T>(handled: Handled<T>) -> T {
    match handled {
        Handled::Local(value) => value,
        Handled::Forward(_) => panic!("the call was handed on"),
    }
}

#[test]
fn test_talk_unary_non_proxy() {
    let mut server = new_test_server();
    let request_payload = request("0", "TestClient");

    match local(server.talk(request_payload, &MetadataMap::new())) {
        Ok(talk_response) => {
            assert_eq!(talk_response.status, 200);
            assert_eq!(talk_response.results.len(), 1);
            let result = &talk_response.results[0];
            assert_eq!(result.kind, ResultType::OK);

            let expected_hello = HELLOS[0];
            let expected_thanks = thanks(expected_hello);
            let expected_data = format!("{},{}", expected_hello, expected_thanks);

            assert_eq!(result.kv.get("data").unwrap(), &expected_data);
            assert_eq!(result.kv.get("meta").unwrap(), "RUST");
            assert_eq!(result.kv.get("idx").unwrap(), "0");
            assert!(result.kv.contains_key("id"));
        }
        Err(status) => {
            panic!("talk unary call failed: {:?}", status);
        }
    }
}

#[test]
fn test_talk_one_answer_more_non_proxy() {
    let mut server = new_test_server();
    let request_payload = request("0,1", "TestClient");
    let mut stream = local(server.talk_one_answer_more(request_payload, &MetadataMap::new()));

    let mut received_responses = Vec::new();
    while let Some(res_result) = stream.next() {
        match res_result {
            Ok(resp) => received_responses.push(resp),
            Err(status) => panic!("Stream error: {:?}", status),
        }
    }

    assert_eq!(received_responses.len(), 2, "Expected 2 responses for data '0,1'");

    let resp1 = &received_responses[0];
    assert_eq!(resp1.status, 200);
    assert_eq!(resp1.results.len(), 1);
    let result1 = &resp1.results[0];
    let expected_hello1 = HELLOS[0];
    let expected_thanks1 = thanks(expected_hello1);
    assert_eq!(
        result1.kv.get("data").unwrap(),
        &format!("{},{}", expected_hello1, expected_thanks1)
    );
    assert_eq!(result1.kv.get("idx").unwrap(), "0");

    let resp2 = &received_responses[1];
    assert_eq!(resp2.status, 200);
    assert_eq!(resp2.results.len(), 1);
    let result2 = &resp2.results[0];
    let expected_hello2 = HELLOS[1];
    let expected_thanks2 = thanks(expected_hello2);
    assert_eq!(
        result2.kv.get("data").unwrap(),
        &format!("{},{}", expected_hello2, expected_thanks2)
    );
    assert_eq!(result2.kv.get("idx").unwrap(), "1");
}

#[test]
fn test_talk_more_answer_one_non_proxy() {
    let mut server = new_test_server();
    let requests_data = vec![request("0", "Client1"), request("1", "Client2")];

    let mut gatherer = local(server.talk_more_answer_one(&MetadataMap::new()));
    for req_data in requests_data {
        gatherer = match gatherer.accept(Ok(req_data)) {
            Ok(next) => next,
            Err(status) => panic!("talk_more_answer_one call failed: {:?}", status),
        };
    }
    let talk_response = gatherer.finish();

    assert_eq!(talk_response.status, 200);
    assert_eq!(talk_response.results.len(), 2, "Expected 2 results in the response");

    let result1 = &talk_response.results[0];
    let expected_hello1 = HELLOS[0];
    let expected_thanks1 = thanks(expected_hello1);
    assert_eq!(
        result1.kv.get("data").unwrap(),
        &format!("{},{}", expected_hello1, expected_thanks1)
    );
    assert_eq!(result1.kv.get("idx").unwrap(), "0");

    let result2 = &talk_response.results[1];
    let expected_hello2 = HELLOS[1];
    let expected_thanks2 = thanks(expected_hello2);
    assert_eq!(
        result2.kv.get("data").unwrap(),
        &format!("{},{}", expected_hello2, expected_thanks2)
    );
    assert_eq!(result2.kv.get("idx").unwrap(), "1");
}

#[test]
fn test_talk_bidirectional_non_proxy() {
    let mut server = new_test_server();
    let client_requests_data = vec![request("0", "ClientBidi1"), request("1", "ClientBidi2")];

    let mut responder = local(server.talk_bidirectional(&MetadataMap::new()));
    let mut received_responses = Vec::new();
    for req_data in client_requests_data {
        match responder.answer(Ok(req_data)) {
            Some(Ok(resp)) => received_responses.push(resp),
            Some(Err(status)) => panic!("Bidirectional stream error from server: {:?}", status),
            None => panic!("the stream ended early"),
        }
    }

    assert_eq!(
        received_responses.len(),
        2,
        "Expected 2 responses from bidirectional server stream"
    );

    let resp1 = &received_responses[0];
    assert_eq!(resp1.status, 200);
    let result1 = &resp1.results[0];
    let expected_hello1 = HELLOS[0];
    let expected_thanks1 = thanks(expected_hello1);
    assert_eq!(
        result1.kv.get("data").unwrap(),
        &format!("{},{}", expected_hello1, expected_thanks1)
    );
    assert_eq!(result1.kv.get("idx").unwrap(), "0");

    let resp2 = &received_responses[1];
    assert_eq!(resp2.status, 200);
    let result2 = &resp2.results[0];
    let expected_hello2 = HELLOS[1];
    let expected_thanks2 = thanks(expected_hello2);
    assert_eq!(
        result2.kv.get("data").unwrap(),
        &format!("{},{}", expected_hello2, expected_thanks2)
    );
    assert_eq!(result2.kv.get("idx").unwrap(), "1");
}

#[test]
fn test_talk_unary_proxy_attempts_connection() {
    let mut server = ProtoServer::new("localhost:55555".to_string());
    let request_payload = request("0", "TestClientProxy");

    match server.talk(request_payload, &MetadataMap::new()) {
        Handled::Local(response) => {
            panic!("Proxy call was answered here: {:?}", response);
        }
        Handled::Forward(plan) => {
            assert_eq!(plan.timeout_ms, 4500);
            assert!(plan.metadata.is_empty());
        }
    }
    let status = server.backend_unavailable();
    assert!(
        status.code() == Code::Unavailable
            || status.code() == Code::Internal
            || status.code() == Code::Unknown,
        "Expected Unavailable, Internal, or Unknown status code, got {:?} with message: {}",
        status.code(),
        status.message()
    );
    assert_eq!(server.server_metrics().errors_total(), 1);
}

#[test]
fn synthesize_answers_every_index_in_range() {
    for index in 0..6 {
        let idx = index.to_string();
        let result = create_response(idx.clone()).unwrap();
        check_result(&result, &idx, index);
    }
}

#[test]
fn synthesize_by_index() {
    for index in 0..6 {
        check_result(&synthesize(index), &index.to_string(), index);
    }
    check_result(&synthesize(7), "7", 1);
    check_result(&synthesize(usize::MAX), &usize::MAX.to_string(), usize::MAX % 6);
    assert_eq!(synthesize(3).kv.get("data").unwrap(), "こんにちは,どうも ありがとう ございます");
}

#[test]
fn ports() {
    assert_eq!(get_server_port(None), "9996");
    assert_eq!(get_server_port(Some("8080".to_string())), "8080");
    assert_eq!(metrics_port("9996"), Some(9997));
    assert_eq!(metrics_port("0"), Some(1));
    assert_eq!(metrics_port("65534"), Some(65535));
    assert_eq!(metrics_port("65535"), None);
    assert_eq!(metrics_port("65536"), Some(50052));
    assert_eq!(metrics_port("http"), Some(50052));
    assert_eq!(metrics_port(""), Some(50052));
}

#[test]
fn synthesize_counts_round_the_table() {
    let result = create_response("6".to_string()).unwrap();
    check_result(&result, "6", 0);
    let result = create_response("+11".to_string()).unwrap();
    check_result(&result, "+11", 5);
    let result = create_response("18446744073709551615".to_string()).unwrap();
    check_result(&result, "18446744073709551615", 3);
}

#[test]
fn synthesize_rejects_what_is_no_index() {
    for data in vec!["", "abc", "-1", "1.5", " 1", "18446744073709551616"] {
        let status = create_response(data.to_string()).unwrap_err();
        assert_eq!(status.code(), Code::InvalidArgument);
        assert_eq!(status.message(), "data is not an index into the greetings");
    }
}

#[test]
fn result_is_made_of_what_it_is_given() {
    let result = build_result("2".to_string(), "the-id".to_string(), 1234567).unwrap();
    assert_eq!(result.id, 1234567);
    assert_eq!(result.kv.get("id").unwrap(), "the-id");
    assert_eq!(result.kv.get("data").unwrap(), "Hola,Muchas Gracias");
    check_result(&result, "2", 2);
    assert!(build_result("x".to_string(), "the-id".to_string(), 1).is_err());
}

#[test]
fn identifiers_are_fresh_and_well_shaped() {
    let first = create_response("0".to_string()).unwrap();
    let second = create_response("0".to_string()).unwrap();
    let a = first.kv.get("id").unwrap().clone();
    let b = second.kv.get("id").unwrap().clone();
    assert_ne!(a, b);
    for id in vec![a, b] {
        let chars: Vec<char> = id.chars().collect();
        assert_eq!(chars.len(), 36);
        for (i, c) in chars.iter().enumerate() {
            if i == 8 || i == 13 || i == 18 || i == 23 {
                assert_eq!(*c, '-');
            } else {
                assert!(c.is_ascii_digit() || ('a'..='f').contains(c));
            }
        }
        assert_eq!(chars[14], '4');
    }
    assert!(first.id > 1_600_000_000_000);
}

#[test]
fn unary_scenario_starts_with_the_first_greeting() {
    let mut server = new_test_server();
    let response = local(server.talk(request("0", "any"), &MetadataMap::new())).unwrap();
    assert_eq!(response.status, 200);
    assert_eq!(response.results.len(), 1);
    assert!(response.results[0].kv.get("data").unwrap().starts_with(HELLOS[0]));
    assert!(response.results[0].kv.get("data").unwrap().starts_with("Hello"));
}

#[test]
fn unary_rejection_is_counted() {
    let mut server = new_test_server();
    let reply = local(server.talk(request("nope", "any"), &MetadataMap::new()));
    assert_eq!(reply.unwrap_err().code(), Code::InvalidArgument);
    assert_eq!(server.server_metrics().requests_total(), 1);
    assert_eq!(server.server_metrics().errors_total(), 1);
    let reply = local(server.talk(request("1", "any"), &MetadataMap::new()));
    assert!(reply.is_ok());
    assert_eq!(server.server_metrics().requests_total(), 2);
    assert_eq!(server.server_metrics().errors_total(), 1);
    assert!(server.server_metrics().last_request_time().is_some());
}

#[test]
fn server_streaming_gives_three_responses_in_order() {
    let replies = AnswerStream::new("0,1,2").collect();
    assert_eq!(replies.len(), 3);
    for (i, reply) in replies.iter().enumerate() {
        let response = reply.as_ref().unwrap();
        assert_eq!(response.status, 200);
        assert_eq!(response.results.len(), 1);
        check_result(&response.results[0], &i.to_string(), i);
    }
}

#[test]
fn server_streaming_stops_at_the_first_bad_part() {
    let replies = AnswerStream::new("4,x,2").collect();
    assert_eq!(replies.len(), 2);
    check_result(&replies[0].as_ref().unwrap().results[0], "4", 4);
    assert_eq!(replies[1].as_ref().unwrap_err().code(), Code::InvalidArgument);

    let mut stream = AnswerStream::new("x,1");
    assert!(matches!(stream.next(), Some(Err(_))));
    assert!(stream.next().is_none());
    assert!(stream.next().is_none());
}

#[test]
fn server_streaming_of_empty_data_is_one_rejection() {
    let replies = AnswerStream::new("").collect();
    assert_eq!(replies.len(), 1);
    assert!(replies[0].is_err());
    let replies = AnswerStream::new("1,").collect();
    assert_eq!(replies.len(), 2);
    assert!(replies[0].is_ok());
    assert!(replies[1].is_err());
}

#[test]
fn server_stream_is_not_restartable() {
    let mut stream = AnswerStream::new("3");
    assert!(matches!(stream.next(), Some(Ok(_))));
    assert!(stream.next().is_none());
    assert_eq!(stream.collect().len(), 0);
}

#[test]
fn client_streaming_gives_one_result_for_each_request() {
    let items = vec![
        Ok(request("5", "a")),
        Ok(request("4", "b")),
        Ok(request("3", "c")),
        Ok(request("9", "d")),
    ];
    let response = Gatherer::gather(items).unwrap();
    assert_eq!(response.status, 200);
    assert_eq!(response.results.len(), 4);
    check_result(&response.results[0], "5", 5);
    check_result(&response.results[1], "4", 4);
    check_result(&response.results[2], "3", 3);
    check_result(&response.results[3], "9", 3);
}

#[test]
fn client_streaming_of_nothing_is_an_empty_response() {
    let response = Gatherer::gather(Vec::new()).unwrap();
    assert_eq!(response.status, 200);
    assert_eq!(response.results.len(), 0);
    let response = Gatherer::new().finish();
    assert_eq!(response.results.len(), 0);
}

#[test]
fn client_streaming_fails_with_the_first_failure() {
    let items = vec![
        Ok(request("1", "a")),
        Err(Status::unavailable("lost")),
        Err(Status::internal("later")),
    ];
    let status = Gatherer::gather(items).unwrap_err();
    assert_eq!(status.code(), Code::Unavailable);
    assert_eq!(status.message(), "lost");

    let items = vec![Ok(request("1", "a")), Ok(request("one", "b"))];
    assert_eq!(Gatherer::gather(items).unwrap_err().code(), Code::InvalidArgument);
}

#[test]
fn bidirectional_gives_three_responses_in_send_order() {
    let items = vec![Ok(request("2", "a")), Ok(request("0", "b")), Ok(request("1", "c"))];
    let replies = Responder::answer_all(items);
    assert_eq!(replies.len(), 3);
    let expected = vec![("2", 2), ("0", 0), ("1", 1)];
    for (reply, (idx, index)) in replies.iter().zip(expected) {
        let response: &TalkResponse = reply.as_ref().unwrap();
        assert_eq!(response.status, 200);
        assert_eq!(response.results.len(), 1);
        check_result(&response.results[0], idx, index);
    }
}

#[test]
fn bidirectional_ends_after_a_failure() {
    let items = vec![
        Ok(request("2", "a")),
        Err(Status::cancelled("gone")),
        Ok(request("1", "c")),
    ];
    let replies = Responder::answer_all(items);
    assert_eq!(replies.len(), 2);
    assert!(replies[0].is_ok());
    assert_eq!(replies[1].as_ref().unwrap_err().code(), Code::Cancelled);

    let mut responder = Responder::new();
    assert!(matches!(responder.answer(Ok(request("bad", "a"))), Some(Err(_))));
    assert!(responder.answer(Ok(request("1", "a"))).is_none());
}

#[test]
fn one_item_is_answered_or_fails_as_it_came() {
    let reply = answer_item(Ok(request("3", "a"))).unwrap();
    check_result(&reply.results[0], "3", 3);
    let status = answer_item(Err(Status::not_found("nothing"))).unwrap_err();
    assert_eq!(status.code(), Code::NotFound);
    assert_eq!(status.message(), "nothing");
    assert!(answer_request("5".to_string()).is_ok());
    assert!(answer_request("five".to_string()).is_err());
}

#[test]
fn inbound_is_buffered_whole_or_fails() {
    let requests = buffer_inbound(vec![Ok(request("1", "a")), Ok(request("x", "b"))]).unwrap();
    assert_eq!(requests.len(), 2);
    assert_eq!(requests[0].data, "1");
    assert_eq!(requests[1].data, "x");
    assert_eq!(requests[1].meta, "b");
    let status = buffer_inbound(vec![
        Ok(request("1", "a")),
        Err(Status::aborted("first")),
        Err(Status::internal("second")),
    ])
    .unwrap_err();
    assert_eq!(status.code(), Code::Aborted);
    assert_eq!(buffer_inbound(Vec::new()).unwrap().len(), 0);
}

#[test]
fn forwarding_server_hands_every_shape_on() {
    let mut server = ProtoServer::new("next-hop".to_string());
    assert!(server.forwards());
    let mut inbound = MetadataMap::new();
    inbound.insert("x-request-id", "r-1".parse().unwrap());
    inbound.insert("x-b3-traceid", "t-1".parse().unwrap());
    inbound.insert("authorization", "secret".parse().unwrap());

    let plan = match server.talk(request("0", "a"), &inbound) {
        Handled::Forward(plan) => plan,
        Handled::Local(_) => panic!("answered here"),
    };
    assert_eq!(plan.timeout_ms, FORWARD_TIMEOUT_MS);
    assert_eq!(plan.metadata.len(), 2);
    assert_eq!(plan.metadata.get("x-request-id").unwrap(), "r-1");
    assert_eq!(plan.metadata.get("x-b3-traceid").unwrap(), "t-1");
    assert!(plan.metadata.get("authorization").is_none());

    assert!(matches!(server.talk_one_answer_more(request("0", "a"), &inbound), Handled::Forward(_)));
    assert!(matches!(server.talk_more_answer_one(&inbound), Handled::Forward(_)));
    assert!(matches!(server.talk_bidirectional(&inbound), Handled::Forward(_)));
    assert_eq!(server.server_metrics().requests_total(), 4);
    assert_eq!(server.server_metrics().errors_total(), 0);
    assert!(!new_test_server().forwards());
}

#[test]
fn forwarded_outcome_is_returned_as_it_is() {
    let mut server = ProtoServer::new("next-hop".to_string());
    let response = TalkResponse { status: 201, results: Vec::new() };
    let relayed = server.forwarded(Ok(response)).unwrap();
    assert_eq!(relayed.status, 201);
    assert_eq!(server.server_metrics().errors_total(), 0);
    let failed: Result<TalkResponse, Status> =
        server.forwarded(Err(Status::deadline_exceeded("slow")));
    let status = failed.unwrap_err();
    assert_eq!(status.code(), Code::DeadlineExceeded);
    assert_eq!(status.message(), "slow");
    assert_eq!(server.server_metrics().errors_total(), 1);
    let status = server.backend_unavailable();
    assert_eq!(status.code(), Code::Internal);
    assert_eq!(status.message(), "Backend connection not available");
    assert_eq!(server.server_metrics().errors_total(), 2);
}

#[test]
fn relayed_stream_ends_with_the_source_or_a_failure() {
    let response = TalkResponse { status: 200, results: Vec::new() };
    assert_eq!(relay_message(Ok(Some(response))).unwrap().status, 200);
    assert!(relay_message(Ok(None)).is_none());
    assert!(relay_message(Err(Status::unavailable("down"))).is_none());
}
