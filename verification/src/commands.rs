//! What the desktop shell is told while a call runs: the events of a stream,
//! the state of the connection, and the address to offer for the server.

use vstd::prelude::*;
use vstd::string::*;
use crate::grpc_client::{ConnectionSettings, GrpcClient, GrpcError};
use crate::platform::{friendly_text, network_fault, PlatformInfo, PlatformManager};
use crate::landing::{TalkRequest, TalkResponse};
use crate::text::{decimal, push_decimal, push_signed_decimal, push_str_chars, signed_decimal, string_of};

verus! {

/// The pause between two requests of a call that sends many and gets one
/// response, in milliseconds.
pub const CLIENT_STREAMING_SEND_DELAY_MS: u64 = 100;

/// The pause between two requests of a stream of both directions, in
/// milliseconds.
pub const BIDIRECTIONAL_SEND_DELAY_MS: u64 = 500;

/// A response arrived on a stream.
#[derive(Debug)]
pub struct StreamingResponseEvent {
    pub response: TalkResponse,
    pub stream_id: String,
}

/// A stream ended as it should.
#[derive(Debug)]
pub struct StreamingCompleteEvent {
    pub stream_id: String,
    pub message: String,
}

/// A stream failed.
#[derive(Debug)]
pub struct StreamingErrorEvent {
    pub stream_id: String,
    pub error: String,
}

/// The connection was made, lost, or given new settings.
#[derive(Debug)]
pub struct ConnectionStatusEvent {
    pub connected: bool,
    pub settings: ConnectionSettings,
}

/// One event of a stream.
#[derive(Debug)]
pub enum StreamEvent {
    Response(StreamingResponseEvent),
    Complete(StreamingCompleteEvent),
    Error(StreamingErrorEvent),
}

impl StreamEvent {
    /// The name under which the event is sent.
    pub open spec fn spec_name(&self) -> Seq<char> {
        match self {
            StreamEvent::Response(_) => "streaming-response"@,
            StreamEvent::Complete(_) => "streaming-complete"@,
            StreamEvent::Error(_) => "streaming-error"@,
        }
    }

    /// The name under which the event is sent.
    pub fn name(&self) -> (name: &'static str)
        ensures
            name@ == self.spec_name(),
    {
        match self {
            StreamEvent::Response(_) => "streaming-response",
            StreamEvent::Complete(_) => "streaming-complete",
            StreamEvent::Error(_) => "streaming-error",
        }
    }

    /// Whether the stream goes on after this event: it does after a
    /// response, and ends with any other event.
    pub fn continues(&self) -> (r: bool)
        ensures
            r == (self is Response),
    {
        match self {
            StreamEvent::Response(_) => true,
            _ => false,
        }
    }
}

/// Whether `event` says that the stream `stream_id` ended with `message`.
pub open spec fn is_complete(event: StreamEvent, stream_id: Seq<char>, message: Seq<char>) -> bool {
    event matches StreamEvent::Complete(e) && e.stream_id@ == stream_id && e.message@ == message
}

/// Whether `event` says that the stream `stream_id` failed with `error`.
pub open spec fn is_error(event: StreamEvent, stream_id: Seq<char>, error: Seq<char>) -> bool {
    event matches StreamEvent::Error(e) && e.stream_id@ == stream_id && e.error@ == error
}

/// Whether `event` carries `response` on the stream `stream_id`.
pub open spec fn is_response(event: StreamEvent, stream_id: Seq<char>, response: TalkResponse) -> bool {
    event matches StreamEvent::Response(e) && e.stream_id@ == stream_id && e.response == response
}

fn completed(stream_id: &str, message: &str) -> (event: StreamEvent)
    ensures
        is_complete(event, stream_id@, message@),
{
    StreamEvent::Complete(
        StreamingCompleteEvent {
            stream_id: String::from_str(stream_id),
            message: String::from_str(message),
        },
    )
}

fn failed(stream_id: &str, prefix: &str, error: &str) -> (event: StreamEvent)
    ensures
        is_error(event, stream_id@, prefix@ + error@),
{
    let mut chars: Vec<char> = Vec::new();
    push_str_chars(&mut chars, prefix);
    push_str_chars(&mut chars, error);
    assert(chars@ =~= prefix@ + error@);
    StreamEvent::Error(
        StreamingErrorEvent { stream_id: String::from_str(stream_id), error: string_of(&chars) },
    )
}

fn arrived(stream_id: &str, response: TalkResponse) -> (event: StreamEvent)
    ensures
        is_response(event, stream_id@, response),
{
    StreamEvent::Response(
        StreamingResponseEvent { response, stream_id: String::from_str(stream_id) },
    )
}

/// The event for what a stream of responses gave next: a response, the end
/// of the stream, or a failure given by its text. The stream goes on after a
/// response only.
pub fn server_streaming_event(stream_id: &str, message: Result<Option<TalkResponse>, String>) -> (event:
    StreamEvent)
    ensures
        match message {
            Ok(Some(r)) => is_response(event, stream_id@, r),
            Ok(None) => is_complete(event, stream_id@, "Stream completed successfully"@),
            Err(e) => is_error(event, stream_id@, "Stream error: "@ + e@),
        },
{
    match message {
        Ok(Some(r)) => arrived(stream_id, r),
        Ok(None) => completed(stream_id, "Stream completed successfully"),
        Err(e) => failed(stream_id, "Stream error: ", e.as_str()),
    }
}

/// How a call that sends many requests ended.
#[derive(Debug)]
pub enum ClientStreamingEnd {
    /// The one response came.
    Response(TalkResponse),
    /// The call failed: the failure in words.
    CallFailed(String),
    /// The task that made the call did not end as it should: why, in words.
    TaskFailed(String),
    /// A request could not be sent.
    SendFailed,
}

/// The events for the end of a call that sends many requests: the response
/// and the end of the stream, or one failure.
pub fn client_streaming_events(stream_id: &str, end: ClientStreamingEnd) -> (events: Vec<StreamEvent>)
    ensures
        match end {
            ClientStreamingEnd::Response(r) => events@.len() == 2 && is_response(
                events@[0],
                stream_id@,
                r,
            ) && is_complete(events@[1], stream_id@, "Client streaming completed successfully"@),
            ClientStreamingEnd::CallFailed(e) => events@.len() == 1 && is_error(
                events@[0],
                stream_id@,
                "Client streaming error: "@ + e@,
            ),
            ClientStreamingEnd::TaskFailed(e) => events@.len() == 1 && is_error(
                events@[0],
                stream_id@,
                "Task join error: "@ + e@,
            ),
            ClientStreamingEnd::SendFailed => events@.len() == 1 && is_error(
                events@[0],
                stream_id@,
                "Failed to send request"@,
            ),
        },
{
    let mut events: Vec<StreamEvent> = Vec::new();
    match end {
        ClientStreamingEnd::Response(r) => {
            events.push(arrived(stream_id, r));
            events.push(completed(stream_id, "Client streaming completed successfully"));
        },
        ClientStreamingEnd::CallFailed(e) => {
            events.push(failed(stream_id, "Client streaming error: ", e.as_str()));
        },
        ClientStreamingEnd::TaskFailed(e) => {
            events.push(failed(stream_id, "Task join error: ", e.as_str()));
        },
        ClientStreamingEnd::SendFailed => {
            events.push(failed(stream_id, "Failed to send request", ""));
            assert("Failed to send request"@ + ""@ =~= "Failed to send request"@) by {
                reveal_strlit("");
            }
        },
    }
    events
}

/// The events for what a stream of both directions gave next: a response; a
/// failure, given by its text, and the end of the stream; or the end of the
/// stream alone.
pub fn bidirectional_streaming_events(
    stream_id: &str,
    message: Option<Result<TalkResponse, String>>,
) -> (events: Vec<StreamEvent>)
    ensures
        match message {
            Some(Ok(r)) => events@.len() == 1 && is_response(events@[0], stream_id@, r),
            Some(Err(e)) => events@.len() == 2 && is_error(
                events@[0],
                stream_id@,
                "Stream error: "@ + e@,
            ) && is_complete(events@[1], stream_id@, "Bidirectional streaming completed"@),
            None => events@.len() == 1 && is_complete(
                events@[0],
                stream_id@,
                "Bidirectional streaming completed"@,
            ),
        },
{
    let mut events: Vec<StreamEvent> = Vec::new();
    match message {
        Some(Ok(r)) => {
            events.push(arrived(stream_id, r));
        },
        Some(Err(e)) => {
            events.push(failed(stream_id, "Stream error: ", e.as_str()));
            events.push(completed(stream_id, "Bidirectional streaming completed"));
        },
        None => {
            events.push(completed(stream_id, "Bidirectional streaming completed"));
        },
    }
    events
}

/// What the shell is told after an attempt to connect, and what the command
/// returns: the settings, or the failure in words.
pub fn connection_status(settings: &ConnectionSettings, failure: Option<&GrpcError>) -> (r: (
    ConnectionStatusEvent,
    Result<ConnectionSettings, String>,
))
    ensures
        r.0.connected == (failure is None),
        r.0.settings.server@ == settings.server@,
        r.0.settings.port == settings.port,
        r.0.settings.use_tls == settings.use_tls,
        r.0.settings.timeout_seconds == settings.timeout_seconds,
        match failure {
            None => r.1 matches Ok(s) && s.server@ == settings.server@ && s.port == settings.port
                && s.use_tls == settings.use_tls && s.timeout_seconds == settings.timeout_seconds,
            Some(e) => r.1 matches Err(text) && text@ == "Failed to connect: "@ + e.spec_text(),
        },
{
    match failure {
        None => (
            ConnectionStatusEvent { connected: true, settings: settings.clone() },
            Ok(settings.clone()),
        ),
        Some(e) => {
            let mut chars: Vec<char> = Vec::new();
            push_str_chars(&mut chars, "Failed to connect: ");
            let described = e.to_string();
            push_str_chars(&mut chars, described.as_str());
            assert(chars@ =~= "Failed to connect: "@ + e.spec_text());
            (
                ConnectionStatusEvent { connected: false, settings: settings.clone() },
                Err(string_of(&chars)),
            )
        },
    }
}

/// Whether `event` says of a client with the settings `settings` whether it
/// is connected.
pub open spec fn is_status(event: ConnectionStatusEvent, connected: bool, settings: ConnectionSettings) -> bool {
    &&& event.connected == connected
    &&& event.settings.server@ == settings.server@
    &&& event.settings.port == settings.port
    &&& event.settings.use_tls == settings.use_tls
    &&& event.settings.timeout_seconds == settings.timeout_seconds
}

/// What the shell is told when it asks for the state of the connection.
pub fn get_connection_status<C>(client: &GrpcClient<C>) -> (event: ConnectionStatusEvent)
    ensures
        is_status(event, client.connected(), client.spec_settings()),
{
    ConnectionStatusEvent { connected: client.is_connected(), settings: client.settings().clone() }
}

/// Lets the connection go, and says what the shell is told of it.
pub fn disconnect_from_server<C>(client: &mut GrpcClient<C>) -> (event: ConnectionStatusEvent)
    ensures
        is_status(event, false, old(client).spec_settings()),
        final(client).connection() is None,
        !final(client).flagged_connected(),
        final(client).spec_settings() == old(client).spec_settings(),
{
    client.disconnect();
    ConnectionStatusEvent { connected: false, settings: client.settings().clone() }
}

/// Gives the client new settings that were saved, and says what the shell is
/// told of it: the client is not connected any more.
pub fn save_connection_settings<C>(client: &mut GrpcClient<C>, settings: ConnectionSettings) -> (event:
    ConnectionStatusEvent)
    ensures
        is_status(event, false, settings),
        final(client).spec_settings() == settings,
        final(client).connection() is None,
        !final(client).flagged_connected(),
{
    let copy = settings.clone();
    client.update_settings(settings);
    ConnectionStatusEvent { connected: client.is_connected(), settings: copy }
}

/// Whether the platform described by `info` allows a connection with
/// `settings`; where it does not, what the user is told.
pub fn validate_connection_settings(info: &PlatformInfo, settings: &ConnectionSettings) -> (r: Result<
    (),
    String,
>)
    ensures
        match network_fault(*info, settings.use_tls, settings.server@) {
            Some(fault) => r matches Err(text) && text@ == friendly_text(info.platform, fault),
            None => r is Ok,
        },
{
    match PlatformManager::validate_network_config(info, settings.use_tls, settings.server.as_str()) {
        Ok(()) => Ok(()),
        Err(e) => Err(PlatformManager::get_user_friendly_error(info.platform, &e)),
    }
}

/// The request with which the connection is tried out.
pub fn test_request() -> (request: TalkRequest)
    ensures
        request.data@ == "0"@,
        request.meta@ == "rust-test"@,
{
    TalkRequest { data: String::from_str("0"), meta: String::from_str("rust-test") }
}

/// What the shell is told after the connection was tried out.
pub fn test_connection(outcome: Result<&TalkResponse, &GrpcError>) -> (r: Result<String, String>)
    ensures
        match outcome {
            Ok(response) => r matches Ok(text) && text@
                == "Connection test successful. Status: "@ + signed_decimal(response.status as int),
            Err(e) => r matches Err(text) && text@ == "Connection test failed: "@ + e.spec_text(),
        },
{
    let mut chars: Vec<char> = Vec::new();
    match outcome {
        Ok(response) => {
            push_str_chars(&mut chars, "Connection test successful. Status: ");
            push_signed_decimal(&mut chars, response.status as i64);
            assert(chars@ =~= "Connection test successful. Status: "@ + signed_decimal(
                response.status as int,
            ));
            Ok(string_of(&chars))
        },
        Err(e) => {
            push_str_chars(&mut chars, "Connection test failed: ");
            let described = e.to_string();
            push_str_chars(&mut chars, described.as_str());
            assert(chars@ =~= "Connection test failed: "@ + e.spec_text());
            Err(string_of(&chars))
        },
    }
}

/// An address of version 4 in text: its four numbers with dots between them.
pub open spec fn dotted(a: u8, b: u8, c: u8, d: u8) -> Seq<char> {
    decimal(a as nat) + "."@ + decimal(b as nat) + "."@ + decimal(c as nat) + "."@ + decimal(
        d as nat,
    )
}

/// The address to offer for the server, given this machine's own address of
/// version 4 where one was found: that address, or `localhost` where none was
/// found or the one found is 127.0.0.1.
pub fn get_local_ip(address: Option<(u8, u8, u8, u8)>) -> (host: String)
    ensures
        match address {
            Some((a, b, c, d)) => if a == 127 && b == 0 && c == 0 && d == 1 {
                host@ == "localhost"@
            } else {
                host@ == dotted(a, b, c, d)
            },
            None => host@ == "localhost"@,
        },
{
    match address {
        Some((a, b, c, d)) => {
            if a == 127 && b == 0 && c == 0 && d == 1 {
                String::from_str("localhost")
            } else {
                let mut chars: Vec<char> = Vec::new();
                push_decimal(&mut chars, a as u64);
                push_str_chars(&mut chars, ".");
                push_decimal(&mut chars, b as u64);
                push_str_chars(&mut chars, ".");
                push_decimal(&mut chars, c as u64);
                push_str_chars(&mut chars, ".");
                push_decimal(&mut chars, d as u64);
                assert(chars@ =~= dotted(a, b, c, d));
                string_of(&chars)
            }
        },
        None => String::from_str("localhost"),
    }
}

/// What loading the settings gives: the settings to use, and whether they
/// are to be saved because none were stored.
#[derive(Debug)]
pub struct LoadedSettings {
    pub settings: ConnectionSettings,
    pub save: bool,
}

/// The settings to use, given what the store holds: the stored settings where
/// they are sound, the failure where they are not, and the default settings,
/// to be saved, where nothing is stored.
pub fn load_settings(stored: Option<ConnectionSettings>) -> (r: Result<LoadedSettings, GrpcError>)
    ensures
        match stored {
            Some(settings) => match settings.fault() {
                Some(message) => r matches Err(GrpcError::ConfigError(text)) && text@ == message,
                None => r matches Ok(loaded) && loaded.settings == settings && !loaded.save,
            },
            None => r matches Ok(loaded) && loaded.save && loaded.settings.server@ == "localhost"@
                && loaded.settings.port == 9996 && !loaded.settings.use_tls
                && loaded.settings.timeout_seconds == 30,
        },
{
    match stored {
        Some(settings) => match settings.validate() {
            Ok(()) => Ok(LoadedSettings { settings, save: false }),
            Err(e) => Err(e),
        },
        None => Ok(LoadedSettings { settings: ConnectionSettings::default(), save: true }),
    }
}

} // verus!
