//! The client side of a connection: its settings, its failures, and whether
//! it stands.

use vstd::prelude::*;
use vstd::string::*;
use crate::error_mapper::{error_text, map_grpc_error, Code, Status};
use crate::text::{decimal, push_decimal, push_str_chars, string_of};

verus! {

/// The number of messages that a stream of the client holds at most before
/// the sender has to wait.
pub const STREAM_CHANNEL_CAPACITY: usize = 32;

/// Why a client operation failed.
#[derive(Debug)]
pub enum GrpcError {
    /// The connection could not be made: what the transport said.
    ConnectionError(String),
    /// The call was made and failed.
    GrpcCallError(Status),
    /// The call took too long.
    TimeoutError(String),
    /// The settings cannot be used.
    ConfigError(String),
    /// A value could not be written or read as text.
    SerializationError(String),
    /// A channel inside the client broke.
    ChannelError(String),
}

impl GrpcError {
    /// What `to_string` writes: the kind of the failure, then what is known of it.
    pub open spec fn spec_text(&self) -> Seq<char> {
        match self {
            GrpcError::ConnectionError(e) => "Connection error: "@ + e@,
            GrpcError::GrpcCallError(status) => "gRPC call error: "@ + error_text(
                status.spec_code(),
                status.spec_message(),
            ),
            GrpcError::TimeoutError(e) => "Timeout error: "@ + e@,
            GrpcError::ConfigError(e) => "Configuration error: "@ + e@,
            GrpcError::SerializationError(e) => "Serialization error: "@ + e@,
            GrpcError::ChannelError(e) => "Channel error: "@ + e@,
        }
    }

    /// The failure in words.
    pub fn to_string(&self) -> (text: String)
        ensures
            text@ == self.spec_text(),
    {
        let mut chars: Vec<char> = Vec::new();
        match self {
            GrpcError::ConnectionError(e) => {
                push_str_chars(&mut chars, "Connection error: ");
                push_str_chars(&mut chars, e.as_str());
            },
            GrpcError::GrpcCallError(status) => {
                push_str_chars(&mut chars, "gRPC call error: ");
                let described = map_grpc_error(status);
                push_str_chars(&mut chars, described.as_str());
            },
            GrpcError::TimeoutError(e) => {
                push_str_chars(&mut chars, "Timeout error: ");
                push_str_chars(&mut chars, e.as_str());
            },
            GrpcError::ConfigError(e) => {
                push_str_chars(&mut chars, "Configuration error: ");
                push_str_chars(&mut chars, e.as_str());
            },
            GrpcError::SerializationError(e) => {
                push_str_chars(&mut chars, "Serialization error: ");
                push_str_chars(&mut chars, e.as_str());
            },
            GrpcError::ChannelError(e) => {
                push_str_chars(&mut chars, "Channel error: ");
                push_str_chars(&mut chars, e.as_str());
            },
        }
        assert(chars@ =~= self.spec_text());
        string_of(&chars)
    }
}

/// Where the server is and how it is reached.
#[derive(Debug)]
pub struct ConnectionSettings {
    pub server: String,
    pub port: u16,
    pub use_tls: bool,
    pub timeout_seconds: u64,
}

impl Clone for ConnectionSettings {
    fn clone(&self) -> (out: Self)
        ensures
            out.server@ == self.server@,
            out.port == self.port,
            out.use_tls == self.use_tls,
            out.timeout_seconds == self.timeout_seconds,
    {
        ConnectionSettings {
            server: self.server.clone(),
            port: self.port,
            use_tls: self.use_tls,
            timeout_seconds: self.timeout_seconds,
        }
    }
}

impl Default for ConnectionSettings {
    fn default() -> (out: Self)
        ensures
            out.server@ == "localhost"@,
            out.port == 9996,
            !out.use_tls,
            out.timeout_seconds == 30,
    {
        ConnectionSettings {
            server: String::from_str("localhost"),
            port: 9996,
            use_tls: false,
            timeout_seconds: 30,
        }
    }
}

impl ConnectionSettings {
    /// What is wrong with the settings, if anything: the first of an empty
    /// server, port 0, a timeout of 0.
    pub open spec fn fault(&self) -> Option<Seq<char>> {
        if self.server@.len() == 0 {
            Some("Server address cannot be empty"@)
        } else if self.port == 0 {
            Some("Port must be greater than 0"@)
        } else if self.timeout_seconds == 0 {
            Some("Timeout must be greater than 0"@)
        } else {
            None
        }
    }

    /// The address of the endpoint: the scheme, the server, the port.
    pub open spec fn endpoint_url(&self) -> Seq<char> {
        (if self.use_tls {
            "https"@
        } else {
            "http"@
        }) + "://"@ + self.server@ + ":"@ + decimal(self.port as nat)
    }

    /// Accepts the settings, or says what is wrong with them.
    pub fn validate(&self) -> (r: Result<(), GrpcError>)
        ensures
            match self.fault() {
                Some(message) => r matches Err(GrpcError::ConfigError(text)) && text@ == message,
                None => r is Ok,
            },
    {
        if self.server.as_str().is_empty() {
            return Err(GrpcError::ConfigError(String::from_str("Server address cannot be empty")));
        }
        if self.port == 0 {
            return Err(GrpcError::ConfigError(String::from_str("Port must be greater than 0")));
        }
        if self.timeout_seconds == 0 {
            return Err(GrpcError::ConfigError(String::from_str("Timeout must be greater than 0")));
        }
        Ok(())
    }

    /// The address of the endpoint.
    pub fn get_endpoint_url(&self) -> (url: String)
        ensures
            url@ == self.endpoint_url(),
    {
        let mut chars: Vec<char> = Vec::new();
        if self.use_tls {
            push_str_chars(&mut chars, "https");
        } else {
            push_str_chars(&mut chars, "http");
        }
        push_str_chars(&mut chars, "://");
        push_str_chars(&mut chars, self.server.as_str());
        push_str_chars(&mut chars, ":");
        push_decimal(&mut chars, self.port as u64);
        assert(chars@ =~= self.endpoint_url());
        string_of(&chars)
    }
}

/// What a connection is made with.
#[derive(Debug)]
pub struct ConnectPlan {
    /// The address of the endpoint.
    pub endpoint_url: String,
    /// The time that a call may take, in seconds.
    pub timeout_seconds: u64,
    /// The name that the server's certificate must carry, where the
    /// connection is encrypted.
    pub tls_domain: Option<String>,
}

/// The four shapes of a call.
#[derive(Clone, Copy, Debug, PartialEq, Eq, Structural)]
pub enum CallShape {
    Unary,
    ServerStreaming,
    ClientStreaming,
    Bidirectional,
}

/// What is said of a call of the given shape that took too long.
pub open spec fn timeout_message(shape: CallShape) -> Seq<char> {
    match shape {
        CallShape::Unary => "Unary call timed out"@,
        CallShape::ServerStreaming => "Server streaming call timed out"@,
        CallShape::ClientStreaming => "Client streaming call timed out"@,
        CallShape::Bidirectional => "Bidirectional streaming call timed out"@,
    }
}

fn timeout_text(shape: CallShape) -> (text: &'static str)
    ensures
        text@ == timeout_message(shape),
{
    match shape {
        CallShape::Unary => "Unary call timed out",
        CallShape::ServerStreaming => "Server streaming call timed out",
        CallShape::ClientStreaming => "Client streaming call timed out",
        CallShape::Bidirectional => "Bidirectional streaming call timed out",
    }
}

/// What the caller of a call gets: `outcome` is `None` where the time ran out
/// before the call ended, else what the call ended with.
pub fn call_outcome<T>(shape: CallShape, outcome: Option<Result<T, Status>>) -> (r: Result<
    T,
    GrpcError,
>)
    ensures
        match outcome {
            Some(Ok(value)) => r == Ok::<T, GrpcError>(value),
            Some(Err(status)) => r == Err::<T, GrpcError>(GrpcError::GrpcCallError(status)),
            None => r matches Err(GrpcError::TimeoutError(text)) && text@ == timeout_message(shape),
        },
{
    match outcome {
        Some(Ok(value)) => Ok(value),
        Some(Err(status)) => Err(GrpcError::GrpcCallError(status)),
        None => Err(GrpcError::TimeoutError(String::from_str(timeout_text(shape)))),
    }
}

/// What a stream of both directions starts with: `outcome` is `None` where
/// the time ran out before the call was set up. A failure is the one item
/// that the caller's stream then holds.
pub fn bidirectional_outcome<T>(outcome: Option<Result<T, Status>>) -> (r: Result<T, Status>)
    ensures
        match outcome {
            Some(Ok(value)) => r == Ok::<T, Status>(value),
            Some(Err(status)) => r == Err::<T, Status>(status),
            None => r matches Err(status) && status.spec_code() == Code::DeadlineExceeded
                && status.spec_message() == timeout_message(CallShape::Bidirectional),
        },
{
    match outcome {
        Some(result) => result,
        None => Err(Status::deadline_exceeded(timeout_text(CallShape::Bidirectional))),
    }
}

/// A client: its settings, and the connection where one stands. `C` is what
/// a connection is.
#[derive(Debug)]
pub struct GrpcClient<C> {
    client: Option<C>,
    pub settings: ConnectionSettings,
    is_connected: bool,
}

impl<C> GrpcClient<C> {
    /// The connection, where there is one.
    pub closed spec fn connection(&self) -> Option<C> {
        self.client
    }

    /// The settings.
    pub closed spec fn spec_settings(&self) -> ConnectionSettings {
        self.settings
    }

    /// Whether the client was told that it is connected.
    pub closed spec fn flagged_connected(&self) -> bool {
        self.is_connected
    }

    /// Whether the client is connected: it was told so and holds a connection.
    pub open spec fn connected(&self) -> bool {
        self.flagged_connected() && self.connection() is Some
    }

    /// A client that is not connected.
    pub fn new(settings: ConnectionSettings) -> (out: Self)
        ensures
            out.spec_settings() == settings,
            out.connection() is None,
            !out.flagged_connected(),
    {
        GrpcClient { client: None, settings, is_connected: false }
    }

    /// The settings.
    pub fn settings(&self) -> (settings: &ConnectionSettings)
        ensures
            *settings == self.spec_settings(),
    {
        &self.settings
    }

    /// Checks the settings and says what a connection is made with.
    pub fn connect_plan(&self) -> (r: Result<ConnectPlan, GrpcError>)
        ensures
            match self.spec_settings().fault() {
                Some(message) => r matches Err(GrpcError::ConfigError(text)) && text@ == message,
                None => r matches Ok(plan) && plan.endpoint_url@ == self.spec_settings().endpoint_url()
                    && plan.timeout_seconds == self.spec_settings().timeout_seconds && match plan.tls_domain {
                    Some(domain) => self.spec_settings().use_tls && domain@
                        == self.spec_settings().server@,
                    None => !self.spec_settings().use_tls,
                },
            },
    {
        match self.settings.validate() {
            Err(e) => Err(e),
            Ok(()) => {
                let tls_domain = if self.settings.use_tls {
                    Some(self.settings.server.clone())
                } else {
                    None
                };
                Ok(
                    ConnectPlan {
                        endpoint_url: self.settings.get_endpoint_url(),
                        timeout_seconds: self.settings.timeout_seconds,
                        tls_domain,
                    },
                )
            },
        }
    }

    /// Takes the connection that was made.
    pub fn connect(&mut self, connection: C)
        ensures
            final(self).connection() == Some(connection),
            final(self).flagged_connected(),
            final(self).spec_settings() == old(self).spec_settings(),
    {
        self.client = Some(connection);
        self.is_connected = true;
    }

    /// Whether the client is connected.
    pub fn is_connected(&self) -> (r: bool)
        ensures
            r == self.connected(),
    {
        self.is_connected && self.client.is_some()
    }

    /// Tells the client that it is connected, or that it is not, without
    /// giving or taking a connection.
    pub fn set_connected_for_test(&mut self, connected: bool)
        ensures
            final(self).flagged_connected() == connected,
            final(self).connection() == old(self).connection(),
            final(self).spec_settings() == old(self).spec_settings(),
    {
        self.is_connected = connected;
    }

    /// Lets the connection go.
    pub fn disconnect(&mut self)
        ensures
            final(self).connection() is None,
            !final(self).flagged_connected(),
            final(self).spec_settings() == old(self).spec_settings(),
    {
        self.client = None;
        self.is_connected = false;
    }

    /// Takes new settings and lets the connection go, so that the next call
    /// connects anew.
    pub fn update_settings(&mut self, settings: ConnectionSettings)
        ensures
            final(self).spec_settings() == settings,
            final(self).connection() is None,
            !final(self).flagged_connected(),
    {
        self.settings = settings;
        self.is_connected = false;
        self.client = None;
    }

    /// The connection for a call, or the failure of a client that holds none.
    pub fn client(&self) -> (r: Result<&C, GrpcError>)
        ensures
            match self.connection() {
                Some(connection) => r matches Ok(c) && *c == connection,
                None => r matches Err(GrpcError::ConfigError(text)) && text@
                    == "Client not connected"@,
            },
    {
        match &self.client {
            Some(c) => Ok(c),
            None => Err(GrpcError::ConfigError(String::from_str("Client not connected"))),
        }
    }
}

} // verus!
