//! Where the next hop is, and in which order a connection to it is tried.

use vstd::prelude::*;
use vstd::string::*;
use crate::text::{push_str_chars, str_eq, string_of};

verus! {

/// The name that the server's certificate carries.
pub const DOMAIN_NAME: &'static str = "hello.grpc.io";

/// Where the configuration of the log lies.
pub const CONFIG_PATH: &'static str = "config/log4rs.yml";

/// The value of a setting, or `fallback` where it is not set.
pub open spec fn setting_or(value: Option<String>, fallback: Seq<char>) -> Seq<char> {
    match value {
        Some(v) => v@,
        None => fallback,
    }
}

/// The address of the server, given the setting `GRPC_SERVER` where it is
/// set: that, or `[::1]`.
pub fn grpc_server(server: Option<String>) -> (host: String)
    ensures
        host@ == setting_or(server, "[::1]"@),
{
    match server {
        Some(v) => v,
        None => String::from_str("[::1]"),
    }
}

/// Whether there is a next hop, given the setting `GRPC_HELLO_BACKEND` where
/// it is set: there is one where the setting names it.
pub fn has_backend(backend: Option<&str>) -> (r: bool)
    ensures
        r == (backend matches Some(v) && v@.len() > 0),
{
    match backend {
        Some(v) => !v.is_empty(),
        None => false,
    }
}

/// The address of the next hop: the setting `GRPC_HELLO_BACKEND` where it is
/// set, else the address of the server.
pub fn grpc_backend_host(backend: Option<String>, server: Option<String>) -> (host: String)
    ensures
        host@ == match backend {
            Some(v) => v@,
            None => setting_or(server, "[::1]"@),
        },
{
    match backend {
        Some(v) => v,
        None => grpc_server(server),
    }
}

/// The port of the next hop: the setting `GRPC_HELLO_BACKEND_PORT` where it
/// is set, else the setting `GRPC_SERVER_PORT`, else 9996.
pub fn grpc_backend_port(backend_port: Option<String>, server_port: Option<String>) -> (port: String)
    ensures
        port@ == match backend_port {
            Some(v) => v@,
            None => setting_or(server_port, "9996"@),
        },
{
    match backend_port {
        Some(v) => v,
        None => match server_port {
            Some(v) => v,
            None => String::from_str("9996"),
        },
    }
}

/// One way to connect.
#[derive(Debug)]
pub enum ConnectAttempt {
    /// Encrypted, to this address; the server's certificate must carry the
    /// name `domain`.
    Tls { address: String, domain: String },
    /// Not encrypted, to this address.
    Insecure { address: String },
}

/// The address `scheme://host:port`.
pub open spec fn address_of(scheme: Seq<char>, host: Seq<char>, port: Seq<char>) -> Seq<char> {
    scheme + "://"@ + host + ":"@ + port
}

fn address(scheme: &str, host: &str, port: &str) -> (out: String)
    ensures
        out@ == address_of(scheme@, host@, port@),
{
    let mut chars: Vec<char> = Vec::new();
    push_str_chars(&mut chars, scheme);
    push_str_chars(&mut chars, "://");
    push_str_chars(&mut chars, host);
    push_str_chars(&mut chars, ":");
    push_str_chars(&mut chars, port);
    assert(chars@ =~= address_of(scheme@, host@, port@));
    string_of(&chars)
}

/// Whether `attempt` is the encrypted way to `host` and `port`.
pub open spec fn is_tls_attempt(attempt: ConnectAttempt, host: Seq<char>, port: Seq<char>) -> bool {
    attempt matches ConnectAttempt::Tls { address, domain } && address@ == address_of(
        "https"@,
        host,
        port,
    ) && domain@ == "hello.grpc.io"@
}

/// Whether `attempt` is the way to `host` and `port` that is not encrypted.
pub open spec fn is_insecure_attempt(attempt: ConnectAttempt, host: Seq<char>, port: Seq<char>) -> bool {
    attempt matches ConnectAttempt::Insecure { address } && address@ == address_of(
        "http"@,
        host,
        port,
    )
}

/// The ways to connect to the next hop, in the order in which they are
/// tried, given the setting `GRPC_HELLO_SECURE` where it is set: with `Y` the
/// encrypted way first; in any case the way that is not encrypted last.
pub fn build_client(secure: Option<&str>, host: &str, port: &str) -> (attempts: Vec<ConnectAttempt>)
    ensures
        (secure matches Some(v) && v@ == "Y"@) ==> attempts@.len() == 2 && is_tls_attempt(
            attempts@[0],
            host@,
            port@,
        ) && is_insecure_attempt(attempts@[1], host@, port@),
        !(secure matches Some(v) && v@ == "Y"@) ==> attempts@.len() == 1 && is_insecure_attempt(
            attempts@[0],
            host@,
            port@,
        ),
{
    let mut attempts: Vec<ConnectAttempt> = Vec::new();
    let is_tls = match secure {
        Some(v) => str_eq(v, "Y"),
        None => false,
    };
    if is_tls {
        attempts.push(
            ConnectAttempt::Tls {
                address: address("https", host, port),
                domain: String::from_str(DOMAIN_NAME),
            },
        );
    }
    attempts.push(ConnectAttempt::Insecure { address: address("http", host, port) });
    attempts
}

} // verus!
