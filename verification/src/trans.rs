//! What travels with a call: the names of the tracing headers that are handed
//! on to the next hop, and where the certificates lie.

use vstd::prelude::*;

verus! {

/// The headers that are handed on, in the order in which they are looked up.
pub const TRACING_KEYS: [&'static str; 7] = [
    "x-request-id",
    "x-b3-traceid",
    "x-b3-spanid",
    "x-b3-parentspanid",
    "x-b3-sampled",
    "x-b3-flags",
    "x-ot-span-context",
];

/// Whether `key` is one of the headers that are handed on.
pub open spec fn is_tracing_key(key: Seq<char>) -> bool {
    exists|i: int| 0 <= i < 7 && (#[trigger] TRACING_KEYS[i])@ == key
}

/// The server's certificate.
pub const CERT: &'static str = "/var/hello_grpc/server_certs/cert.pem";

/// The server's private key.
pub const CERT_KEY: &'static str = "/var/hello_grpc/server_certs/private.key";

/// The server's certificate chain.
pub const CERT_CHAIN: &'static str = "/var/hello_grpc/server_certs/full_chain.pem";

/// The root certificate.
pub const ROOT_CERT: &'static str = "/var/hello_grpc/server_certs/myssl_root.cer";

} // verus!
