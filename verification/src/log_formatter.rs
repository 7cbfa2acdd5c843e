//! The lines that report the start and the end of a request.

use vstd::prelude::*;
use vstd::string::*;
use tonic::metadata::MetadataMap;
use crate::error_mapper::{Code, Status};
use crate::metadata::{ascii_entries, first_value};
use crate::text::{decimal, push_decimal, push_str_chars, str_eq, string_of};

verus! {

/// The name of this service in the log.
pub const SERVICE_NAME: &'static str = "rust";

/// Whether the byte is a visible character of ASCII, a blank, or a tab.
pub open spec fn is_visible(b: u8) -> bool {
    (32 <= b && b < 127) || b == 9
}

/// Whether the bytes are text: each is visible, a blank, or a tab.
pub open spec fn is_text(bytes: Seq<u8>) -> bool {
    forall|i: int| 0 <= i < bytes.len() ==> is_visible(#[trigger] bytes[i])
}

/// The bytes as characters, one for each.
pub open spec fn as_text(bytes: Seq<u8>) -> Seq<char> {
    Seq::new(bytes.len(), |i: int| bytes[i] as char)
}

/// The value of `entries` under `key` as text, where there is one and it is text.
pub open spec fn text_under(entries: Map<Seq<char>, Seq<u8>>, key: Seq<char>) -> Option<Seq<char>> {
    if entries.contains_key(key) && is_text(entries[key]) {
        Some(as_text(entries[key]))
    } else {
        None
    }
}

/// The request id that the entries carry: under `x-request-id`, else under
/// `request-id`, else `unknown`.
pub open spec fn request_id_of(entries: Map<Seq<char>, Seq<u8>>) -> Seq<char> {
    match text_under(entries, "x-request-id"@) {
        Some(id) => id,
        None => match text_under(entries, "request-id"@) {
            Some(id) => id,
            None => "unknown"@,
        },
    }
}

fn text_of(bytes: &Vec<u8>) -> (r: Option<String>)
    ensures
        match r {
            Some(text) => is_text(bytes@) && text@ == as_text(bytes@),
            None => !is_text(bytes@),
        },
{
    let mut chars: Vec<char> = Vec::new();
    let mut i: usize = 0;
    while i < bytes.len()
        invariant
            i <= bytes.len(),
            chars@ == as_text(bytes@.take(i as int)),
            is_text(bytes@.take(i as int)),
        decreases bytes.len() - i,
    {
        let b = bytes[i];
        if !((32 <= b && b < 127) || b == 9) {
            return None;
        }
        chars.push(b as char);
        assert(chars@ =~= as_text(bytes@.take(i + 1)));
        assert forall|k: int| 0 <= k < i + 1 implies is_visible(#[trigger] bytes@.take(i + 1)[k]) by {
            if k < i {
                assert(bytes@.take(i as int)[k] == bytes@[k]);
            }
        }
        i += 1;
    }
    assert(bytes@.take(i as int) =~= bytes@);
    Some(string_of(&chars))
}

/// The request id that `metadata` carries.
pub fn extract_request_id(metadata: &MetadataMap) -> (id: String)
    ensures
        id@ == request_id_of(ascii_entries(*metadata)),
{
    assert(crate::trans::TRACING_KEYS[0]@ == "x-request-id"@);
    match first_value(metadata, "x-request-id") {
        Some(bytes) => match text_of(&bytes) {
            Some(text) => {
                return text;
            },
            None => {},
        },
        None => {},
    }
    match first_value(metadata, "request-id") {
        Some(bytes) => match text_of(&bytes) {
            Some(text) => {
                return text;
            },
            None => {},
        },
        None => {},
    }
    String::from_str("unknown")
}

/// The address of the caller, or `unknown` where it is not known.
pub fn extract_peer(remote_addr: Option<&str>) -> (peer: String)
    ensures
        peer@ == match remote_addr {
            Some(addr) => addr@,
            None => "unknown"@,
        },
{
    match remote_addr {
        Some(addr) => String::from_str(addr),
        None => String::from_str("unknown"),
    }
}

/// Whether connections are encrypted, given the setting `GRPC_HELLO_SECURE`
/// where it is set: only `Y` says so.
pub fn is_secure(value: Option<&str>) -> (r: bool)
    ensures
        r == (value matches Some(v) && v@ == "Y"@),
{
    match value {
        Some(v) => str_eq(v, "Y"),
        None => false,
    }
}

/// `true` or `false`.
pub open spec fn bool_text(b: bool) -> Seq<char> {
    if b {
        "true"@
    } else {
        "false"@
    }
}

/// What the lines of a request begin with.
pub open spec fn request_head(
    method: Seq<char>,
    request_id: Seq<char>,
    peer: Seq<char>,
    secure: bool,
) -> Seq<char> {
    "service=rust request_id="@ + request_id + " method="@ + method + " peer="@ + peer
        + " secure="@ + bool_text(secure)
}

fn push_head(chars: &mut Vec<char>, method: &str, request_id: &str, peer: &str, secure: bool)
    ensures
        final(chars)@ == old(chars)@ + request_head(method@, request_id@, peer@, secure),
{
    push_str_chars(chars, "service=");
    push_str_chars(chars, SERVICE_NAME);
    push_str_chars(chars, " request_id=");
    push_str_chars(chars, request_id);
    push_str_chars(chars, " method=");
    push_str_chars(chars, method);
    push_str_chars(chars, " peer=");
    push_str_chars(chars, peer);
    push_str_chars(chars, " secure=");
    if secure {
        push_str_chars(chars, "true");
    } else {
        push_str_chars(chars, "false");
    }
    proof {
        reveal_strlit("service=");
        reveal_strlit("rust");
        reveal_strlit("service=rust request_id=");
        assert("service="@ + "rust"@ + " request_id="@ =~= "service=rust request_id="@) by {
            reveal_strlit(" request_id=");
        }
        assert(chars@ =~= old(chars)@ + request_head(method@, request_id@, peer@, secure));
    }
}

/// The line that reports the start of a request.
pub fn log_request_start(method: &str, request_id: &str, peer: &str, secure: bool) -> (line: String)
    ensures
        line@ == request_head(method@, request_id@, peer@, secure) + " status=STARTED"@,
{
    let mut chars: Vec<char> = Vec::new();
    push_head(&mut chars, method, request_id, peer, secure);
    push_str_chars(&mut chars, " status=STARTED");
    assert(chars@ =~= request_head(method@, request_id@, peer@, secure) + " status=STARTED"@);
    string_of(&chars)
}

/// The line that reports the end of a request that took `duration_ms`
/// milliseconds and ended with `status`.
pub fn log_request_end(
    method: &str,
    request_id: &str,
    peer: &str,
    secure: bool,
    duration_ms: u64,
    status: &str,
) -> (line: String)
    ensures
        line@ == request_head(method@, request_id@, peer@, secure) + " duration_ms="@ + decimal(
            duration_ms as nat,
        ) + " status="@ + status@,
{
    let mut chars: Vec<char> = Vec::new();
    push_head(&mut chars, method, request_id, peer, secure);
    push_str_chars(&mut chars, " duration_ms=");
    push_decimal(&mut chars, duration_ms);
    push_str_chars(&mut chars, " status=");
    push_str_chars(&mut chars, status);
    assert(chars@ =~= request_head(method@, request_id@, peer@, secure) + " duration_ms="@
        + decimal(duration_ms as nat) + " status="@ + status@);
    string_of(&chars)
}

/// The name of a status code.
pub open spec fn code_name(code: Code) -> Seq<char> {
    match code {
        Code::OK => "Ok"@,
        Code::Cancelled => "Cancelled"@,
        Code::Unknown => "Unknown"@,
        Code::InvalidArgument => "InvalidArgument"@,
        Code::DeadlineExceeded => "DeadlineExceeded"@,
        Code::NotFound => "NotFound"@,
        Code::AlreadyExists => "AlreadyExists"@,
        Code::PermissionDenied => "PermissionDenied"@,
        Code::ResourceExhausted => "ResourceExhausted"@,
        Code::FailedPrecondition => "FailedPrecondition"@,
        Code::Aborted => "Aborted"@,
        Code::OutOfRange => "OutOfRange"@,
        Code::Unimplemented => "Unimplemented"@,
        Code::Internal => "Internal"@,
        Code::Unavailable => "Unavailable"@,
        Code::DataLoss => "DataLoss"@,
        Code::Unauthenticated => "Unauthenticated"@,
    }
}

/// The name of `code`.
pub fn code_str(code: Code) -> (name: &'static str)
    ensures
        name@ == code_name(code),
{
    match code {
        Code::OK => "Ok",
        Code::Cancelled => "Cancelled",
        Code::Unknown => "Unknown",
        Code::InvalidArgument => "InvalidArgument",
        Code::DeadlineExceeded => "DeadlineExceeded",
        Code::NotFound => "NotFound",
        Code::AlreadyExists => "AlreadyExists",
        Code::PermissionDenied => "PermissionDenied",
        Code::ResourceExhausted => "ResourceExhausted",
        Code::FailedPrecondition => "FailedPrecondition",
        Code::Aborted => "Aborted",
        Code::OutOfRange => "OutOfRange",
        Code::Unimplemented => "Unimplemented",
        Code::Internal => "Internal",
        Code::Unavailable => "Unavailable",
        Code::DataLoss => "DataLoss",
        Code::Unauthenticated => "Unauthenticated",
    }
}

/// The line that reports a request that failed with `status` after
/// `duration_ms` milliseconds: the name of the code stands for the status
/// and once more as the error code, then the message.
pub fn log_request_error(
    method: &str,
    request_id: &str,
    peer: &str,
    secure: bool,
    duration_ms: u64,
    status: &Status,
) -> (line: String)
    ensures
        line@ == request_head(method@, request_id@, peer@, secure) + " duration_ms="@ + decimal(
            duration_ms as nat,
        ) + " status="@ + code_name(status.spec_code()) + " error_code="@ + code_name(
            status.spec_code(),
        ) + " message="@ + status.spec_message(),
{
    let mut chars: Vec<char> = Vec::new();
    push_head(&mut chars, method, request_id, peer, secure);
    push_str_chars(&mut chars, " duration_ms=");
    push_decimal(&mut chars, duration_ms);
    push_str_chars(&mut chars, " status=");
    push_str_chars(&mut chars, code_str(status.code()));
    push_str_chars(&mut chars, " error_code=");
    push_str_chars(&mut chars, code_str(status.code()));
    push_str_chars(&mut chars, " message=");
    push_str_chars(&mut chars, status.message());
    assert(chars@ =~= request_head(method@, request_id@, peer@, secure) + " duration_ms="@
        + decimal(duration_ms as nat) + " status="@ + code_name(status.spec_code())
        + " error_code="@ + code_name(status.spec_code()) + " message="@ + status.spec_message());
    string_of(&chars)
}

} // verus!
