//! What each platform allows of a connection, and what to tell the user where
//! it refuses.

use vstd::prelude::*;
use vstd::string::*;
use crate::text::{chars_of, contains, contains_text, has_prefix, push_str_chars, starts_with, str_eq, string_of};

verus! {

/// Why a platform refuses a connection.
#[derive(Debug)]
pub enum PlatformError {
    NetworkUnavailable,
    PermissionDenied,
    SecurityPolicyViolation,
    PlatformSpecific(String),
    ConfigurationError(String),
}

impl Clone for PlatformError {
    fn clone(&self) -> (out: Self)
        ensures
            out.spec_text() == self.spec_text(),
    {
        match self {
            PlatformError::NetworkUnavailable => PlatformError::NetworkUnavailable,
            PlatformError::PermissionDenied => PlatformError::PermissionDenied,
            PlatformError::SecurityPolicyViolation => PlatformError::SecurityPolicyViolation,
            PlatformError::PlatformSpecific(msg) => PlatformError::PlatformSpecific(msg.clone()),
            PlatformError::ConfigurationError(msg) => PlatformError::ConfigurationError(msg.clone()),
        }
    }
}

impl PlatformError {
    /// What `to_string` writes.
    pub open spec fn spec_text(&self) -> Seq<char> {
        match self {
            PlatformError::NetworkUnavailable => "Network is not available"@,
            PlatformError::PermissionDenied => "Network permission denied"@,
            PlatformError::SecurityPolicyViolation => "Security policy violation"@,
            PlatformError::PlatformSpecific(msg) => "Platform error: "@ + msg@,
            PlatformError::ConfigurationError(msg) => "Configuration error: "@ + msg@,
        }
    }

    /// The refusal in words.
    pub fn to_string(&self) -> (text: String)
        ensures
            text@ == self.spec_text(),
    {
        let mut chars: Vec<char> = Vec::new();
        match self {
            PlatformError::NetworkUnavailable => {
                push_str_chars(&mut chars, "Network is not available");
            },
            PlatformError::PermissionDenied => {
                push_str_chars(&mut chars, "Network permission denied");
            },
            PlatformError::SecurityPolicyViolation => {
                push_str_chars(&mut chars, "Security policy violation");
            },
            PlatformError::PlatformSpecific(msg) => {
                push_str_chars(&mut chars, "Platform error: ");
                push_str_chars(&mut chars, msg.as_str());
            },
            PlatformError::ConfigurationError(msg) => {
                push_str_chars(&mut chars, "Configuration error: ");
                push_str_chars(&mut chars, msg.as_str());
            },
        }
        assert(chars@ =~= self.spec_text());
        string_of(&chars)
    }
}

/// The kinds of platform.
#[derive(Clone, Copy, Debug, PartialEq, Eq, Structural)]
pub enum Platform {
    Android,
    Ios,
    Desktop,
}

/// What is known of the platform that the program runs on.
#[derive(Debug)]
pub struct PlatformInfo {
    pub platform: Platform,
    pub version: String,
    pub supports_cleartext: bool,
    pub network_available: bool,
}

/// The name under which the version of a platform is given: the platform's
/// own name on a phone, the name of the operating system elsewhere.
pub open spec fn platform_version(platform: Platform, os_name: Seq<char>) -> Seq<char> {
    match platform {
        Platform::Android => "Android"@,
        Platform::Ios => "iOS"@,
        Platform::Desktop => os_name,
    }
}

/// The name under which the version of `platform` is given.
pub fn get_platform_version(platform: Platform, os_name: &str) -> (version: String)
    ensures
        version@ == platform_version(platform, os_name@),
{
    match platform {
        Platform::Android => String::from_str("Android"),
        Platform::Ios => String::from_str("iOS"),
        Platform::Desktop => String::from_str(os_name),
    }
}

/// Whether `platform` lets a connection go without encryption: each does, as
/// this program is configured.
pub fn supports_cleartext_traffic(platform: Platform) -> (r: bool)
    ensures
        r,
{
    true
}

/// Whether there is a network: taken to be so.
pub fn is_network_available() -> (r: bool)
    ensures
        r,
{
    true
}

/// Whether `server` is this machine, the emulator's host, or an address of a
/// local network.
pub open spec fn is_local_server(server: Seq<char>) -> bool {
    server == "localhost"@ || server == "127.0.0.1"@ || server == "10.0.2.2"@ || has_prefix(
        server,
        "192.168."@,
    ) || has_prefix(server, "10.0."@)
}

/// Whether `server` is this machine.
pub open spec fn is_loopback_server(server: Seq<char>) -> bool {
    server == "localhost"@ || server == "127.0.0.1"@
}

/// On Android a connection without encryption may go to local servers only.
pub fn validate_android_config(use_tls: bool, server: &str) -> (r: Result<(), PlatformError>)
    ensures
        use_tls || is_local_server(server@) ==> r is Ok,
        !(use_tls || is_local_server(server@)) ==> r matches Err(
            PlatformError::SecurityPolicyViolation,
        ),
{
    if !use_tls {
        let chars = chars_of(server);
        let is_local = str_eq(server, "localhost") || str_eq(server, "127.0.0.1") || str_eq(
            server,
            "10.0.2.2",
        ) || starts_with(&chars, &chars_of("192.168.")) || starts_with(&chars, &chars_of("10.0."));
        if !is_local {
            return Err(PlatformError::SecurityPolicyViolation);
        }
    }
    Ok(())
}

/// On iOS a connection without encryption may go to this machine only.
pub fn validate_ios_config(use_tls: bool, server: &str) -> (r: Result<(), PlatformError>)
    ensures
        use_tls || is_loopback_server(server@) ==> r is Ok,
        !(use_tls || is_loopback_server(server@)) ==> r matches Err(
            PlatformError::SecurityPolicyViolation,
        ),
{
    if !use_tls {
        let is_exception = str_eq(server, "localhost") || str_eq(server, "127.0.0.1");
        if !is_exception {
            return Err(PlatformError::SecurityPolicyViolation);
        }
    }
    Ok(())
}

/// Why the platform described by `info` refuses a connection to `server`,
/// with or without encryption; `None` where it allows it.
pub open spec fn network_fault(info: PlatformInfo, use_tls: bool, server: Seq<char>) -> Option<
    PlatformError,
> {
    if !use_tls && !info.supports_cleartext {
        Some(PlatformError::SecurityPolicyViolation)
    } else if !info.network_available {
        Some(PlatformError::NetworkUnavailable)
    } else if info.platform == Platform::Android && !use_tls && !is_local_server(server) {
        Some(PlatformError::SecurityPolicyViolation)
    } else if info.platform == Platform::Ios && !use_tls && !is_loopback_server(server) {
        Some(PlatformError::SecurityPolicyViolation)
    } else {
        None
    }
}

/// What the user is told about a refusal on `platform`.
pub open spec fn friendly_text(platform: Platform, error: PlatformError) -> Seq<char> {
    match error {
        PlatformError::NetworkUnavailable =>
            "No network connection available. Please check your internet connection."@,
        PlatformError::PermissionDenied =>
            "Network permission denied. Please check app permissions in settings."@,
        PlatformError::SecurityPolicyViolation => match platform {
            Platform::Android =>
                "HTTP connections are not allowed. Please use HTTPS or configure network security policy."@,
            Platform::Ios =>
                "HTTP connections are blocked by App Transport Security. Please use HTTPS or configure ATS exceptions."@,
            Platform::Desktop => "Insecure connections are not allowed by security policy."@,
        },
        PlatformError::PlatformSpecific(msg) => msg@,
        PlatformError::ConfigurationError(msg) => "Configuration error: "@ + msg@,
    }
}

/// The two pieces of advice for `platform`: on the server, on security.
pub open spec fn recommended(platform: Platform) -> Seq<(Seq<char>, Seq<char>)> {
    match platform {
        Platform::Android => seq![
            ("Server"@, "Use 10.0.2.2 for Android emulator or your local IP for device"@),
            ("Security"@, "HTTP is allowed for localhost and local networks only"@),
        ],
        Platform::Ios => seq![
            ("Server"@, "Use localhost or 127.0.0.1 for simulator"@),
            ("Security"@, "HTTP is allowed for localhost only due to ATS"@),
        ],
        Platform::Desktop => seq![
            ("Server"@, "Any server address is supported"@),
            ("Security"@, "Both HTTP and HTTPS are supported"@),
        ],
    }
}

/// The advice for `platform`.
pub fn get_recommended_settings(platform: Platform) -> (out: Vec<(String, String)>)
    ensures
        out@.len() == recommended(platform).len(),
        forall|i: int|
            0 <= i < out@.len() ==> (#[trigger] out@[i]).0@ == recommended(platform)[i].0 && out@[i].1@
                == recommended(platform)[i].1,
{
    let mut recommendations: Vec<(String, String)> = Vec::new();
    match platform {
        Platform::Android => {
            recommendations.push(
                (
                    String::from_str("Server"),
                    String::from_str("Use 10.0.2.2 for Android emulator or your local IP for device"),
                ),
            );
            recommendations.push(
                (
                    String::from_str("Security"),
                    String::from_str("HTTP is allowed for localhost and local networks only"),
                ),
            );
        },
        Platform::Ios => {
            recommendations.push(
                (
                    String::from_str("Server"),
                    String::from_str("Use localhost or 127.0.0.1 for simulator"),
                ),
            );
            recommendations.push(
                (
                    String::from_str("Security"),
                    String::from_str("HTTP is allowed for localhost only due to ATS"),
                ),
            );
        },
        Platform::Desktop => {
            recommendations.push(
                (String::from_str("Server"), String::from_str("Any server address is supported")),
            );
            recommendations.push(
                (String::from_str("Security"), String::from_str("Both HTTP and HTTPS are supported")),
            );
        },
    }
    recommendations
}

/// What the user is told about a failure with the message `message` on
/// `platform`: advice by what the message holds, or the message itself.
pub open spec fn platform_hint(platform: Platform, message: Seq<char>) -> Seq<char> {
    if contains_text(message, "connection refused"@) {
        match platform {
            Platform::Android =>
                "Connection refused. Make sure the server is running and use 10.0.2.2 for Android emulator or your device's IP address."@,
            Platform::Ios =>
                "Connection refused. Make sure the server is running and accessible from the iOS simulator/device."@,
            Platform::Desktop =>
                "Connection refused. Make sure the server is running and accessible."@,
        }
    } else if contains_text(message, "network"@) || contains_text(message, "dns"@) {
        "Network error. Please check your internet connection and server address."@
    } else if contains_text(message, "tls"@) || contains_text(message, "ssl"@) {
        "TLS/SSL error. Please check your security settings and certificate configuration."@
    } else {
        "Error: "@ + message
    }
}

/// What the user is told about a failure with the message `error_message`.
pub fn handle_platform_error(platform: Platform, error_message: &str) -> (hint: String)
    ensures
        hint@ == platform_hint(platform, error_message@),
{
    let message = chars_of(error_message);
    if contains(&message, &chars_of("connection refused")) {
        match platform {
            Platform::Android => String::from_str(
                "Connection refused. Make sure the server is running and use 10.0.2.2 for Android emulator or your device's IP address.",
            ),
            Platform::Ios => String::from_str(
                "Connection refused. Make sure the server is running and accessible from the iOS simulator/device.",
            ),
            Platform::Desktop => String::from_str(
                "Connection refused. Make sure the server is running and accessible.",
            ),
        }
    } else if contains(&message, &chars_of("network")) || contains(&message, &chars_of("dns")) {
        String::from_str("Network error. Please check your internet connection and server address.")
    } else if contains(&message, &chars_of("tls")) || contains(&message, &chars_of("ssl")) {
        String::from_str(
            "TLS/SSL error. Please check your security settings and certificate configuration.",
        )
    } else {
        let mut chars: Vec<char> = Vec::new();
        push_str_chars(&mut chars, "Error: ");
        push_str_chars(&mut chars, error_message);
        assert(chars@ =~= "Error: "@ + error_message@);
        string_of(&chars)
    }
}

/// What of a platform this program can find out and decide.
#[derive(Debug)]
pub struct PlatformManager;

impl PlatformManager {
    /// What is known of `platform`, on an operating system named `os_name`.
    pub fn get_platform_info(platform: Platform, os_name: &str) -> (info: PlatformInfo)
        ensures
            info.platform == platform,
            info.version@ == platform_version(platform, os_name@),
            info.supports_cleartext,
            info.network_available,
    {
        PlatformInfo {
            platform,
            version: get_platform_version(platform, os_name),
            supports_cleartext: supports_cleartext_traffic(platform),
            network_available: is_network_available(),
        }
    }

    /// Whether the platform described by `info` allows a connection to
    /// `server`, with or without encryption.
    pub fn validate_network_config(info: &PlatformInfo, use_tls: bool, server: &str) -> (r: Result<
        (),
        PlatformError,
    >)
        ensures
            match network_fault(*info, use_tls, server@) {
                Some(fault) => r == Err::<(), PlatformError>(fault),
                None => r is Ok,
            },
    {
        if !use_tls && !info.supports_cleartext {
            return Err(PlatformError::SecurityPolicyViolation);
        }
        if !info.network_available {
            return Err(PlatformError::NetworkUnavailable);
        }
        match info.platform {
            Platform::Android => validate_android_config(use_tls, server),
            Platform::Ios => validate_ios_config(use_tls, server),
            Platform::Desktop => Ok(()),
        }
    }

    /// What the user is told about the refusal `error` on `platform`.
    pub fn get_user_friendly_error(platform: Platform, error: &PlatformError) -> (text: String)
        ensures
            text@ == friendly_text(platform, *error),
    {
        match error {
            PlatformError::NetworkUnavailable => String::from_str(
                "No network connection available. Please check your internet connection.",
            ),
            PlatformError::PermissionDenied => String::from_str(
                "Network permission denied. Please check app permissions in settings.",
            ),
            PlatformError::SecurityPolicyViolation => match platform {
                Platform::Android => String::from_str(
                    "HTTP connections are not allowed. Please use HTTPS or configure network security policy.",
                ),
                Platform::Ios => String::from_str(
                    "HTTP connections are blocked by App Transport Security. Please use HTTPS or configure ATS exceptions.",
                ),
                Platform::Desktop => String::from_str(
                    "Insecure connections are not allowed by security policy.",
                ),
            },
            PlatformError::PlatformSpecific(msg) => msg.clone(),
            PlatformError::ConfigurationError(msg) => {
                let mut chars: Vec<char> = Vec::new();
                push_str_chars(&mut chars, "Configuration error: ");
                push_str_chars(&mut chars, msg.as_str());
                assert(chars@ =~= "Configuration error: "@ + msg@);
                string_of(&chars)
            },
        }
    }
}

} // verus!
