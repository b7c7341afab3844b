//! Error type for Remapper operations.
use vstd::prelude::*;
use vstd::string::*;

verus! {

/// Main error type for Remapper operations. Errors that come from the
/// operating system or from an outside library carry their message.
#[derive(Debug)]
pub enum RemapperError {
    /// Device not found at path or with given name
    DeviceNotFound(String),
    /// Permission denied accessing device
    PermissionDenied(String),
    /// Failed to grab exclusive access to device
    GrabFailed(String),
    /// Failed to release device grab
    UngrabFailed(String),
    /// Configuration file error
    ConfigError(String),
    /// Configuration file not found
    ConfigNotFound { path: String },
    /// Failed to parse configuration
    ConfigParseError(String),
    /// Profile not found
    ProfileNotFound(String),
    /// Profile already exists
    ProfileExists(String),
    /// Invalid mapping configuration
    InvalidMapping(String),
    /// Virtual device creation failed
    UInputCreationFailed(String),
    /// Event read error
    EventReadError(String),
    /// Event write error
    EventWriteError(String),
    /// Engine already running
    EngineAlreadyRunning(String),
    /// Engine not running
    EngineNotRunning(String),
    /// IO error, with the system's message
    IoError(String),
    /// JSON serialization/deserialization error, with the parser's message
    JsonError(String),
    /// Platform-specific library error
    PlatformError(String),
    /// System error with errno, with the system's message
    SystemError(String),
    /// Channel send error
    ChannelError,
    /// Timeout waiting for operation
    Timeout(String),
    /// Feature not supported
    NotSupported(String),
}

/// The message that an error shows.
pub open spec fn error_text(e: RemapperError) -> Seq<char> {
    match e {
        RemapperError::DeviceNotFound(s) => "Device not found: "@ + s@,
        RemapperError::PermissionDenied(s) => "Permission denied: "@ + s@
            + ". Try running with sudo or add user to 'input' group"@,
        RemapperError::GrabFailed(s) => "Failed to grab device: "@ + s@,
        RemapperError::UngrabFailed(s) => "Failed to ungrab device: "@ + s@,
        RemapperError::ConfigError(s) => "Configuration error: "@ + s@,
        RemapperError::ConfigNotFound { path } => "Configuration file not found: "@ + path@,
        RemapperError::ConfigParseError(s) => "Failed to parse configuration: "@ + s@,
        RemapperError::ProfileNotFound(s) => "Profile not found: "@ + s@,
        RemapperError::ProfileExists(s) => "Profile already exists: "@ + s@,
        RemapperError::InvalidMapping(s) => "Invalid mapping: "@ + s@,
        RemapperError::UInputCreationFailed(s) => "Failed to create virtual device: "@ + s@,
        RemapperError::EventReadError(s) => "Failed to read event: "@ + s@,
        RemapperError::EventWriteError(s) => "Failed to write event: "@ + s@,
        RemapperError::EngineAlreadyRunning(s) => "Engine already running: "@ + s@,
        RemapperError::EngineNotRunning(s) => "Engine not running: "@ + s@,
        RemapperError::IoError(s) => "IO error: "@ + s@,
        RemapperError::JsonError(s) => "JSON error: "@ + s@,
        RemapperError::PlatformError(s) => "Platform error: "@ + s@,
        RemapperError::SystemError(s) => "System error: "@ + s@,
        RemapperError::ChannelError => "Channel error: failed to send message"@,
        RemapperError::Timeout(s) => "Operation timed out: "@ + s@,
        RemapperError::NotSupported(s) => "Not supported: "@ + s@,
    }
}

/// `prefix` followed by `s`.
fn prefixed(prefix: &str, s: &String) -> (r: String)
    ensures
        r@ == prefix@ + s@,
{
    let mut r = String::from_str(prefix);
    r.append(s.as_str());
    r
}

impl RemapperError {
    /// The message that the error shows.
    pub fn to_string(&self) -> (r: String)
        ensures
            r@ == error_text(*self),
    {
        match self {
            RemapperError::DeviceNotFound(s) => prefixed("Device not found: ", s),
            RemapperError::PermissionDenied(s) => {
                let mut r = prefixed("Permission denied: ", s);
                r.append(". Try running with sudo or add user to 'input' group");
                r
            },
            RemapperError::GrabFailed(s) => prefixed("Failed to grab device: ", s),
            RemapperError::UngrabFailed(s) => prefixed("Failed to ungrab device: ", s),
            RemapperError::ConfigError(s) => prefixed("Configuration error: ", s),
            RemapperError::ConfigNotFound { path } => prefixed(
                "Configuration file not found: ",
                path,
            ),
            RemapperError::ConfigParseError(s) => prefixed("Failed to parse configuration: ", s),
            RemapperError::ProfileNotFound(s) => prefixed("Profile not found: ", s),
            RemapperError::ProfileExists(s) => prefixed("Profile already exists: ", s),
            RemapperError::InvalidMapping(s) => prefixed("Invalid mapping: ", s),
            RemapperError::UInputCreationFailed(s) => prefixed(
                "Failed to create virtual device: ",
                s,
            ),
            RemapperError::EventReadError(s) => prefixed("Failed to read event: ", s),
            RemapperError::EventWriteError(s) => prefixed("Failed to write event: ", s),
            RemapperError::EngineAlreadyRunning(s) => prefixed("Engine already running: ", s),
            RemapperError::EngineNotRunning(s) => prefixed("Engine not running: ", s),
            RemapperError::IoError(s) => prefixed("IO error: ", s),
            RemapperError::JsonError(s) => prefixed("JSON error: ", s),
            RemapperError::PlatformError(s) => prefixed("Platform error: ", s),
            RemapperError::SystemError(s) => prefixed("System error: ", s),
            RemapperError::ChannelError => String::from_str("Channel error: failed to send message"),
            RemapperError::Timeout(s) => prefixed("Operation timed out: ", s),
            RemapperError::NotSupported(s) => prefixed("Not supported: ", s),
        }
    }
}

} // verus!
