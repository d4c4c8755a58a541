//! Error types used throughout the library, one enum per subsystem, with a
//! single top-level error that the public operations return.

use vstd::prelude::*;

use crate::text::{dec_chars, u64_to_string};

verus! {

/// Declares the standard I/O error type so values of it can be carried
/// through the library's own error enums.
#[verifier::external_type_specification]
#[verifier::external_body]
pub struct ExIoError(std::io::Error);

/// Configuration-related errors.
#[derive(Debug)]
pub enum ConfigError {
    /// The configuration file could not be read or parsed.
    LoadFailed(String),
    /// The configuration file could not be written.
    SaveFailed(String),
    /// A configuration value is outside its allowed range.
    InvalidValue(String),
    /// The per-user configuration directory could not be determined.
    DirectoryNotFound(String),
    /// The configuration directory could not be created.
    DirectoryCreationFailed(String),
}

/// Security and authentication errors.
#[derive(Debug)]
pub enum SecurityError {
    /// Authentication failed for the given reason.
    AuthenticationFailed(String),
    /// A device identifier was malformed or out of range.
    InvalidDeviceId(String),
    /// A password did not match the stored hash.
    PasswordVerificationFailed,
    /// A password was shorter than the minimum length.
    PasswordTooShort {
        /// The minimum accepted length.
        min: usize,
    },
    /// A password was longer than the maximum length.
    PasswordTooLong {
        /// The maximum accepted length.
        max: usize,
    },
    /// The account is locked after too many failed attempts.
    AccountLocked,
    /// Too many attempts in a short window.
    RateLimitExceeded,
    /// A hashing or encryption operation failed.
    EncryptionError(String),
    /// A decryption operation failed.
    DecryptionError(String),
}

/// Network-related errors.
#[derive(Debug)]
pub enum NetworkError {
    /// The connection could not be established.
    ConnectionFailed(String),
    /// The operation timed out after the given number of milliseconds.
    Timeout(u64),
    /// The peer rejected the connection.
    ConnectionRejected(String),
    /// A peer identifier was invalid.
    InvalidPeerId(String),
    /// The peer violated the protocol.
    ProtocolError(String),
    /// A message did not follow the wire format.
    InvalidMessageFormat,
    /// The connection was closed.
    Disconnected(String),
}

/// Session lifecycle errors.
#[derive(Debug)]
pub enum SessionError {
    /// A state transition outside the allowed edges was requested.
    InvalidStateTransition {
        /// Label of the state the machine was in.
        from: String,
        /// Label of the state that was requested.
        to: String,
    },
    /// A session with this identifier already exists.
    SessionAlreadyExists(String),
    /// No session with this identifier exists.
    SessionNotFound(String),
    /// A single input event could not be simulated.
    InputError(String),
    /// A received frame could not be decoded.
    FrameDecodeError(String),
    /// The underlying channel was closed.
    ChannelClosed,
}

/// Top-level error for the application's public operations.
#[derive(Debug)]
pub enum RemoteDeskError {
    /// A configuration error.
    Config(ConfigError),
    /// A security error.
    Security(SecurityError),
    /// A network error.
    Network(NetworkError),
    /// An I/O error from the operating system.
    Io(std::io::Error),
    /// A serialization error.
    Serialization(String),
    /// A generic error with context.
    Generic(String),
}

/// Result alias over [`RemoteDeskError`].
pub type Result<T> = core::result::Result<T, RemoteDeskError>;

/// Result alias over [`ConfigError`].
pub type ConfigResult<T> = core::result::Result<T, ConfigError>;

/// Result alias over [`SecurityError`].
pub type SecurityResult<T> = core::result::Result<T, SecurityError>;

/// Result alias over [`NetworkError`].
pub type NetworkResult<T> = core::result::Result<T, NetworkError>;

/// Result alias over [`SessionError`].
pub type SessionResult<T> = core::result::Result<T, SessionError>;

/// The message text of a security error.
pub open spec fn security_error_message(e: &SecurityError) -> Seq<char> {
    match e {
        SecurityError::AuthenticationFailed(s) => "Authentication failed: "@ + s@,
        SecurityError::InvalidDeviceId(s) => "Invalid device ID: "@ + s@,
        SecurityError::PasswordVerificationFailed => "Password hash verification failed"@,
        SecurityError::PasswordTooShort { min } => "Password is too short (minimum "@ + dec_chars(
            *min as nat,
        ) + " characters)"@,
        SecurityError::PasswordTooLong { max } => "Password is too long (maximum "@ + dec_chars(
            *max as nat,
        ) + " characters)"@,
        SecurityError::AccountLocked => "Account is locked due to too many failed attempts"@,
        SecurityError::RateLimitExceeded => "Rate limit exceeded"@,
        SecurityError::EncryptionError(s) => "Encryption error: "@ + s@,
        SecurityError::DecryptionError(s) => "Decryption error: "@ + s@,
    }
}

impl SecurityError {
    /// Renders the error as human-readable text.
    pub fn message(&self) -> (r: String)
        ensures
            r@ == security_error_message(self),
    {
        match self {
            SecurityError::AuthenticationFailed(s) => {
                let mut m = String::from_str("Authentication failed: ");
                m.append(s.as_str());
                m
            },
            SecurityError::InvalidDeviceId(s) => {
                let mut m = String::from_str("Invalid device ID: ");
                m.append(s.as_str());
                m
            },
            SecurityError::PasswordVerificationFailed => {
                String::from_str("Password hash verification failed")
            },
            SecurityError::PasswordTooShort { min } => {
                let mut m = String::from_str("Password is too short (minimum ");
                let n = u64_to_string(*min as u64);
                m.append(n.as_str());
                m.append(" characters)");
                m
            },
            SecurityError::PasswordTooLong { max } => {
                let mut m = String::from_str("Password is too long (maximum ");
                let n = u64_to_string(*max as u64);
                m.append(n.as_str());
                m.append(" characters)");
                m
            },
            SecurityError::AccountLocked => {
                String::from_str("Account is locked due to too many failed attempts")
            },
            SecurityError::RateLimitExceeded => String::from_str("Rate limit exceeded"),
            SecurityError::EncryptionError(s) => {
                let mut m = String::from_str("Encryption error: ");
                m.append(s.as_str());
                m
            },
            SecurityError::DecryptionError(s) => {
                let mut m = String::from_str("Decryption error: ");
                m.append(s.as_str());
                m
            },
        }
    }
}

impl From<ConfigError> for RemoteDeskError {
    fn from(err: ConfigError) -> (r: RemoteDeskError) {
        RemoteDeskError::Config(err)
    }
}

impl vstd::std_specs::convert::FromSpecImpl<ConfigError> for RemoteDeskError {
    open spec fn obeys_from_spec() -> bool {
        true
    }

    open spec fn from_spec(err: ConfigError) -> RemoteDeskError {
        RemoteDeskError::Config(err)
    }
}

impl From<SecurityError> for RemoteDeskError {
    fn from(err: SecurityError) -> (r: RemoteDeskError) {
        RemoteDeskError::Security(err)
    }
}

impl vstd::std_specs::convert::FromSpecImpl<SecurityError> for RemoteDeskError {
    open spec fn obeys_from_spec() -> bool {
        true
    }

    open spec fn from_spec(err: SecurityError) -> RemoteDeskError {
        RemoteDeskError::Security(err)
    }
}

impl From<NetworkError> for RemoteDeskError {
    fn from(err: NetworkError) -> (r: RemoteDeskError) {
        RemoteDeskError::Network(err)
    }
}

impl vstd::std_specs::convert::FromSpecImpl<NetworkError> for RemoteDeskError {
    open spec fn obeys_from_spec() -> bool {
        true
    }

    open spec fn from_spec(err: NetworkError) -> RemoteDeskError {
        RemoteDeskError::Network(err)
    }
}

impl From<std::io::Error> for RemoteDeskError {
    fn from(err: std::io::Error) -> (r: RemoteDeskError) {
        RemoteDeskError::Io(err)
    }
}

impl vstd::std_specs::convert::FromSpecImpl<std::io::Error> for RemoteDeskError {
    open spec fn obeys_from_spec() -> bool {
        true
    }

    open spec fn from_spec(err: std::io::Error) -> RemoteDeskError {
        RemoteDeskError::Io(err)
    }
}

impl From<SecurityError> for NetworkError {
    fn from(err: SecurityError) -> (r: NetworkError) {
        NetworkError::ProtocolError(err.message())
    }
}

impl vstd::std_specs::convert::FromSpecImpl<SecurityError> for NetworkError {
    open spec fn obeys_from_spec() -> bool {
        false
    }

    open spec fn from_spec(err: SecurityError) -> NetworkError {
        arbitrary()
    }
}

} // verus!
