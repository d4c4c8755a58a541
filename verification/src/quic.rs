//! Secure-transport endpoint data: certificate material as plain DER
//! bytes, endpoint configuration, substream identifiers and the transport
//! error vocabulary. The endpoint itself runs in the embedding program.

use vstd::prelude::*;

use crate::discovery::PeerAddr;
use crate::stream::StreamError;

verus! {

/// Seconds of silence after which a connection is torn down.
pub const IDLE_TIMEOUT_SECS: u64 = 30;

/// Seconds between keepalive packets.
pub const KEEP_ALIVE_INTERVAL_SECS: u64 = 5;

/// Maximum concurrent bidirectional substreams.
pub const MAX_CONCURRENT_BIDI_STREAMS: u32 = 10;

/// Maximum concurrent unidirectional substreams.
pub const MAX_CONCURRENT_UNI_STREAMS: u32 = 10;

/// Errors of certificate handling.
#[derive(Debug)]
pub enum CertError {
    /// Generating the certificate failed.
    GenerationFailed(String),
    /// Loading the certificate failed.
    LoadFailed(String),
    /// Saving the certificate failed.
    SaveFailed(String),
    /// The certificate is invalid.
    Invalid(String),
    /// An I/O error from the operating system.
    Io(std::io::Error),
}

/// Result alias over [`CertError`].
pub type CertResult<T> = core::result::Result<T, CertError>;

/// A self-signed identity: one certificate and one private key, both in
/// DER form.
#[derive(Debug)]
pub struct CertPair {
    /// The certificate in DER form.
    pub cert_der: Vec<u8>,
    /// The private key in DER form.
    pub key_der: Vec<u8>,
}

impl CertPair {
    /// Wraps certificate and key bytes.
    pub fn new(cert_der: Vec<u8>, key_der: Vec<u8>) -> (r: CertPair)
        ensures
            r.cert_der == cert_der,
            r.key_der == key_der,
    {
        CertPair { cert_der, key_der }
    }

    /// The certificate bytes.
    pub fn cert_der(&self) -> (r: &Vec<u8>)
        ensures
            r == self.cert_der,
    {
        &self.cert_der
    }

    /// The private key bytes.
    pub fn key_der(&self) -> (r: &Vec<u8>)
        ensures
            r == self.key_der,
    {
        &self.key_der
    }
}

/// Errors of the transport endpoint.
#[derive(Debug)]
pub enum QuicError {
    /// The endpoint could not be created.
    EndpointCreation(String),
    /// The connection could not be established.
    ConnectionFailed(String),
    /// The connection closed.
    ConnectionClosed(String),
    /// A substream failed.
    StreamError(String),
    /// A certificate problem.
    CertificateError(CertError),
    /// An I/O error from the operating system.
    Io(std::io::Error),
}

/// Result alias over [`QuicError`].
pub type QuicResult<T> = core::result::Result<T, QuicError>;

impl From<StreamError> for QuicError {
    fn from(err: StreamError) -> (r: QuicError) {
        QuicError::StreamError(err.message())
    }
}

impl vstd::std_specs::convert::FromSpecImpl<StreamError> for QuicError {
    open spec fn obeys_from_spec() -> bool {
        false
    }

    open spec fn from_spec(err: StreamError) -> QuicError {
        arbitrary()
    }
}

impl From<CertError> for QuicError {
    fn from(err: CertError) -> (r: QuicError) {
        QuicError::CertificateError(err)
    }
}

impl vstd::std_specs::convert::FromSpecImpl<CertError> for QuicError {
    open spec fn obeys_from_spec() -> bool {
        true
    }

    open spec fn from_spec(err: CertError) -> QuicError {
        QuicError::CertificateError(err)
    }
}

/// Configuration of the transport endpoint.
#[derive(Debug)]
pub struct QuicConfig {
    /// The address to bind to.
    pub bind_addr: PeerAddr,
    /// The certificate pair, required to accept connections.
    pub cert_pair: Option<CertPair>,
    /// Seconds of silence after which a connection is torn down.
    pub idle_timeout_secs: u64,
    /// Seconds between keepalive packets.
    pub keep_alive_interval_secs: u64,
}

impl Default for QuicConfig {
    /// Defaults: every interface on the default port, the standard
    /// timeouts, no certificate yet.
    fn default() -> (r: QuicConfig)
        ensures
            r.cert_pair is None,
            r.idle_timeout_secs == IDLE_TIMEOUT_SECS,
            r.keep_alive_interval_secs == KEEP_ALIVE_INTERVAL_SECS,
            r.bind_addr == (PeerAddr::V4 { a: 0, b: 0, c: 0, d: 0, port: 7070 }),
    {
        QuicConfig {
            bind_addr: PeerAddr::V4 { a: 0, b: 0, c: 0, d: 0, port: 7070 },
            cert_pair: None,
            idle_timeout_secs: IDLE_TIMEOUT_SECS,
            keep_alive_interval_secs: KEEP_ALIVE_INTERVAL_SECS,
        }
    }
}

impl QuicConfig {
    /// Sets the bind address.
    pub fn with_bind_addr(self, addr: PeerAddr) -> (r: QuicConfig)
        ensures
            r.bind_addr == addr,
            r.cert_pair == self.cert_pair,
            r.idle_timeout_secs == self.idle_timeout_secs,
    {
        QuicConfig { bind_addr: addr, ..self }
    }

    /// Sets the certificate pair.
    pub fn with_cert_pair(self, cert_pair: CertPair) -> (r: QuicConfig)
        ensures
            r.cert_pair == Some(cert_pair),
            r.bind_addr == self.bind_addr,
    {
        QuicConfig { cert_pair: Some(cert_pair), ..self }
    }

    /// Sets the idle timeout.
    pub fn with_idle_timeout(self, secs: u64) -> (r: QuicConfig)
        ensures
            r.idle_timeout_secs == secs,
            r.bind_addr == self.bind_addr,
    {
        QuicConfig { idle_timeout_secs: secs, ..self }
    }
}

/// The substream roles of a session.
#[derive(Debug, Clone, Copy, PartialEq, Eq, Structural)]
pub enum StreamType {
    /// Control and handshake messages.
    Control,
    /// Video frames, host to client.
    Video,
    /// Input events, client to host.
    Input,
    /// Clipboard synchronization.
    Clipboard,
}

/// The numeric code of each substream role.
pub open spec fn stream_type_code(t: StreamType) -> u8 {
    match t {
        StreamType::Control => 0,
        StreamType::Video => 1,
        StreamType::Input => 2,
        StreamType::Clipboard => 3,
    }
}

impl StreamType {
    /// The substream role with the given code.
    pub fn from_u8(value: u8) -> (r: Option<StreamType>)
        ensures
            r matches Some(t) ==> stream_type_code(t) == value,
            r is None <==> value > 3,
    {
        match value {
            0 => Some(StreamType::Control),
            1 => Some(StreamType::Video),
            2 => Some(StreamType::Input),
            3 => Some(StreamType::Clipboard),
            _ => None,
        }
    }

    /// The numeric code of this substream role.
    pub fn code(&self) -> (r: u8)
        ensures
            r == stream_type_code(*self),
    {
        match self {
            StreamType::Control => 0,
            StreamType::Video => 1,
            StreamType::Input => 2,
            StreamType::Clipboard => 3,
        }
    }
}

} // verus!
