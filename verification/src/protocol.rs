//! Wire protocol messages: the top-level `Message` envelope, its payload
//! variants, and their constructors.

use vstd::prelude::*;

use crate::clock::now_millis;
use crate::security::DeviceId;

verus! {

/// Protocol version spoken by this library.
pub const CURRENT_PROTOCOL_VERSION: u8 = 1;

/// Maximum serialized size of one message, in bytes.
pub const MAX_MESSAGE_SIZE_BYTES: usize = 10_485_760;

/// Message type identifiers.
#[derive(Debug, Clone, Copy, PartialEq, Eq, Structural)]
pub enum MessageType {
    /// A request to open a session.
    ConnectionRequest,
    /// The host accepts a connection request.
    ConnectionAccept,
    /// The host rejects a connection request.
    ConnectionReject,
    /// Graceful disconnect notice.
    Disconnect,
    /// Keepalive carrying a timestamp.
    Heartbeat,
    /// Authentication challenge (reserved).
    AuthChallenge,
    /// Authentication response (reserved).
    AuthResponse,
    /// A captured screen frame.
    ScreenFrame,
    /// A differential screen frame (reserved).
    ScreenFrameDiff,
    /// A keyboard event.
    KeyboardEvent,
    /// A mouse event.
    MouseEvent,
    /// A resolution change notice (reserved).
    ResolutionChange,
    /// A clipboard update (reserved).
    ClipboardUpdate,
    /// A quality adjustment notice (reserved).
    QualityUpdate,
    /// A statistics report (reserved).
    Statistics,
    /// An error report.
    Error,
}

/// Frame encoding format carried on the wire.
#[derive(Debug, Clone, Copy, PartialEq, Eq, Structural)]
pub enum FrameFormat {
    /// JPEG compression.
    Jpeg,
    /// PNG compression (lossless).
    Png,
    /// Raw RGBA, no compression.
    Raw,
}

/// Reason a connection request was rejected.
#[derive(Debug, Clone, Copy, PartialEq, Eq, Structural)]
pub enum RejectReason {
    /// The user declined the request.
    UserDenied,
    /// The password proof was missing or wrong.
    InvalidPassword,
    /// The requested host identifier does not match this host.
    InvalidId,
    /// A connection to this peer already exists.
    AlreadyConnected,
    /// The account is locked after failed attempts.
    AccountLocked,
    /// The peer speaks another protocol version.
    UnsupportedVersion,
}

/// Reason for a disconnect notice.
#[derive(Debug, Clone, Copy, PartialEq, Eq, Structural)]
pub enum DisconnectReason {
    /// The user asked to disconnect.
    UserInitiated,
    /// The session timed out.
    SessionTimeout,
    /// An error ended the session.
    Error,
}

/// Error codes carried in error reports.
#[derive(Debug, Clone, Copy, PartialEq, Eq, Structural)]
pub enum ErrorCode {
    /// An unclassified error.
    UnknownError,
    /// The peer violated the protocol.
    ProtocolViolation,
    /// The message type is not supported.
    UnsupportedMessage,
    /// The payload could not be understood.
    InvalidPayload,
    /// The operation is not permitted.
    PermissionDenied,
    /// A resource limit was reached.
    ResourceExhausted,
}

/// Capabilities a peer may offer or request.
#[derive(Debug, Clone, Copy, PartialEq, Eq, Structural)]
pub enum Capability {
    /// Remote desktop control.
    RemoteControl,
    /// Clipboard synchronization.
    ClipboardSync,
    /// File transfer (reserved).
    FileTransfer,
}

/// Basic facts about the host's desktop.
#[derive(Debug, Clone, PartialEq, Eq, Structural)]
pub struct DesktopInfo {
    /// Screen width in pixels.
    pub screen_width: u16,
    /// Screen height in pixels.
    pub screen_height: u16,
    /// Number of screens.
    pub screen_count: u8,
}

/// A request to open a session with a host.
#[derive(Debug, Clone)]
pub struct ConnectionRequest {
    /// Protocol version of the client.
    pub protocol_version: u8,
    /// The client's device identifier.
    pub client_id: u32,
    /// The client's device name.
    pub client_name: String,
    /// The host's device identifier, for the host to verify.
    pub host_id: u32,
    /// Password proof, present when the host requires a password.
    pub password_hash: Option<[u8; 32]>,
    /// Capabilities the client asks for.
    pub requested_capabilities: Vec<Capability>,
}

/// The host's acceptance of a connection request.
#[derive(Debug, Clone)]
pub struct ConnectionAccept {
    /// Fresh random session identifier.
    pub session_id: [u8; 16],
    /// The host's device name.
    pub host_name: String,
    /// Capabilities the host offers.
    pub host_capabilities: Vec<Capability>,
    /// Facts about the host's desktop.
    pub desktop_info: DesktopInfo,
}

/// The host's rejection of a connection request.
#[derive(Debug, Clone)]
pub struct ConnectionReject {
    /// Why the request was rejected.
    pub reason: RejectReason,
    /// Optional human-readable explanation.
    pub message: Option<String>,
}

/// Graceful disconnect notice.
#[derive(Debug, Clone)]
pub struct Disconnect {
    /// Why the session ends.
    pub reason: DisconnectReason,
}

/// Keepalive message.
#[derive(Debug, Clone)]
pub struct Heartbeat {
    /// Wall-clock milliseconds when the heartbeat was sent.
    pub timestamp: u64,
}

/// Error report sent to the peer.
#[derive(Debug, Clone)]
pub struct ErrorMessage {
    /// Classification of the error.
    pub error_code: ErrorCode,
    /// Human-readable message.
    pub message: String,
}

/// One captured screen frame on the wire.
#[derive(Debug, Clone)]
pub struct ScreenFrameData {
    /// Monotonic frame sequence number.
    pub sequence: u64,
    /// Frame width in pixels.
    pub width: u32,
    /// Frame height in pixels.
    pub height: u32,
    /// Encoding of `data`.
    pub format: FrameFormat,
    /// Encoded frame bytes.
    pub data: Vec<u8>,
    /// Wall-clock milliseconds when the frame was captured.
    pub timestamp: u64,
}

/// Keyboard press or release.
#[derive(Debug, Clone, Copy, PartialEq, Eq, Structural)]
pub enum KeyboardEventTypeData {
    /// A key went down.
    KeyPress,
    /// A key came up.
    KeyRelease,
}

/// One keyboard event on the wire.
#[derive(Debug, Clone)]
pub struct KeyboardEventData {
    /// Press or release.
    pub event_type: KeyboardEventTypeData,
    /// Platform-neutral key code.
    pub key: u16,
    /// Wall-clock milliseconds when the event occurred.
    pub timestamp: u64,
}

/// The shapes a mouse event can take on the wire.
#[derive(Debug, Clone, PartialEq, Eq, Structural)]
pub enum MouseEventTypeData {
    /// The pointer moved to an absolute position.
    Move {
        /// X coordinate in remote-screen space.
        x: i32,
        /// Y coordinate in remote-screen space.
        y: i32,
    },
    /// A button went down.
    ButtonPress {
        /// Button identifier.
        button: u8,
    },
    /// A button came up.
    ButtonRelease {
        /// Button identifier.
        button: u8,
    },
    /// The wheel scrolled.
    Wheel {
        /// Horizontal scroll delta.
        delta_x: i32,
        /// Vertical scroll delta.
        delta_y: i32,
    },
}

/// One mouse event on the wire.
#[derive(Debug, Clone)]
pub struct MouseEventData {
    /// The event's shape and coordinates.
    pub event_type: MouseEventTypeData,
    /// Wall-clock milliseconds when the event occurred.
    pub timestamp: u64,
}

/// The payload of a message, tagged by variant.
#[derive(Debug, Clone)]
pub enum MessagePayload {
    /// A request to open a session.
    ConnectionRequest(ConnectionRequest),
    /// The host accepts.
    ConnectionAccept(ConnectionAccept),
    /// The host rejects.
    ConnectionReject(ConnectionReject),
    /// Graceful disconnect notice.
    Disconnect(Disconnect),
    /// Keepalive.
    Heartbeat(Heartbeat),
    /// Error report.
    Error(ErrorMessage),
    /// A captured screen frame.
    ScreenFrame(ScreenFrameData),
    /// A keyboard event.
    KeyboardEvent(KeyboardEventData),
    /// A mouse event.
    MouseEvent(MouseEventData),
}

/// Top-level protocol unit.
#[derive(Debug, Clone)]
pub struct Message {
    /// Random identifier for request/response matching.
    pub message_id: u32,
    /// Type tag of the message.
    pub message_type: MessageType,
    /// The payload.
    pub payload: MessagePayload,
}

/// Mathematical model of a connection request.
pub struct ConnectionRequestView {
    /// Protocol version of the client.
    pub protocol_version: u8,
    /// The client's device identifier.
    pub client_id: u32,
    /// The client's device name.
    pub client_name: Seq<char>,
    /// The host's device identifier.
    pub host_id: u32,
    /// Password proof bytes, when present.
    pub password_hash: Option<Seq<u8>>,
    /// Capabilities the client asks for.
    pub requested_capabilities: Seq<Capability>,
}

/// Mathematical model of a connection acceptance.
pub struct ConnectionAcceptView {
    /// Session identifier bytes.
    pub session_id: Seq<u8>,
    /// The host's device name.
    pub host_name: Seq<char>,
    /// Capabilities the host offers.
    pub host_capabilities: Seq<Capability>,
    /// Facts about the host's desktop.
    pub desktop_info: DesktopInfo,
}

/// Mathematical model of a connection rejection.
pub struct ConnectionRejectView {
    /// Why the request was rejected.
    pub reason: RejectReason,
    /// Optional explanation.
    pub message: Option<Seq<char>>,
}

/// Mathematical model of an error report.
pub struct ErrorMessageView {
    /// Classification of the error.
    pub error_code: ErrorCode,
    /// Message text.
    pub message: Seq<char>,
}

/// Mathematical model of a screen frame message.
pub struct ScreenFrameDataView {
    /// Monotonic frame sequence number.
    pub sequence: u64,
    /// Frame width in pixels.
    pub width: u32,
    /// Frame height in pixels.
    pub height: u32,
    /// Encoding of `data`.
    pub format: FrameFormat,
    /// Encoded frame bytes.
    pub data: Seq<u8>,
    /// Capture timestamp in milliseconds.
    pub timestamp: u64,
}

/// Mathematical model of a message payload.
pub enum MessagePayloadView {
    /// A request to open a session.
    ConnectionRequest(ConnectionRequestView),
    /// The host accepts.
    ConnectionAccept(ConnectionAcceptView),
    /// The host rejects.
    ConnectionReject(ConnectionRejectView),
    /// Graceful disconnect notice.
    Disconnect(Disconnect),
    /// Keepalive.
    Heartbeat(Heartbeat),
    /// Error report.
    Error(ErrorMessageView),
    /// A captured screen frame.
    ScreenFrame(ScreenFrameDataView),
    /// A keyboard event.
    KeyboardEvent(KeyboardEventData),
    /// A mouse event.
    MouseEvent(MouseEventData),
}

/// Mathematical model of a message.
pub struct MessageView {
    /// Random identifier for request/response matching.
    pub message_id: u32,
    /// Type tag of the message.
    pub message_type: MessageType,
    /// The payload.
    pub payload: MessagePayloadView,
}

impl View for ConnectionRequest {
    type V = ConnectionRequestView;

    open spec fn view(&self) -> ConnectionRequestView {
        ConnectionRequestView {
            protocol_version: self.protocol_version,
            client_id: self.client_id,
            client_name: self.client_name@,
            host_id: self.host_id,
            password_hash: match self.password_hash {
                Some(h) => Some(h@),
                None => None,
            },
            requested_capabilities: self.requested_capabilities@,
        }
    }
}

impl View for ConnectionAccept {
    type V = ConnectionAcceptView;

    open spec fn view(&self) -> ConnectionAcceptView {
        ConnectionAcceptView {
            session_id: self.session_id@,
            host_name: self.host_name@,
            host_capabilities: self.host_capabilities@,
            desktop_info: self.desktop_info,
        }
    }
}

impl View for ConnectionReject {
    type V = ConnectionRejectView;

    open spec fn view(&self) -> ConnectionRejectView {
        ConnectionRejectView {
            reason: self.reason,
            message: match self.message {
                Some(ref m) => Some(m@),
                None => None,
            },
        }
    }
}

impl View for ErrorMessage {
    type V = ErrorMessageView;

    open spec fn view(&self) -> ErrorMessageView {
        ErrorMessageView { error_code: self.error_code, message: self.message@ }
    }
}

impl View for ScreenFrameData {
    type V = ScreenFrameDataView;

    open spec fn view(&self) -> ScreenFrameDataView {
        ScreenFrameDataView {
            sequence: self.sequence,
            width: self.width,
            height: self.height,
            format: self.format,
            data: self.data@,
            timestamp: self.timestamp,
        }
    }
}

impl View for MessagePayload {
    type V = MessagePayloadView;

    open spec fn view(&self) -> MessagePayloadView {
        match self {
            MessagePayload::ConnectionRequest(x) => MessagePayloadView::ConnectionRequest(x@),
            MessagePayload::ConnectionAccept(x) => MessagePayloadView::ConnectionAccept(x@),
            MessagePayload::ConnectionReject(x) => MessagePayloadView::ConnectionReject(x@),
            MessagePayload::Disconnect(x) => MessagePayloadView::Disconnect(*x),
            MessagePayload::Heartbeat(x) => MessagePayloadView::Heartbeat(*x),
            MessagePayload::Error(x) => MessagePayloadView::Error(x@),
            MessagePayload::ScreenFrame(x) => MessagePayloadView::ScreenFrame(x@),
            MessagePayload::KeyboardEvent(x) => MessagePayloadView::KeyboardEvent(*x),
            MessagePayload::MouseEvent(x) => MessagePayloadView::MouseEvent(*x),
        }
    }
}

impl View for Message {
    type V = MessageView;

    open spec fn view(&self) -> MessageView {
        MessageView {
            message_id: self.message_id,
            message_type: self.message_type,
            payload: self.payload@,
        }
    }
}

/// Relies on rand's `random`: a uniformly chosen 32-bit value.
#[verifier::external_body]
fn random_u32() -> u32 {
    rand::random()
}

/// Relies on rand's `fill` on a thread-local generator: sixteen random bytes.
#[verifier::external_body]
fn random_session_id() -> [u8; 16] {
    let mut session_id = [0u8; 16];
    rand::Rng::fill(&mut rand::thread_rng(), &mut session_id[..]);
    session_id
}

impl Message {
    /// Builds a message with a fresh random identifier.
    pub fn new(message_type: MessageType, payload: MessagePayload) -> (r: Message)
        ensures
            r.message_type == message_type,
            r.payload == payload,
    {
        Message { message_id: random_u32(), message_type, payload }
    }

    /// Reports whether a serialized message of `size` bytes is acceptable.
    pub fn validate_size(size: usize) -> (r: bool)
        ensures
            r == (size <= MAX_MESSAGE_SIZE_BYTES),
    {
        size <= MAX_MESSAGE_SIZE_BYTES
    }
}

impl ConnectionRequest {
    /// Builds a connection request at the current protocol version, asking
    /// for remote control and clipboard synchronization.
    pub fn new(
        client_id: DeviceId,
        client_name: String,
        host_id: DeviceId,
        password_hash: Option<[u8; 32]>,
    ) -> (r: ConnectionRequest)
        ensures
            r.protocol_version == CURRENT_PROTOCOL_VERSION,
            r.client_id == client_id@,
            r.client_name == client_name,
            r.host_id == host_id@,
            r.password_hash == password_hash,
            r.requested_capabilities@ =~= seq![Capability::RemoteControl, Capability::ClipboardSync],
    {
        let mut requested_capabilities: Vec<Capability> = Vec::new();
        requested_capabilities.push(Capability::RemoteControl);
        requested_capabilities.push(Capability::ClipboardSync);
        ConnectionRequest {
            protocol_version: CURRENT_PROTOCOL_VERSION,
            client_id: client_id.as_u32(),
            client_name,
            host_id: host_id.as_u32(),
            password_hash,
            requested_capabilities,
        }
    }
}

impl ConnectionAccept {
    /// Builds an acceptance with a fresh random session identifier, offering
    /// remote control and clipboard synchronization.
    pub fn new(host_name: String, desktop_info: DesktopInfo) -> (r: ConnectionAccept)
        ensures
            r.host_name == host_name,
            r.desktop_info == desktop_info,
            r.host_capabilities@ =~= seq![Capability::RemoteControl, Capability::ClipboardSync],
    {
        let mut host_capabilities: Vec<Capability> = Vec::new();
        host_capabilities.push(Capability::RemoteControl);
        host_capabilities.push(Capability::ClipboardSync);
        ConnectionAccept {
            session_id: random_session_id(),
            host_name,
            host_capabilities,
            desktop_info,
        }
    }
}

impl ConnectionReject {
    /// Builds a rejection.
    pub fn new(reason: RejectReason, message: Option<String>) -> (r: ConnectionReject)
        ensures
            r.reason == reason,
            r.message == message,
    {
        ConnectionReject { reason, message }
    }
}

impl Disconnect {
    /// Builds a disconnect notice.
    pub fn new(reason: DisconnectReason) -> (r: Disconnect)
        ensures
            r.reason == reason,
    {
        Disconnect { reason }
    }
}

impl Heartbeat {
    /// Builds a heartbeat stamped with the current wall clock.
    pub fn new() -> Heartbeat {
        Heartbeat { timestamp: now_millis() }
    }
}

impl Default for Heartbeat {
    fn default() -> Heartbeat {
        Heartbeat::new()
    }
}

impl ErrorMessage {
    /// Builds an error report.
    pub fn new(error_code: ErrorCode, message: String) -> (r: ErrorMessage)
        ensures
            r.error_code == error_code,
            r.message == message,
    {
        ErrorMessage { error_code, message }
    }
}

impl DesktopInfo {
    /// Facts about the current desktop. Screen probing is left to the
    /// embedding program; this reports a common default.
    pub fn current() -> (r: DesktopInfo)
        ensures
            r.screen_width == 1920 && r.screen_height == 1080 && r.screen_count == 1,
    {
        DesktopInfo { screen_width: 1920, screen_height: 1080, screen_count: 1 }
    }
}

impl ScreenFrameData {
    /// Builds a screen frame message stamped with the current wall clock.
    pub fn new(sequence: u64, width: u32, height: u32, format: FrameFormat, data: Vec<u8>) -> (r:
        ScreenFrameData)
        ensures
            r.sequence == sequence,
            r.width == width,
            r.height == height,
            r.format == format,
            r.data == data,
    {
        ScreenFrameData { sequence, width, height, format, data, timestamp: now_millis() }
    }
}

impl KeyboardEventData {
    /// Builds a keyboard event message stamped with the current wall clock.
    pub fn new(event_type: KeyboardEventTypeData, key: u16) -> (r: KeyboardEventData)
        ensures
            r.event_type == event_type,
            r.key == key,
    {
        KeyboardEventData { event_type, key, timestamp: now_millis() }
    }
}

impl MouseEventData {
    /// Builds a mouse event message stamped with the current wall clock.
    pub fn new(event_type: MouseEventTypeData) -> (r: MouseEventData)
        ensures
            r.event_type == event_type,
    {
        MouseEventData { event_type, timestamp: now_millis() }
    }

    /// A pointer move to an absolute position.
    pub fn move_to(x: i32, y: i32) -> (r: MouseEventData)
        ensures
            r.event_type == (MouseEventTypeData::Move { x, y }),
    {
        MouseEventData::new(MouseEventTypeData::Move { x, y })
    }

    /// A button press.
    pub fn button_press(button: u8) -> (r: MouseEventData)
        ensures
            r.event_type == (MouseEventTypeData::ButtonPress { button }),
    {
        MouseEventData::new(MouseEventTypeData::ButtonPress { button })
    }

    /// A button release.
    pub fn button_release(button: u8) -> (r: MouseEventData)
        ensures
            r.event_type == (MouseEventTypeData::ButtonRelease { button }),
    {
        MouseEventData::new(MouseEventTypeData::ButtonRelease { button })
    }

    /// A wheel scroll.
    pub fn wheel(delta_x: i32, delta_y: i32) -> (r: MouseEventData)
        ensures
            r.event_type == (MouseEventTypeData::Wheel { delta_x, delta_y }),
    {
        MouseEventData::new(MouseEventTypeData::Wheel { delta_x, delta_y })
    }
}

} // verus!
