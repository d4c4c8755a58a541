//! Connection-manager decisions: the outbound admission rule, the
//! password proof a client sends, the handling of the host's answer, and
//! the event vocabulary. The endpoint, the substreams and the event loop
//! run in the embedding program against these rules.

use vstd::prelude::*;

use crate::discovery::PeerInfo;
use crate::error::{NetworkError, NetworkResult};
use crate::protocol::{Message, MessagePayload, RejectReason};
use crate::security::DeviceId;

verus! {

/// Default service port of the endpoint.
pub const DEFAULT_QUIC_PORT: u16 = 7070;

/// Configuration of the connection manager.
#[derive(Debug, Clone)]
pub struct ManagerConfig {
    /// The local device identifier.
    pub device_id: DeviceId,
    /// The local device name.
    pub device_name: String,
    /// The service port.
    pub service_port: u16,
    /// The configuration directory path.
    pub config_dir: String,
    /// The password hash file path.
    pub password_hash_path: String,
    /// Maximum concurrent connections.
    pub max_connections: usize,
}

impl ManagerConfig {
    /// A manager configuration with the default port and connection cap.
    pub fn new(device_id: DeviceId, device_name: String, config_dir: String) -> (r: ManagerConfig)
        ensures
            r.device_id == device_id,
            r.device_name == device_name,
            r.service_port == DEFAULT_QUIC_PORT,
            r.max_connections == 5,
            r.config_dir@ == config_dir@,
            r.password_hash_path@ == config_dir@ + "/password.hash"@,
    {
        let mut password_hash_path = config_dir.clone();
        password_hash_path.append("/password.hash");
        ManagerConfig {
            device_id,
            device_name,
            service_port: DEFAULT_QUIC_PORT,
            config_dir,
            password_hash_path,
            max_connections: 5,
        }
    }

    /// Sets the service port.
    pub fn with_port(self, port: u16) -> (r: ManagerConfig)
        ensures
            r.service_port == port,
            r.device_id == self.device_id,
            r.max_connections == self.max_connections,
    {
        ManagerConfig { service_port: port, ..self }
    }
}

/// Events the connection manager emits.
#[derive(Debug)]
pub enum ConnectionEvent {
    /// An incoming request awaits the user's consent.
    ConnectionRequest {
        /// The remote device identifier.
        remote_id: DeviceId,
        /// The remote device name.
        remote_name: String,
        /// Whether a password proof came along.
        has_password: bool,
        /// Identifier for answering this request.
        connection_id: u64,
    },
    /// A connection was established.
    Connected {
        /// The remote device identifier.
        remote_id: DeviceId,
    },
    /// A connection closed.
    Disconnected {
        /// The remote device identifier.
        remote_id: DeviceId,
        /// Why it closed.
        reason: String,
    },
    /// A peer appeared on the local network.
    PeerDiscovered {
        /// The peer's record.
        peer_info: PeerInfo,
    },
    /// A peer went away.
    PeerLost {
        /// The peer's device identifier.
        device_id: DeviceId,
    },
}

/// Whether a new outbound connection to `remote_id` is admissible: not to
/// a peer already connected, and not beyond the connection cap.
pub open spec fn outbound_admissible(
    connected_ids: Seq<u32>,
    max_connections: int,
    remote_id: u32,
) -> bool {
    &&& !connected_ids.contains(remote_id)
    &&& connected_ids.len() < max_connections
}

/// Checks the outbound admission rule.
///
/// Refuses a device already connected to, then a full connection table;
/// everything else passes.
pub fn check_outbound(
    connected_ids: &Vec<u32>,
    max_connections: usize,
    remote_id: &DeviceId,
) -> (r: NetworkResult<()>)
    ensures
        r is Ok <==> outbound_admissible(connected_ids@, max_connections as int, remote_id@),
        r matches Err(e) ==> e matches NetworkError::ConnectionFailed(_),
{
    let n = connected_ids.len();
    let mut i: usize = 0;
    while i < n
        invariant
            0 <= i <= n,
            n == connected_ids@.len(),
            forall|j: int| 0 <= j < i ==> connected_ids@[j] != remote_id@,
        decreases n - i,
    {
        if connected_ids[i] == remote_id.as_u32() {
            proof {
                assert(connected_ids@.contains(remote_id@));
            }
            return Err(
                NetworkError::ConnectionFailed(
                    String::from_str("Already connected to this device"),
                ),
            );
        }
        i += 1;
    }
    if connected_ids.len() >= max_connections {
        return Err(
            NetworkError::ConnectionFailed(String::from_str("Maximum connections reached")),
        );
    }
    proof {
        if connected_ids@.contains(remote_id@) {
            let w = choose|w: int|
                0 <= w < connected_ids@.len() && connected_ids@[w] == remote_id@;
        }
    }
    Ok(())
}

/// What the client concludes from the host's answer to its request.
#[derive(Debug)]
pub struct AcceptedHandshake {
    /// The session identifier the host assigned.
    pub session_id: [u8; 16],
    /// The host's device name.
    pub host_name: String,
}

/// The display label of a rejection reason.
pub open spec fn reject_label(reason: RejectReason) -> Seq<char> {
    match reason {
        RejectReason::UserDenied => "UserDenied"@,
        RejectReason::InvalidPassword => "InvalidPassword"@,
        RejectReason::InvalidId => "InvalidId"@,
        RejectReason::AlreadyConnected => "AlreadyConnected"@,
        RejectReason::AccountLocked => "AccountLocked"@,
        RejectReason::UnsupportedVersion => "UnsupportedVersion"@,
    }
}

/// Reads the host's answer to a connection request.
///
/// An acceptance yields the session identifier and host name; a rejection
/// becomes a `ConnectionRejected` error whose text names the reason,
/// followed by the host's explanation when one came; any other message is
/// a protocol error.
pub fn handle_connect_response(response: Message) -> (r: NetworkResult<AcceptedHandshake>)
    ensures
        response.payload matches MessagePayload::ConnectionAccept(a) ==> (r matches Ok(h)
            && h.session_id@ == a.session_id@ && h.host_name@ == a.host_name@),
        response.payload matches MessagePayload::ConnectionReject(rej) ==> (r matches Err(
            NetworkError::ConnectionRejected(m),
        ) && m@ == match rej.message {
            Some(ref t) => reject_label(rej.reason) + ": "@ + t@,
            None => reject_label(rej.reason),
        }),
        !(response.payload matches MessagePayload::ConnectionAccept(_)) && !(
        response.payload matches MessagePayload::ConnectionReject(_)) ==> r matches Err(
            NetworkError::ProtocolError(_),
        ),
{
    match response.payload {
        MessagePayload::ConnectionAccept(accept) => Ok(
            AcceptedHandshake { session_id: accept.session_id, host_name: accept.host_name },
        ),
        MessagePayload::ConnectionReject(reject) => {
            let mut m = reject_reason_label(&reject.reason);
            match reject.message {
                Some(text) => {
                    m.append(": ");
                    m.append(text.as_str());
                },
                None => {},
            }
            Err(NetworkError::ConnectionRejected(m))
        },
        _ => Err(
            NetworkError::ProtocolError(String::from_str("Expected ConnectionAccept message")),
        ),
    }
}

/// The display label of a rejection reason.
pub fn reject_reason_label(reason: &RejectReason) -> (r: String)
    ensures
        r@ == reject_label(*reason),
{
    match reason {
        RejectReason::UserDenied => String::from_str("UserDenied"),
        RejectReason::InvalidPassword => String::from_str("InvalidPassword"),
        RejectReason::InvalidId => String::from_str("InvalidId"),
        RejectReason::AlreadyConnected => String::from_str("AlreadyConnected"),
        RejectReason::AccountLocked => String::from_str("AccountLocked"),
        RejectReason::UnsupportedVersion => String::from_str("UnsupportedVersion"),
    }
}

} // verus!
