//! Host-side admission of incoming connections: what a connection request
//! must satisfy, and the decision taken for each request. The QUIC accept
//! loop runs in the embedding program and asks for each decision here.

use vstd::prelude::*;

use crate::discovery::PeerAddr;
use crate::protocol::{ConnectionRequest, DesktopInfo, RejectReason, CURRENT_PROTOCOL_VERSION};
use crate::security::DeviceId;
use crate::text::{dec_chars, u64_to_string};

verus! {

/// An incoming connection request, as handed to the embedding program.
#[derive(Debug)]
pub struct IncomingConnection {
    /// The remote address.
    pub remote_addr: PeerAddr,
    /// The remote device identifier.
    pub remote_device_id: DeviceId,
    /// The remote device name.
    pub remote_name: String,
    /// Whether a password proof came along.
    pub has_password: bool,
    /// The password proof, when present.
    pub password_hash: Option<[u8; 32]>,
    /// Identifier for answering this request.
    pub connection_id: u64,
}

/// The embedding program's answer to an incoming request.
#[derive(Debug)]
pub enum ConnectionResponse {
    /// Accept the connection.
    Accept {
        /// The host's device name.
        host_name: String,
        /// Facts about the host's desktop.
        desktop_info: DesktopInfo,
    },
    /// Reject the connection.
    Reject {
        /// Why the request is rejected.
        reason: RejectReason,
        /// Optional explanation.
        message: Option<String>,
    },
}

/// The decision taken for one incoming request.
#[derive(Debug)]
pub enum AdmissionDecision {
    /// The request is admissible; queue it for the user's consent.
    Enqueue,
    /// The request is refused with this reason and explanation.
    Refuse(RejectReason, Option<String>),
}

/// Whether a request is admissible: it must speak the current protocol
/// version, name this host, carry a valid client identifier, and carry a
/// password proof whenever the host requires a password.
pub open spec fn request_admissible(
    req: &ConnectionRequest,
    local_id: u32,
    password_required: bool,
) -> bool {
    &&& req.protocol_version == CURRENT_PROTOCOL_VERSION
    &&& req.host_id == local_id
    &&& 100_000_000 <= req.client_id <= 999_999_999
    &&& (password_required ==> req.password_hash is Some)
}

/// Decides an incoming connection request.
///
/// Refuses, in this order: a protocol version other than the current one
/// (`UnsupportedVersion`, naming both versions), a host identifier other
/// than this host (`InvalidId`), a client identifier outside the valid
/// range (`InvalidId`), and a missing password proof when the host
/// requires a password (`InvalidPassword`). Every other request passes.
pub fn evaluate_connection_request(
    req: &ConnectionRequest,
    local_id: &DeviceId,
    password_required: bool,
) -> (r: AdmissionDecision)
    ensures
        (r is Enqueue) <==> request_admissible(req, local_id@, password_required),
        req.protocol_version != CURRENT_PROTOCOL_VERSION ==> (r matches AdmissionDecision::Refuse(
            RejectReason::UnsupportedVersion,
            Some(m),
        ) && m@ == "Expected protocol version "@ + dec_chars(CURRENT_PROTOCOL_VERSION as nat)
            + ", got "@ + dec_chars(req.protocol_version as nat)),
        req.protocol_version == CURRENT_PROTOCOL_VERSION && req.host_id != local_id@ ==> r matches
            AdmissionDecision::Refuse(RejectReason::InvalidId, _),
        req.protocol_version == CURRENT_PROTOCOL_VERSION && req.host_id == local_id@ && !(
        100_000_000 <= req.client_id <= 999_999_999) ==> r matches AdmissionDecision::Refuse(
            RejectReason::InvalidId,
            _,
        ),
        req.protocol_version == CURRENT_PROTOCOL_VERSION && req.host_id == local_id@
            && 100_000_000 <= req.client_id <= 999_999_999 && password_required
            && req.password_hash is None ==> r matches AdmissionDecision::Refuse(
            RejectReason::InvalidPassword,
            _,
        ),
{
    if req.protocol_version != CURRENT_PROTOCOL_VERSION {
        let mut m = String::from_str("Expected protocol version ");
        let cur = u64_to_string(CURRENT_PROTOCOL_VERSION as u64);
        m.append(cur.as_str());
        m.append(", got ");
        let got = u64_to_string(req.protocol_version as u64);
        m.append(got.as_str());
        return AdmissionDecision::Refuse(RejectReason::UnsupportedVersion, Some(m));
    }
    if req.host_id != local_id.as_u32() {
        return AdmissionDecision::Refuse(
            RejectReason::InvalidId,
            Some(String::from_str("Host ID does not match")),
        );
    }
    if req.client_id < 100_000_000 || req.client_id > 999_999_999 {
        return AdmissionDecision::Refuse(
            RejectReason::InvalidId,
            Some(String::from_str("Client ID out of range")),
        );
    }
    if password_required && req.password_hash.is_none() {
        return AdmissionDecision::Refuse(RejectReason::InvalidPassword, None);
    }
    AdmissionDecision::Enqueue
}

} // verus!
