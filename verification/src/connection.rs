//! Per-connection state: role, lifecycle state, identity facts, heartbeat
//! bookkeeping, and traffic statistics.

use vstd::prelude::*;

use crate::clock::now_millis;
use crate::discovery::PeerAddr;
use crate::security::DeviceId;

verus! {

/// Seconds between heartbeats.
pub const HEARTBEAT_INTERVAL_SECS: u64 = 5;

/// Seconds of heartbeat silence after which a connection is suspect.
pub const HEARTBEAT_TIMEOUT_SECS: u64 = 15;

/// Lifecycle state of one connection.
#[derive(Debug, Clone, Copy, PartialEq, Eq, Structural)]
pub enum ConnectionState {
    /// Not connected.
    Disconnected,
    /// Attempting to connect.
    Connecting,
    /// Connected and authenticated.
    Connected,
    /// Being closed.
    Disconnecting,
    /// Failed to connect.
    Failed,
}

impl ConnectionState {
    /// The display label of the state.
    pub fn label(&self) -> String {
        match self {
            ConnectionState::Disconnected => String::from_str("Disconnected"),
            ConnectionState::Connecting => String::from_str("Connecting"),
            ConnectionState::Connected => String::from_str("Connected"),
            ConnectionState::Disconnecting => String::from_str("Disconnecting"),
            ConnectionState::Failed => String::from_str("Failed"),
        }
    }
}

/// Which side of the connection this device is.
#[derive(Debug, Clone, Copy, PartialEq, Eq, Structural)]
pub enum ConnectionRole {
    /// This device initiated the connection.
    Client,
    /// This device received the connection.
    Host,
}

impl ConnectionRole {
    /// The display label of the role.
    pub fn label(&self) -> String {
        match self {
            ConnectionRole::Client => String::from_str("Client"),
            ConnectionRole::Host => String::from_str("Host"),
        }
    }
}

/// What is known about one connection.
#[derive(Debug, Clone)]
pub struct ConnectionInfo {
    /// The remote device identifier.
    pub remote_id: DeviceId,
    /// The remote device name.
    pub remote_name: String,
    /// The remote address.
    pub remote_addr: PeerAddr,
    /// The session identifier, once assigned.
    pub session_id: Option<[u8; 16]>,
    /// Which side this device is.
    pub role: ConnectionRole,
    /// Lifecycle state.
    pub state: ConnectionState,
    /// Wall-clock milliseconds when the connection became `Connected`.
    pub connected_at: Option<u64>,
    /// Wall-clock milliseconds of the last activity.
    pub last_activity: u64,
}

/// One tracked connection.
#[derive(Debug)]
pub struct Connection {
    info: ConnectionInfo,
    last_heartbeat_ms: u64,
}

impl Connection {
    /// The connection's current record.
    pub closed spec fn spec_info(&self) -> ConnectionInfo {
        self.info
    }

    /// Wall-clock milliseconds of the last heartbeat.
    pub closed spec fn spec_last_heartbeat(&self) -> u64 {
        self.last_heartbeat_ms
    }

    /// Creates a connection record in the `Disconnected` state.
    pub fn new(
        remote_id: DeviceId,
        remote_name: String,
        remote_addr: PeerAddr,
        role: ConnectionRole,
    ) -> (r: Connection)
        ensures
            r.spec_info().remote_id == remote_id,
            r.spec_info().remote_name == remote_name,
            r.spec_info().remote_addr == remote_addr,
            r.spec_info().role == role,
            r.spec_info().state == ConnectionState::Disconnected,
            r.spec_info().session_id is None,
            r.spec_info().connected_at is None,
    {
        let now = now_millis();
        Connection {
            info: ConnectionInfo {
                remote_id,
                remote_name,
                remote_addr,
                session_id: None,
                role,
                state: ConnectionState::Disconnected,
                connected_at: None,
                last_activity: now,
            },
            last_heartbeat_ms: now,
        }
    }

    /// The connection's record.
    pub fn info(&self) -> (r: &ConnectionInfo)
        ensures
            r == self.spec_info(),
    {
        &self.info
    }

    /// Moves the connection to a new state; entering `Connected` for the
    /// first time records the moment.
    pub fn set_state(&mut self, state: ConnectionState)
        ensures
            final(self).spec_info().state == state,
            final(self).spec_info().remote_id == old(self).spec_info().remote_id,
            final(self).spec_info().session_id == old(self).spec_info().session_id,
            final(self).spec_info().role == old(self).spec_info().role,
            state == ConnectionState::Connected && old(self).spec_info().connected_at is None
                ==> final(self).spec_info().connected_at is Some,
            !(state == ConnectionState::Connected && old(self).spec_info().connected_at is None)
                ==> final(self).spec_info().connected_at == old(self).spec_info().connected_at,
    {
        self.info.state = state;
        if matches!(state, ConnectionState::Connected) && self.info.connected_at.is_none() {
            self.info.connected_at = Some(now_millis());
        }
    }

    /// Records the session identifier.
    pub fn set_session_id(&mut self, session_id: [u8; 16])
        ensures
            final(self).spec_info().session_id == Some(session_id),
            final(self).spec_info().state == old(self).spec_info().state,
            final(self).spec_info().remote_id == old(self).spec_info().remote_id,
    {
        self.info.session_id = Some(session_id);
    }

    /// Stamps the connection's activity with the current wall clock.
    pub fn update_activity(&mut self)
        ensures
            final(self).spec_info().state == old(self).spec_info().state,
            final(self).spec_info().remote_id == old(self).spec_info().remote_id,
    {
        self.info.last_activity = now_millis();
    }

    /// Stamps the last heartbeat with the current wall clock.
    pub fn update_heartbeat(&mut self)
        ensures
            final(self).spec_info() == old(self).spec_info(),
    {
        self.last_heartbeat_ms = now_millis();
    }

    /// True when the last heartbeat is older than the timeout, by the wall
    /// clock.
    pub fn is_heartbeat_timeout(&self) -> bool {
        let now = now_millis();
        let elapsed = if now >= self.last_heartbeat_ms {
            now - self.last_heartbeat_ms
        } else {
            0
        };
        elapsed > HEARTBEAT_TIMEOUT_SECS * 1000
    }

    /// Milliseconds spent connected, when connected.
    pub fn connection_duration(&self) -> (r: Option<u64>)
        ensures
            r is Some <==> self.spec_info().connected_at is Some,
    {
        match self.info.connected_at {
            Some(t) => {
                let now = now_millis();
                if now >= t {
                    Some(now - t)
                } else {
                    Some(0)
                }
            },
            None => None,
        }
    }

    /// True in the `Connected` state.
    pub fn is_connected(&self) -> (r: bool)
        ensures
            r == (self.spec_info().state == ConnectionState::Connected),
    {
        matches!(self.info.state, ConnectionState::Connected)
    }

    /// The remote device identifier.
    pub fn remote_id(&self) -> (r: DeviceId)
        ensures
            r == self.spec_info().remote_id,
    {
        self.info.remote_id
    }
}

/// Traffic statistics of one connection.
#[derive(Debug, Clone, Copy, PartialEq, Eq, Structural, Default)]
pub struct ConnectionStats {
    /// Bytes sent.
    pub bytes_sent: u64,
    /// Bytes received.
    pub bytes_received: u64,
    /// Messages sent.
    pub messages_sent: u64,
    /// Messages received.
    pub messages_received: u64,
    /// Failed send attempts.
    pub send_failures: u64,
    /// Failed receive attempts.
    pub receive_failures: u64,
}

impl ConnectionStats {
    /// Fresh statistics, all zero.
    pub fn new() -> (r: ConnectionStats)
        ensures
            r == (ConnectionStats {
                bytes_sent: 0,
                bytes_received: 0,
                messages_sent: 0,
                messages_received: 0,
                send_failures: 0,
                receive_failures: 0,
            }),
    {
        ConnectionStats {
            bytes_sent: 0,
            bytes_received: 0,
            messages_sent: 0,
            messages_received: 0,
            send_failures: 0,
            receive_failures: 0,
        }
    }

    /// Records one sent message of `bytes` bytes.
    pub fn record_sent(&mut self, bytes: u64)
        requires
            old(self).bytes_sent + bytes <= u64::MAX,
            old(self).messages_sent < u64::MAX,
        ensures
            *final(self) == (ConnectionStats {
                bytes_sent: (old(self).bytes_sent + bytes) as u64,
                messages_sent: (old(self).messages_sent + 1) as u64,
                ..*old(self)
            }),
    {
        self.bytes_sent = self.bytes_sent + bytes;
        self.messages_sent = self.messages_sent + 1;
    }

    /// Records one received message of `bytes` bytes.
    pub fn record_received(&mut self, bytes: u64)
        requires
            old(self).bytes_received + bytes <= u64::MAX,
            old(self).messages_received < u64::MAX,
        ensures
            *final(self) == (ConnectionStats {
                bytes_received: (old(self).bytes_received + bytes) as u64,
                messages_received: (old(self).messages_received + 1) as u64,
                ..*old(self)
            }),
    {
        self.bytes_received = self.bytes_received + bytes;
        self.messages_received = self.messages_received + 1;
    }

    /// Records one failed send.
    pub fn record_send_failure(&mut self)
        requires
            old(self).send_failures < u64::MAX,
        ensures
            *final(self) == (ConnectionStats { send_failures: (old(self).send_failures + 1) as u64, ..*old(self) }),
    {
        self.send_failures = self.send_failures + 1;
    }

    /// Records one failed receive.
    pub fn record_receive_failure(&mut self)
        requires
            old(self).receive_failures < u64::MAX,
        ensures
            *final(self) == (ConnectionStats {
                receive_failures: (old(self).receive_failures + 1) as u64,
                ..*old(self)
            }),
    {
        self.receive_failures = self.receive_failures + 1;
    }
}

} // verus!
