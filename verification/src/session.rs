//! Session configuration and bookkeeping: host and client session
//! settings, their statistics, and the decision rules of the capture loop.
//! The embedding program runs the loops and performs the I/O.

use vstd::prelude::*;

use crate::clock::now_millis;
use crate::desktop::types::{clamp_u8, clamped, CaptureConfig};
use crate::security::DeviceId;

verus! {

/// Consecutive capture failures after which the capture loop ends.
pub const MAX_CAPTURE_FAILURES: u32 = 10;

/// Which side of a session this process plays.
#[derive(Debug, Clone, Copy, PartialEq, Eq, Structural)]
pub enum SessionMode {
    /// Being controlled: captures the screen, receives input.
    Host,
    /// Controlling: receives frames, sends input.
    Client,
}

/// Configuration of one session.
#[derive(Debug, Clone)]
pub struct SessionConfig {
    /// Which side this process plays.
    pub mode: SessionMode,
    /// The remote device identifier.
    pub remote_id: DeviceId,
    /// The local device identifier.
    pub local_id: DeviceId,
    /// Capture configuration, used in host mode.
    pub capture_config: CaptureConfig,
}

impl SessionConfig {
    /// A host-mode configuration.
    pub fn host(local_id: DeviceId, remote_id: DeviceId, capture_config: CaptureConfig) -> (r:
        SessionConfig)
        ensures
            r.mode == SessionMode::Host,
            r.local_id == local_id,
            r.remote_id == remote_id,
            r.capture_config == capture_config,
    {
        SessionConfig { mode: SessionMode::Host, remote_id, local_id, capture_config }
    }

    /// A client-mode configuration; the capture settings take the
    /// defaults and are unused.
    pub fn client(local_id: DeviceId, remote_id: DeviceId) -> (r: SessionConfig)
        ensures
            r.mode == SessionMode::Client,
            r.local_id == local_id,
            r.remote_id == remote_id,
            r.capture_config.fps == crate::desktop::types::DEFAULT_FPS,
            r.capture_config.quality == crate::desktop::types::DEFAULT_QUALITY,
            r.capture_config.display_id is None,
            r.capture_config.format == crate::desktop::types::FrameFormat::Jpeg,
    {
        SessionConfig {
            mode: SessionMode::Client,
            remote_id,
            local_id,
            capture_config: CaptureConfig::default(),
        }
    }
}

/// Statistics of one session.
#[derive(Debug, Clone, Copy, PartialEq, Eq, Structural, Default)]
pub struct SessionStats {
    /// Frames sent (host) or received (client).
    pub frames_processed: u64,
    /// Input events sent (client) or received (host).
    pub input_events_processed: u64,
    /// Bytes sent.
    pub bytes_sent: u64,
    /// Bytes received.
    pub bytes_received: u64,
    /// Wall-clock milliseconds when the session started.
    pub session_start_time: u64,
    /// Wall-clock milliseconds of the last activity.
    pub last_activity_time: u64,
}

impl SessionStats {
    /// Seconds since the session started, by the wall clock.
    pub fn duration_secs(&self) -> u64 {
        let now = now_millis() / 1000;
        let start = self.session_start_time / 1000;
        if now >= start {
            now - start
        } else {
            0
        }
    }
}

/// Relies on the uuid crate: a fresh random version-4 identifier in its
/// hyphenated text form. Nothing is promised of the value.
#[verifier::external_body]
fn fresh_session_id() -> String {
    uuid::Uuid::new_v4().to_string()
}

/// Configuration of a host session.
#[derive(Debug, Clone)]
pub struct HostSessionConfig {
    /// Capture configuration.
    pub capture: CaptureConfig,
    /// Whether remote input may be simulated.
    pub allow_input: bool,
    /// Session identifier.
    pub session_id: String,
}

impl Default for HostSessionConfig {
    /// Defaults: default capture settings, input allowed, fresh identifier.
    fn default() -> (r: HostSessionConfig)
        ensures
            r.allow_input,
    {
        HostSessionConfig {
            capture: CaptureConfig::default(),
            allow_input: true,
            session_id: fresh_session_id(),
        }
    }
}

impl HostSessionConfig {
    /// A host configuration with the given rate and quality, clamped.
    pub fn new(fps: u8, quality: u8) -> (r: HostSessionConfig)
        ensures
            r.allow_input,
            r.capture.fps == clamped(fps, 1, 60),
            r.capture.quality == clamped(quality, 1, 100),
    {
        HostSessionConfig {
            capture: CaptureConfig::new(fps, quality),
            allow_input: true,
            session_id: fresh_session_id(),
        }
    }

    /// Sets whether remote input may be simulated.
    pub fn with_input(self, allow: bool) -> (r: HostSessionConfig)
        ensures
            r.allow_input == allow,
            r.capture == self.capture,
            r.session_id == self.session_id,
    {
        HostSessionConfig { allow_input: allow, ..self }
    }

    /// Sets the session identifier.
    pub fn with_session_id(self, id: String) -> (r: HostSessionConfig)
        ensures
            r.session_id == id,
            r.capture == self.capture,
            r.allow_input == self.allow_input,
    {
        HostSessionConfig { session_id: id, ..self }
    }
}

/// Statistics of a host session. Times are in milliseconds.
#[derive(Debug, Clone, Copy, PartialEq, Eq, Structural, Default)]
pub struct HostSessionStats {
    /// Frames captured and sent.
    pub frames_sent: u64,
    /// Frames dropped by encoding failures or a full channel.
    pub frames_dropped: u64,
    /// Bytes sent.
    pub bytes_sent: u64,
    /// Input events received.
    pub input_events_received: u64,
    /// Input events processed.
    pub input_events_processed: u64,
    /// Moving average of the encode time, in milliseconds.
    pub avg_encode_time_ms: u64,
    /// Wall-clock milliseconds when the session started, once started.
    pub started_at: Option<u64>,
}

/// A moving average that weighs the history nine to one against the new
/// observation, after starting at the first observation.
pub open spec fn ema_step(avg: u64, observation: u64) -> int {
    if avg == 0 {
        observation as int
    } else {
        (avg as int * 9 + observation) / 10
    }
}

impl HostSessionStats {
    /// Records one sent frame: its bytes, and the encode time folded into
    /// the moving average.
    pub fn record_frame_sent(&mut self, bytes: u64, encode_time_ms: u64)
        requires
            old(self).frames_sent < u64::MAX,
        ensures
            final(self).frames_sent == old(self).frames_sent + 1,
            final(self).bytes_sent == (if old(self).bytes_sent + bytes <= u64::MAX {
                old(self).bytes_sent + bytes
            } else {
                u64::MAX as int
            }),
            final(self).avg_encode_time_ms == ema_step(old(self).avg_encode_time_ms, encode_time_ms),
            final(self).frames_dropped == old(self).frames_dropped,
    {
        self.frames_sent = self.frames_sent + 1;
        self.bytes_sent = if self.bytes_sent <= u64::MAX - bytes {
            self.bytes_sent + bytes
        } else {
            u64::MAX
        };
        self.avg_encode_time_ms = if self.avg_encode_time_ms == 0 {
            encode_time_ms
        } else {
            proof {
                let x = self.avg_encode_time_ms as int * 9 + encode_time_ms as int;
                vstd::arithmetic::div_mod::lemma_div_is_ordered(x, 10 * (u64::MAX as int), 10);
                vstd::arithmetic::div_mod::lemma_fundamental_div_mod_converse(
                    10 * (u64::MAX as int),
                    10,
                    u64::MAX as int,
                    0,
                );
            }
            ((self.avg_encode_time_ms as u128 * 9 + encode_time_ms as u128) / 10) as u64
        };
    }

    /// Records one dropped frame.
    pub fn record_frame_dropped(&mut self)
        ensures
            final(self).frames_dropped == (if old(self).frames_dropped < u64::MAX {
                old(self).frames_dropped + 1
            } else {
                old(self).frames_dropped as int
            }),
            final(self).frames_sent == old(self).frames_sent,
    {
        if self.frames_dropped < u64::MAX {
            self.frames_dropped = self.frames_dropped + 1;
        }
    }
}

/// Configuration of a client session.
#[derive(Debug, Clone)]
pub struct ClientSessionConfig {
    /// Session identifier.
    pub session_id: String,
    /// Whether to send input events.
    pub send_input: bool,
    /// Frame buffer depth.
    pub frame_buffer_size: usize,
}

impl Default for ClientSessionConfig {
    /// Defaults: fresh identifier, input on, buffer of four.
    fn default() -> (r: ClientSessionConfig)
        ensures
            r.send_input,
            r.frame_buffer_size == 4,
    {
        ClientSessionConfig {
            session_id: fresh_session_id(),
            send_input: true,
            frame_buffer_size: 4,
        }
    }
}

impl ClientSessionConfig {
    /// A client configuration with the defaults.
    pub fn new() -> (r: ClientSessionConfig)
        ensures
            r.send_input,
            r.frame_buffer_size == 4,
    {
        ClientSessionConfig::default()
    }

    /// Sets the session identifier.
    pub fn with_session_id(self, id: String) -> (r: ClientSessionConfig)
        ensures
            r.session_id == id,
            r.send_input == self.send_input,
            r.frame_buffer_size == self.frame_buffer_size,
    {
        ClientSessionConfig { session_id: id, ..self }
    }

    /// Sets whether to send input.
    pub fn with_input(self, send: bool) -> (r: ClientSessionConfig)
        ensures
            r.send_input == send,
            r.session_id == self.session_id,
            r.frame_buffer_size == self.frame_buffer_size,
    {
        ClientSessionConfig { send_input: send, ..self }
    }
}

/// Statistics of a client session. Times are in milliseconds.
#[derive(Debug, Clone, Copy, PartialEq, Eq, Structural, Default)]
pub struct ClientSessionStats {
    /// Frames received.
    pub frames_received: u64,
    /// Frames decoded.
    pub frames_decoded: u64,
    /// Frames dropped.
    pub frames_dropped: u64,
    /// Bytes received.
    pub bytes_received: u64,
    /// Input events sent.
    pub input_events_sent: u64,
    /// Moving average of the decode time, in milliseconds.
    pub avg_decode_time_ms: u64,
    /// Wall-clock milliseconds when the session started, once started.
    pub started_at: Option<u64>,
    /// Last one-way latency estimate, in milliseconds.
    pub latency_ms: Option<u64>,
}

/// The capture loop's failure policy: soft failures are tolerated until
/// too many come in a row.
#[derive(Debug, Clone, Copy, PartialEq, Eq, Structural)]
pub struct CaptureLoopState {
    /// Capture failures since the last success.
    pub consecutive_failures: u32,
}

impl CaptureLoopState {
    /// A fresh policy state.
    pub fn new() -> (r: CaptureLoopState)
        ensures
            r.consecutive_failures == 0,
    {
        CaptureLoopState { consecutive_failures: 0 }
    }

    /// Records a successful capture, clearing the failure streak.
    pub fn record_success(&mut self)
        ensures
            final(self).consecutive_failures == 0,
    {
        self.consecutive_failures = 0;
    }

    /// Records a failed capture. Returns true exactly when the streak has
    /// reached the cap and the loop must end.
    pub fn record_failure(&mut self) -> (r: bool)
        requires
            old(self).consecutive_failures < MAX_CAPTURE_FAILURES,
        ensures
            final(self).consecutive_failures == old(self).consecutive_failures + 1,
            r == (final(self).consecutive_failures == MAX_CAPTURE_FAILURES),
    {
        self.consecutive_failures = self.consecutive_failures + 1;
        self.consecutive_failures == MAX_CAPTURE_FAILURES
    }
}

/// Numbers a client's outgoing input events: each forwarded event gets
/// the next sequence number, so sequences rise monotonically, and events
/// are refused while input sending is off.
#[derive(Debug, Clone, Copy, PartialEq, Eq, Structural)]
pub struct InputSequencer {
    /// Whether input sending is enabled.
    pub send_input: bool,
    /// The sequence number the next event receives.
    pub next_sequence: u64,
}

impl InputSequencer {
    /// A sequencer starting at sequence zero.
    pub fn new(send_input: bool) -> (r: InputSequencer)
        ensures
            r.send_input == send_input,
            r.next_sequence == 0,
    {
        InputSequencer { send_input, next_sequence: 0 }
    }

    /// Wraps an event for transport under the next sequence number.
    ///
    /// Fails exactly while input sending is off, changing nothing; the
    /// counter stops growing at its 64-bit ceiling.
    pub fn next(&mut self, event: crate::input::types::InputEvent) -> (r: core::result::Result<
        crate::transport::TransportInput,
        crate::error::SessionError,
    >)
        ensures
            r is Ok <==> old(self).send_input,
            r matches Ok(t) ==> {
                &&& t.event == event
                &&& t.sequence == old(self).next_sequence
                &&& t.source_coords is None
                &&& final(self).next_sequence == (if old(self).next_sequence < u64::MAX {
                    (old(self).next_sequence + 1) as u64
                } else {
                    old(self).next_sequence
                })
                &&& final(self).send_input == old(self).send_input
            },
            r matches Err(e) ==> (e matches crate::error::SessionError::InputError(_) && *final(self) == *old(self)),
    {
        if !self.send_input {
            return Err(
                crate::error::SessionError::InputError(
                    String::from_str("Input sending not enabled"),
                ),
            );
        }
        let sequence = self.next_sequence;
        if self.next_sequence < u64::MAX {
            self.next_sequence = self.next_sequence + 1;
        }
        Ok(crate::transport::TransportInput::new(event, sequence))
    }
}

/// The residual time to sleep so that a loop iteration fills one frame
/// interval: the interval less the time already spent, or nothing when
/// the iteration overran.
pub fn residual_delay_ms(frame_interval_ms: u64, elapsed_ms: u64) -> (r: u64)
    ensures
        elapsed_ms < frame_interval_ms ==> r == frame_interval_ms - elapsed_ms,
        elapsed_ms >= frame_interval_ms ==> r == 0,
{
    if elapsed_ms < frame_interval_ms {
        frame_interval_ms - elapsed_ms
    } else {
        0
    }
}

} // verus!
