//! Session transport: the typed payloads that cross a session's four
//! channels, the bounded queues behind them (lossy for video, lossless for
//! the rest), and the in-process loopback wiring.

use vstd::prelude::*;

use crate::desktop::types::FrameFormat;
use crate::input::types::InputEvent;

verus! {

/// Queue depth of the lossless channels (input, clipboard, control).
pub const DEFAULT_CHANNEL_BUFFER: usize = 32;

/// Queue depth of the lossy video channel.
pub const FRAME_CHANNEL_BUFFER: usize = 4;

/// One video frame crossing the transport.
#[derive(Debug, Clone)]
pub struct TransportFrame {
    /// Monotonic frame sequence number.
    pub sequence: u64,
    /// Frame width in pixels.
    pub width: u32,
    /// Frame height in pixels.
    pub height: u32,
    /// Encoding of `data`.
    pub format: FrameFormat,
    /// Encoded frame bytes.
    pub data: Vec<u8>,
    /// Uncompressed size, for statistics.
    pub original_size: usize,
    /// Milliseconds since the session started.
    pub timestamp_ms: u64,
}

impl TransportFrame {
    /// Builds a transport frame.
    pub fn new(
        sequence: u64,
        width: u32,
        height: u32,
        format: FrameFormat,
        data: Vec<u8>,
        original_size: usize,
        timestamp_ms: u64,
    ) -> (r: TransportFrame)
        ensures
            r.sequence == sequence,
            r.width == width,
            r.height == height,
            r.format == format,
            r.data == data,
            r.original_size == original_size,
            r.timestamp_ms == timestamp_ms,
    {
        TransportFrame { sequence, width, height, format, data, original_size, timestamp_ms }
    }

    /// The size of the encoded data in bytes.
    pub fn encoded_size(&self) -> (r: usize)
        ensures
            r == self.data@.len(),
    {
        self.data.len()
    }
}

/// One input event crossing the transport.
#[derive(Debug, Clone)]
pub struct TransportInput {
    /// The input event.
    pub event: InputEvent,
    /// Window coordinates at the source, for events needing translation.
    pub source_coords: Option<(u32, u32)>,
    /// Monotonic sequence number.
    pub sequence: u64,
}

impl TransportInput {
    /// Builds a transport input without source coordinates.
    pub fn new(event: InputEvent, sequence: u64) -> (r: TransportInput)
        ensures
            r.event == event,
            r.source_coords is None,
            r.sequence == sequence,
    {
        TransportInput { event, source_coords: None, sequence }
    }

    /// Builds a transport input with source coordinates.
    pub fn with_coords(event: InputEvent, sequence: u64, x: u32, y: u32) -> (r: TransportInput)
        ensures
            r.event == event,
            r.source_coords == Some((x, y)),
            r.sequence == sequence,
    {
        TransportInput { event, source_coords: Some((x, y)), sequence }
    }
}

/// Kind of clipboard content.
#[derive(Debug, Clone, Copy, PartialEq, Eq, Structural)]
pub enum ClipboardContentType {
    /// Plain text.
    Text,
    /// HTML.
    Html,
    /// Image (PNG bytes).
    Image,
}

/// One clipboard update crossing the transport.
#[derive(Debug, Clone)]
pub struct TransportClipboard {
    /// Kind of the content.
    pub content_type: ClipboardContentType,
    /// The content bytes.
    pub data: Vec<u8>,
    /// Content hash, used for deduplication and echo suppression.
    pub content_hash: u64,
    /// Monotonic sequence number.
    pub sequence: u64,
}

/// Session-level control messages.
#[derive(Debug, Clone)]
pub enum ControlMessage {
    /// Request to start the session.
    Start,
    /// Request to pause the session.
    Pause,
    /// Request to resume the session.
    Resume,
    /// Request to stop the session.
    Stop,
    /// Latency probe.
    Ping {
        /// Milliseconds when the probe was sent.
        timestamp_ms: u64,
    },
    /// Latency probe answer.
    Pong {
        /// The probe's original timestamp.
        original_timestamp_ms: u64,
    },
    /// Quality adjustment request.
    SetQuality {
        /// The requested quality.
        quality: u8,
    },
    /// Frame rate adjustment request.
    SetFps {
        /// The requested rate.
        fps: u8,
    },
    /// Ask the peer for its display facts.
    RequestDisplayInfo,
    /// Display facts answer.
    DisplayInfo {
        /// Width in pixels.
        width: u32,
        /// Height in pixels.
        height: u32,
        /// Display name.
        name: String,
    },
}

/// Statistics of one transport.
#[derive(Debug, Clone, Default)]
pub struct TransportStats {
    /// Messages sent.
    pub messages_sent: u64,
    /// Messages received.
    pub messages_received: u64,
    /// Bytes sent.
    pub bytes_sent: u64,
    /// Bytes received.
    pub bytes_received: u64,
    /// Last one-way latency estimate, in milliseconds.
    pub latency_ms: Option<u64>,
    /// Wall-clock milliseconds when the session started.
    pub started_at: Option<u64>,
}

impl TransportStats {
    /// Records a latency estimate from a ping round trip: half of it.
    pub fn update_latency(&mut self, round_trip_ms: u64)
        ensures
            final(self).latency_ms == Some((round_trip_ms / 2) as u64),
            final(self).messages_sent == old(self).messages_sent,
            final(self).messages_received == old(self).messages_received,
            final(self).bytes_sent == old(self).bytes_sent,
            final(self).bytes_received == old(self).bytes_received,
            final(self).started_at == old(self).started_at,
    {
        self.latency_ms = Some(round_trip_ms / 2);
    }
}

/// A bounded lossy queue of video frames: when full, the oldest frame is
/// dropped to make room, and the drop is counted. The queue never holds
/// more than its capacity. This models the in-process side of the lossy
/// video policy by keeping the newest frames; the networked bridge drops
/// the frame it cannot enqueue instead, which loses the newest.
#[derive(Debug)]
pub struct FrameQueue {
    items: Vec<TransportFrame>,
    capacity: usize,
    dropped: u64,
}

impl FrameQueue {
    /// The queued frames, oldest first.
    pub closed spec fn spec_items(&self) -> Seq<TransportFrame> {
        self.items@
    }

    /// The queue's capacity.
    pub closed spec fn spec_capacity(&self) -> int {
        self.capacity as int
    }

    /// How many frames were dropped to make room.
    pub closed spec fn spec_dropped(&self) -> u64 {
        self.dropped
    }

    /// The queue never outgrows its capacity.
    pub open spec fn wf(&self) -> bool {
        self.spec_items().len() <= self.spec_capacity() && self.spec_capacity() >= 1
    }

    /// Creates an empty queue.
    pub fn new(capacity: usize) -> (r: FrameQueue)
        requires
            capacity >= 1,
        ensures
            r.wf(),
            r.spec_items() =~= Seq::<TransportFrame>::empty(),
            r.spec_capacity() == capacity,
            r.spec_dropped() == 0,
    {
        FrameQueue { items: Vec::new(), capacity, dropped: 0 }
    }

    /// Number of queued frames.
    pub fn len(&self) -> (r: usize)
        ensures
            r == self.spec_items().len(),
    {
        self.items.len()
    }

    /// Number of dropped frames.
    pub fn dropped_count(&self) -> (r: u64)
        ensures
            r == self.spec_dropped(),
    {
        self.dropped
    }

    /// Enqueues a frame; when the queue is full, the oldest frame leaves
    /// first and the drop counter grows (saturating).
    pub fn push(&mut self, frame: TransportFrame)
        requires
            old(self).wf(),
        ensures
            final(self).wf(),
            final(self).spec_capacity() == old(self).spec_capacity(),
            old(self).spec_items().len() < old(self).spec_capacity() ==> {
                &&& final(self).spec_items() == old(self).spec_items().push(frame)
                &&& final(self).spec_dropped() == old(self).spec_dropped()
            },
            old(self).spec_items().len() == old(self).spec_capacity() ==> {
                &&& final(self).spec_items() == old(self).spec_items().drop_first().push(frame)
                &&& final(self).spec_dropped() == (if old(self).spec_dropped() < u64::MAX {
                    (old(self).spec_dropped() + 1) as u64
                } else {
                    old(self).spec_dropped()
                })
            },
            final(self).spec_items().len() <= old(self).spec_items().len() + 1,
    {
        if self.items.len() == self.capacity {
            self.items.remove(0);
            if self.dropped < u64::MAX {
                self.dropped = self.dropped + 1;
            }
            proof {
                assert(self.items@ =~= old(self).spec_items().drop_first());
            }
        }
        self.items.push(frame);
    }

    /// Dequeues the oldest frame, if any.
    pub fn pop(&mut self) -> (r: Option<TransportFrame>)
        requires
            old(self).wf(),
        ensures
            final(self).wf(),
            final(self).spec_capacity() == old(self).spec_capacity(),
            final(self).spec_dropped() == old(self).spec_dropped(),
            old(self).spec_items().len() == 0 ==> r is None && final(self).spec_items() == old(self).spec_items(),
            old(self).spec_items().len() > 0 ==> (r == Some(old(self).spec_items()[0]) && final(self).spec_items() == old(self).spec_items().drop_first()),
    {
        if self.items.len() == 0 {
            None
        } else {
            let f = self.items.remove(0);
            proof {
                assert(self.items@ =~= old(self).spec_items().drop_first());
            }
            Some(f)
        }
    }
}

/// A bounded lossless queue: refuses new items when full, handing them
/// back to the caller, who must wait and retry.
#[derive(Debug)]
pub struct BoundedChannel<T> {
    items: Vec<T>,
    capacity: usize,
}

impl<T> BoundedChannel<T> {
    /// The queued items, oldest first.
    pub closed spec fn spec_items(&self) -> Seq<T> {
        self.items@
    }

    /// The queue's capacity.
    pub closed spec fn spec_capacity(&self) -> int {
        self.capacity as int
    }

    /// The queue never outgrows its capacity.
    pub open spec fn wf(&self) -> bool {
        self.spec_items().len() <= self.spec_capacity() && self.spec_capacity() >= 1
    }

    /// Creates an empty queue.
    pub fn new(capacity: usize) -> (r: BoundedChannel<T>)
        requires
            capacity >= 1,
        ensures
            r.wf(),
            r.spec_items() =~= Seq::<T>::empty(),
            r.spec_capacity() == capacity,
    {
        BoundedChannel { items: Vec::new(), capacity }
    }

    /// Number of queued items.
    pub fn len(&self) -> (r: usize)
        ensures
            r == self.spec_items().len(),
    {
        self.items.len()
    }

    /// Enqueues an item, or hands it back when the queue is full.
    pub fn try_send(&mut self, item: T) -> (r: core::result::Result<(), T>)
        requires
            old(self).wf(),
        ensures
            final(self).wf(),
            final(self).spec_capacity() == old(self).spec_capacity(),
            old(self).spec_items().len() < old(self).spec_capacity() ==> (r is Ok && final(self).spec_items() == old(self).spec_items().push(item)),
            old(self).spec_items().len() == old(self).spec_capacity() ==> (r == Err::<(), T>(item)
                && final(self).spec_items() == old(self).spec_items()),
    {
        if self.items.len() == self.capacity {
            Err(item)
        } else {
            self.items.push(item);
            Ok(())
        }
    }

    /// Dequeues the oldest item, if any.
    pub fn recv(&mut self) -> (r: Option<T>)
        requires
            old(self).wf(),
        ensures
            final(self).wf(),
            final(self).spec_capacity() == old(self).spec_capacity(),
            old(self).spec_items().len() == 0 ==> r is None && final(self).spec_items() == old(self).spec_items(),
            old(self).spec_items().len() > 0 ==> ((r matches Some(x) && x == old(
                self,
            ).spec_items()[0]) && final(self).spec_items() == old(self).spec_items().drop_first()),
    {
        if self.items.len() == 0 {
            None
        } else {
            let x = self.items.remove(0);
            proof {
                assert(self.items@ =~= old(self).spec_items().drop_first());
            }
            Some(x)
        }
    }
}

/// An in-process transport wiring a host side and a client side together:
/// lossy frame queues in both directions and lossless queues for input,
/// clipboard and control, as the networked bridges have.
#[derive(Debug)]
pub struct LoopbackTransport {
    /// Frames flowing host to client (lossy, depth 4).
    pub host_to_client_frames: FrameQueue,
    /// Frames flowing client to host (lossy, depth 4).
    pub client_to_host_frames: FrameQueue,
    /// Input events flowing client to host.
    pub client_to_host_input: BoundedChannel<TransportInput>,
    /// Input events flowing host to client.
    pub host_to_client_input: BoundedChannel<TransportInput>,
    /// Clipboard updates flowing host to client.
    pub host_to_client_clipboard: BoundedChannel<TransportClipboard>,
    /// Clipboard updates flowing client to host.
    pub client_to_host_clipboard: BoundedChannel<TransportClipboard>,
    /// Control messages flowing host to client.
    pub host_to_client_control: BoundedChannel<ControlMessage>,
    /// Control messages flowing client to host.
    pub client_to_host_control: BoundedChannel<ControlMessage>,
}

impl LoopbackTransport {
    /// All queues within their bounds: the video queues at depth four, the
    /// lossless queues at depth thirty-two.
    pub open spec fn wf(&self) -> bool {
        &&& self.host_to_client_frames.wf() && self.host_to_client_frames.spec_capacity()
            == FRAME_CHANNEL_BUFFER
        &&& self.client_to_host_frames.wf() && self.client_to_host_frames.spec_capacity()
            == FRAME_CHANNEL_BUFFER
        &&& self.client_to_host_input.wf() && self.client_to_host_input.spec_capacity()
            == DEFAULT_CHANNEL_BUFFER
        &&& self.host_to_client_input.wf() && self.host_to_client_input.spec_capacity()
            == DEFAULT_CHANNEL_BUFFER
        &&& self.host_to_client_clipboard.wf() && self.host_to_client_clipboard.spec_capacity()
            == DEFAULT_CHANNEL_BUFFER
        &&& self.client_to_host_clipboard.wf() && self.client_to_host_clipboard.spec_capacity()
            == DEFAULT_CHANNEL_BUFFER
        &&& self.host_to_client_control.wf() && self.host_to_client_control.spec_capacity()
            == DEFAULT_CHANNEL_BUFFER
        &&& self.client_to_host_control.wf() && self.client_to_host_control.spec_capacity()
            == DEFAULT_CHANNEL_BUFFER
    }
}

/// Wires a loopback transport: host output feeds client input and the
/// other way round, with the video queues at depth four and the lossless
/// queues at depth thirty-two.
pub fn create_loopback_transport() -> (r: LoopbackTransport)
    ensures
        r.wf(),
        r.host_to_client_frames.spec_items().len() == 0,
        r.client_to_host_frames.spec_items().len() == 0,
        r.client_to_host_input.spec_items().len() == 0,
        r.host_to_client_control.spec_items().len() == 0,
        r.client_to_host_control.spec_items().len() == 0,
        r.host_to_client_frames.spec_dropped() == 0,
        r.host_to_client_input.spec_items().len() == 0,
        r.host_to_client_clipboard.spec_items().len() == 0,
        r.client_to_host_clipboard.spec_items().len() == 0,
        r.client_to_host_frames.spec_dropped() == 0,
{
    LoopbackTransport {
        host_to_client_frames: FrameQueue::new(FRAME_CHANNEL_BUFFER),
        client_to_host_frames: FrameQueue::new(FRAME_CHANNEL_BUFFER),
        client_to_host_input: BoundedChannel::new(DEFAULT_CHANNEL_BUFFER),
        host_to_client_input: BoundedChannel::new(DEFAULT_CHANNEL_BUFFER),
        host_to_client_clipboard: BoundedChannel::new(DEFAULT_CHANNEL_BUFFER),
        client_to_host_clipboard: BoundedChannel::new(DEFAULT_CHANNEL_BUFFER),
        host_to_client_control: BoundedChannel::new(DEFAULT_CHANNEL_BUFFER),
        client_to_host_control: BoundedChannel::new(DEFAULT_CHANNEL_BUFFER),
    }
}

/// Errors of transport operations.
#[derive(Debug)]
pub enum TransportError {
    /// A substream failed.
    StreamError(String),
    /// The channel was closed.
    ChannelClosed,
    /// The connection failed.
    ConnectionError(String),
}

/// Result alias over [`TransportError`].
pub type TransportResult<T> = core::result::Result<T, TransportError>;

} // verus!
