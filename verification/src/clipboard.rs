//! Clipboard content and synchronization bookkeeping: typed content with a
//! deduplication hash, and the monitor state that suppresses echoes. The
//! operating system clipboard itself is read and written by the embedding
//! program.

use vstd::prelude::*;

use crate::clock::now_millis;
use crate::transport::{ClipboardContentType, TransportClipboard};
use std::hash::{Hash, Hasher};

verus! {

use vstd::utf8::{decode_utf8, encode_utf8, valid_utf8};

/// Default clipboard polling interval in milliseconds.
pub const DEFAULT_POLL_INTERVAL_MS: u64 = 500;

/// The 64-bit hash std's default hasher assigns to a byte sequence;
/// a function of the bytes alone within one build of the library.
pub uninterp spec fn content_hash_of(data: Seq<u8>) -> u64;

/// Relies on std's `DefaultHasher`, whose `new` is documented to produce
/// the same hasher in every instance: the hash of the bytes, used only for
/// deduplication and echo suppression.
#[verifier::external_body]
fn default_hash(data: &Vec<u8>) -> (r: u64)
    ensures
        r == content_hash_of(data@),
{
    let mut hasher = std::collections::hash_map::DefaultHasher::new();
    data.as_slice().hash(&mut hasher);
    hasher.finish()
}

/// Clipboard content with its deduplication hash.
#[derive(Debug)]
pub struct ClipboardContent {
    /// Kind of the content.
    pub content_type: ClipboardContentType,
    /// The content bytes; UTF-8 for text.
    pub data: Vec<u8>,
    /// Hash of the bytes, for deduplication.
    pub hash: u64,
    /// Wall-clock milliseconds when the content was captured.
    pub timestamp: u64,
}

impl ClipboardContent {
    /// Text content: the UTF-8 bytes of `text`, hashed.
    pub fn text(text: &str) -> (r: ClipboardContent)
        ensures
            r.content_type == ClipboardContentType::Text,
            r.data@ == encode_utf8(text@),
            r.hash == content_hash_of(encode_utf8(text@)),
    {
        let bytes = text.as_bytes();
        let mut data: Vec<u8> = Vec::new();
        let mut i: usize = 0;
        while i < bytes.len()
            invariant
                0 <= i <= bytes@.len(),
                data@ == bytes@.take(i as int),
            decreases bytes@.len() - i,
        {
            data.push(bytes[i]);
            i += 1;
        }
        proof {
            assert(bytes@.take(bytes@.len() as int) =~= bytes@);
        }
        let hash = default_hash(&data);
        ClipboardContent {
            content_type: ClipboardContentType::Text,
            data,
            hash,
            timestamp: now_millis(),
        }
    }

    /// Image content from PNG bytes, hashed.
    pub fn image(png_data: Vec<u8>) -> (r: ClipboardContent)
        ensures
            r.content_type == ClipboardContentType::Image,
            r.data@ == png_data@,
            r.hash == content_hash_of(png_data@),
    {
        let hash = default_hash(&png_data);
        ClipboardContent {
            content_type: ClipboardContentType::Image,
            data: png_data,
            hash,
            timestamp: now_millis(),
        }
    }

    /// The deduplication hash of a byte buffer.
    pub fn compute_hash(data: &Vec<u8>) -> (r: u64)
        ensures
            r == content_hash_of(data@),
    {
        default_hash(data)
    }

    /// Wraps the content for transport under the given sequence number.
    pub fn to_transport(&self, sequence: u64) -> (r: TransportClipboard)
        ensures
            r.content_type == self.content_type,
            r.data@ == self.data@,
            r.content_hash == self.hash,
            r.sequence == sequence,
    {
        TransportClipboard {
            content_type: self.content_type,
            data: crate::desktop::encoder::copy_bytes(&self.data),
            content_hash: self.hash,
            sequence,
        }
    }

    /// Unwraps transported content, keeping its declared hash.
    pub fn from_transport(transport: &TransportClipboard) -> (r: ClipboardContent)
        ensures
            r.content_type == transport.content_type,
            r.data@ == transport.data@,
            r.hash == transport.content_hash,
    {
        ClipboardContent {
            content_type: transport.content_type,
            data: crate::desktop::encoder::copy_bytes(&transport.data),
            hash: transport.content_hash,
            timestamp: now_millis(),
        }
    }

    /// The content as text: text content with valid UTF-8 bytes decodes,
    /// and nothing else does.
    pub fn as_text(&self) -> (r: Option<String>)
        ensures
            r is Some <==> (self.content_type == ClipboardContentType::Text && valid_utf8(
                self.data@,
            )),
            r matches Some(t) ==> t@ == decode_utf8(self.data@),
    {
        if matches!(self.content_type, ClipboardContentType::Text) {
            crate::codec::bytes_to_string(crate::desktop::encoder::copy_bytes(&self.data))
        } else {
            None
        }
    }
}

/// Monitor state for clipboard polling: remembers the last hash to
/// suppress unchanged and echoed content, and counts outgoing updates.
#[derive(Debug)]
pub struct ClipboardMonitor {
    last_hash: u64,
    is_running: bool,
    poll_interval_ms: u64,
    sequence: u64,
}

impl ClipboardMonitor {
    /// The hash of the last observed or applied content.
    pub closed spec fn spec_last_hash(&self) -> u64 {
        self.last_hash
    }

    /// Whether monitoring is active.
    pub closed spec fn spec_running(&self) -> bool {
        self.is_running
    }

    /// The monitor's sequence counter.
    pub closed spec fn spec_sequence(&self) -> u64 {
        self.sequence
    }

    /// Creates a stopped monitor with the default polling interval.
    pub fn new() -> (r: ClipboardMonitor)
        ensures
            !r.spec_running(),
            r.spec_last_hash() == 0,
            r.spec_sequence() == 0,
    {
        ClipboardMonitor {
            last_hash: 0,
            is_running: false,
            poll_interval_ms: DEFAULT_POLL_INTERVAL_MS,
            sequence: 0,
        }
    }

    /// Creates a stopped monitor with a custom polling interval.
    pub fn with_interval(poll_interval_ms: u64) -> (r: ClipboardMonitor)
        ensures
            !r.spec_running(),
            r.spec_last_hash() == 0,
            r.spec_sequence() == 0,
    {
        ClipboardMonitor { last_hash: 0, is_running: false, poll_interval_ms, sequence: 0 }
    }

    /// The polling interval in milliseconds.
    pub fn poll_interval_ms(&self) -> u64 {
        self.poll_interval_ms
    }

    /// Marks monitoring as started. Returns false when already running.
    pub fn start(&mut self) -> (r: bool)
        ensures
            final(self).spec_running(),
            r == !old(self).spec_running(),
            final(self).spec_last_hash() == old(self).spec_last_hash(),
            final(self).spec_sequence() == old(self).spec_sequence(),
    {
        let was = self.is_running;
        self.is_running = true;
        !was
    }

    /// Marks monitoring as stopped.
    pub fn stop(&mut self)
        ensures
            !final(self).spec_running(),
            final(self).spec_last_hash() == old(self).spec_last_hash(),
            final(self).spec_sequence() == old(self).spec_sequence(),
    {
        self.is_running = false;
    }

    /// Whether monitoring is active.
    pub fn is_running(&self) -> (r: bool)
        ensures
            r == self.spec_running(),
    {
        self.is_running
    }

    /// Decides whether polled content is new: content whose hash equals
    /// the last observed hash is suppressed; new content advances the
    /// sequence and becomes the new reference.
    pub fn observe(&mut self, hash: u64) -> (r: Option<u64>)
        ensures
            hash == old(self).spec_last_hash() ==> (r is None && *final(self) == *old(self)),
            hash != old(self).spec_last_hash() ==> {
                &&& r == Some(old(self).spec_sequence())
                &&& final(self).spec_last_hash() == hash
                &&& final(self).spec_sequence() == (if old(self).spec_sequence() < u64::MAX {
                    (old(self).spec_sequence() + 1) as u64
                } else {
                    old(self).spec_sequence()
                })
            },
    {
        if hash == self.last_hash {
            None
        } else {
            let seq = self.sequence;
            self.last_hash = hash;
            if self.sequence < u64::MAX {
                self.sequence = self.sequence + 1;
            }
            Some(seq)
        }
    }

    /// Records content applied locally, so that the monitor does not echo
    /// it back to the peer.
    pub fn note_applied(&mut self, hash: u64)
        ensures
            final(self).spec_last_hash() == hash,
            final(self).spec_running() == old(self).spec_running(),
            final(self).spec_sequence() == old(self).spec_sequence(),
    {
        self.last_hash = hash;
    }
}

impl Default for ClipboardMonitor {
    fn default() -> (r: ClipboardMonitor)
        ensures
            !r.spec_running(),
    {
        ClipboardMonitor::new()
    }
}

} // verus!
