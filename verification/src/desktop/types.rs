//! Desktop data types: captured frames, encoded frames, and the capture
//! configuration.

use vstd::prelude::*;

use crate::clock::now_millis;

verus! {

/// Frame quality setting (1-100).
pub type Quality = u8;

/// Frames-per-second setting.
pub type Fps = u8;

/// Lowest accepted quality.
pub const MIN_QUALITY: Quality = 1;

/// Highest accepted quality.
pub const MAX_QUALITY: Quality = 100;

/// Default quality.
pub const DEFAULT_QUALITY: Quality = 80;

/// Lowest accepted frame rate.
pub const MIN_FPS: Fps = 1;

/// Highest accepted frame rate.
pub const MAX_FPS: Fps = 60;

/// Default frame rate.
pub const DEFAULT_FPS: Fps = 30;

/// Facts about one display.
#[derive(Debug, Clone)]
pub struct DisplayInfo {
    /// Display identifier.
    pub id: u32,
    /// Display name.
    pub name: String,
    /// Width in pixels.
    pub width: u32,
    /// Height in pixels.
    pub height: u32,
    /// Whether this is the primary display.
    pub is_primary: bool,
    /// X position in the virtual screen.
    pub x: i32,
    /// Y position in the virtual screen.
    pub y: i32,
}

/// A captured frame: raw RGBA pixels, four bytes per pixel.
#[derive(Debug, Clone)]
pub struct Frame {
    /// Frame width in pixels.
    pub width: u32,
    /// Frame height in pixels.
    pub height: u32,
    /// Raw RGBA pixel data.
    pub data: Vec<u8>,
    /// Frame sequence number.
    pub sequence: u64,
    /// Wall-clock milliseconds when the frame was captured.
    pub timestamp_ms: u64,
}

impl Frame {
    /// A frame's pixel buffer matches its dimensions.
    pub open spec fn spec_valid(&self) -> bool {
        self.data@.len() == self.width as int * self.height as int * 4
    }

    /// Builds a frame stamped with the current wall clock.
    pub fn new(width: u32, height: u32, data: Vec<u8>, sequence: u64) -> (r: Frame)
        ensures
            r.width == width,
            r.height == height,
            r.data == data,
            r.sequence == sequence,
    {
        Frame { width, height, data, sequence, timestamp_ms: now_millis() }
    }

    /// The size of the pixel buffer in bytes.
    pub fn size_bytes(&self) -> (r: usize)
        ensures
            r == self.data@.len(),
    {
        self.data.len()
    }

    /// True when the pixel buffer matches the dimensions.
    pub fn is_valid(&self) -> (r: bool)
        requires
            self.width as int * self.height as int * 4 <= u32::MAX,
        ensures
            r == self.spec_valid(),
    {
        let expected_size = (self.width * self.height * 4) as usize;
        self.data.len() == expected_size
    }
}

/// Frame encoding format.
#[derive(Debug, Clone, Copy, PartialEq, Eq, Structural)]
pub enum FrameFormat {
    /// Raw RGBA, no compression.
    Raw,
    /// JPEG compression.
    Jpeg,
    /// PNG compression (lossless).
    Png,
    /// WebP compression (encoded as JPEG until implemented).
    WebP,
}

/// An encoded frame ready for transmission.
#[derive(Debug, Clone)]
pub struct EncodedFrame {
    /// Frame width in pixels.
    pub width: u32,
    /// Frame height in pixels.
    pub height: u32,
    /// Compressed frame data.
    pub data: Vec<u8>,
    /// Frame sequence number.
    pub sequence: u64,
    /// Encoding format used.
    pub format: FrameFormat,
    /// Original uncompressed size, for statistics.
    pub original_size: usize,
}

/// Capture configuration.
#[derive(Debug, Clone)]
pub struct CaptureConfig {
    /// Target frames per second.
    pub fps: Fps,
    /// Image quality (1-100, higher is better).
    pub quality: Quality,
    /// Specific display to capture; the primary display when absent.
    pub display_id: Option<u32>,
    /// Frame encoding format.
    pub format: FrameFormat,
}

impl Default for CaptureConfig {
    /// The default configuration: 30 frames per second, JPEG at quality 80.
    fn default() -> (r: CaptureConfig)
        ensures
            r.fps == DEFAULT_FPS,
            r.quality == DEFAULT_QUALITY,
            r.display_id is None,
            r.format == FrameFormat::Jpeg,
    {
        CaptureConfig {
            fps: DEFAULT_FPS,
            quality: DEFAULT_QUALITY,
            display_id: None,
            format: FrameFormat::Jpeg,
        }
    }
}

/// `v` clamped into `[lo, hi]`.
pub open spec fn clamped(v: u8, lo: u8, hi: u8) -> u8 {
    if v < lo {
        lo
    } else if v > hi {
        hi
    } else {
        v
    }
}

/// Clamps a byte-sized setting into a closed range.
pub fn clamp_u8(v: u8, lo: u8, hi: u8) -> (r: u8)
    requires
        lo <= hi,
    ensures
        r == clamped(v, lo, hi),
{
    if v < lo {
        lo
    } else if v > hi {
        hi
    } else {
        v
    }
}

impl CaptureConfig {
    /// Builds a configuration, clamping rate and quality into range.
    pub fn new(fps: Fps, quality: Quality) -> (r: CaptureConfig)
        ensures
            r.fps == clamped(fps, MIN_FPS, MAX_FPS),
            r.quality == clamped(quality, MIN_QUALITY, MAX_QUALITY),
            r.display_id is None,
            r.format == FrameFormat::Jpeg,
    {
        CaptureConfig {
            fps: clamp_u8(fps, MIN_FPS, MAX_FPS),
            quality: clamp_u8(quality, MIN_QUALITY, MAX_QUALITY),
            display_id: None,
            format: FrameFormat::Jpeg,
        }
    }

    /// Selects the display to capture.
    pub fn with_display(self, display_id: u32) -> (r: CaptureConfig)
        ensures
            r.display_id == Some(display_id),
            r.fps == self.fps && r.quality == self.quality && r.format == self.format,
    {
        CaptureConfig { display_id: Some(display_id), ..self }
    }

    /// Selects the frame format.
    pub fn with_format(self, format: FrameFormat) -> (r: CaptureConfig)
        ensures
            r.format == format,
            r.fps == self.fps && r.quality == self.quality && r.display_id == self.display_id,
    {
        CaptureConfig { format, ..self }
    }

    /// The target interval between frames.
    pub fn frame_interval(&self) -> core::time::Duration
        requires
            self.fps >= 1,
    {
        duration_from_millis(1000 / self.fps as u64)
    }

    /// The target interval between frames, in milliseconds.
    pub fn frame_interval_ms(&self) -> (r: u64)
        requires
            self.fps >= 1,
        ensures
            r == 1000 as int / self.fps as int,
    {
        1000 / self.fps as u64
    }

    /// Checks that rate and quality lie in their accepted ranges.
    pub fn validate(&self) -> (r: core::result::Result<(), String>)
        ensures
            r is Ok <==> (MIN_FPS <= self.fps <= MAX_FPS && MIN_QUALITY <= self.quality
                <= MAX_QUALITY),
    {
        if self.fps < MIN_FPS || self.fps > MAX_FPS {
            return Err(String::from_str("FPS must be between 1 and 60"));
        }
        if self.quality < MIN_QUALITY || self.quality > MAX_QUALITY {
            return Err(String::from_str("Quality must be between 1 and 100"));
        }
        Ok(())
    }
}

/// Within each four-byte pixel of `data`, `r` swaps the first and third
/// bytes and keeps the rest: the BGRA-to-RGBA reordering.
pub open spec fn rgba_of_bgra(r: Seq<u8>, data: Seq<u8>) -> bool {
    forall|i: int|
        0 <= i && 4 * i + 3 < data.len() ==> {
            &&& #[trigger] r[4 * i] == data[4 * i + 2]
            &&& r[4 * i + 1] == data[4 * i + 1]
            &&& r[4 * i + 2] == data[4 * i]
            &&& r[4 * i + 3] == data[4 * i + 3]
        }
}

/// Converts a BGRA pixel buffer, as capture sources deliver, into the
/// RGBA order the rest of the pipeline expects.
pub fn bgra_to_rgba(data: &[u8]) -> (r: Vec<u8>)
    requires
        data@.len() % 4 == 0,
    ensures
        r@.len() == data@.len(),
        rgba_of_bgra(r@, data@),
{
    proof {
        vstd::arithmetic::div_mod::lemma_fundamental_div_mod(data@.len() as int, 4);
    }
    let n = data.len() / 4;
    let mut out: Vec<u8> = Vec::with_capacity(data.len());
    let mut p: usize = 0;
    while p < n
        invariant
            0 <= p <= n,
            data@.len() == 4 * n,
            data@.len() <= usize::MAX,
            out@.len() == 4 * p,
            forall|i: int|
                0 <= i < p ==> {
                    &&& #[trigger] out@[4 * i] == data@[4 * i + 2]
                    &&& out@[4 * i + 1] == data@[4 * i + 1]
                    &&& out@[4 * i + 2] == data@[4 * i]
                    &&& out@[4 * i + 3] == data@[4 * i + 3]
                },
        decreases n - p,
    {
        proof {
            assert(4 * (p as int) + 3 < data@.len());
        }
        let base = 4 * p;
        let ghost before = out@;
        out.push(data[base + 2]);
        out.push(data[base + 1]);
        out.push(data[base]);
        out.push(data[base + 3]);
        proof {
            let q = p as int;
            assert forall|i: int| 0 <= i < q + 1 implies {
                &&& #[trigger] out@[4 * i] == data@[4 * i + 2]
                &&& out@[4 * i + 1] == data@[4 * i + 1]
                &&& out@[4 * i + 2] == data@[4 * i]
                &&& out@[4 * i + 3] == data@[4 * i + 3]
            } by {
                if i < q {
                    assert(before[4 * i] == data@[4 * i + 2]);
                    assert(4 * i + 3 < before.len());
                } else {
                    assert(out@[before.len() as int] == data@[4 * q + 2]);
                    assert(out@[before.len() as int + 1] == data@[4 * q + 1]);
                    assert(out@[before.len() as int + 2] == data@[4 * q]);
                    assert(out@[before.len() as int + 3] == data@[4 * q + 3]);
                }
            }
        }
        p += 1;
    }
    proof {
        assert forall|i: int| 0 <= i && 4 * i + 3 < data@.len() implies {
            &&& #[trigger] out@[4 * i] == data@[4 * i + 2]
            &&& out@[4 * i + 1] == data@[4 * i + 1]
            &&& out@[4 * i + 2] == data@[4 * i]
            &&& out@[4 * i + 3] == data@[4 * i + 3]
        } by {
            assert(i < n);
        }
    }
    out
}

/// Relies on core's `Duration::from_millis`.
pub assume_specification[ core::time::Duration::from_millis ](ms: u64) -> core::time::Duration;

/// A `Duration` built from milliseconds.
fn duration_from_millis(ms: u64) -> core::time::Duration {
    core::time::Duration::from_millis(ms)
}

} // verus!
