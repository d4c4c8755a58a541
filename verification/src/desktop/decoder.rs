//! Frame decoding for received frames, with sequence accounting: the
//! decoder tracks how many frames arrived out of order, advancing its
//! expectation to one past each observed sequence number.

use vstd::prelude::*;

use crate::clock::now_millis;
use crate::desktop::encoder::{copy_bytes, decode_image_rgba};
use crate::desktop::types::{EncodedFrame, Frame, FrameFormat};
use crate::error::{RemoteDeskError, Result, SessionError};
use crate::transport::TransportFrame;

verus! {

/// Statistics of one decoder.
#[derive(Debug, Clone, Copy, PartialEq, Eq, Structural, Default)]
pub struct DecoderStats {
    /// Frames decoded.
    pub frames_decoded: u64,
    /// Frames that failed to decode.
    pub frames_dropped: u64,
    /// Compressed bytes received.
    pub bytes_received: u64,
    /// Uncompressed bytes produced.
    pub bytes_decoded: u64,
    /// Moving average of the decode time in milliseconds, weighing the
    /// history nine to one against each new observation.
    pub avg_decode_time_ms: u64,
    /// Sequence number of the last decoded frame.
    pub last_sequence: u64,
    /// Frames whose sequence was not the expected one.
    pub out_of_order_frames: u64,
}

/// The sequence number expected after observing `seqs`: one at first,
/// then one past the last observation (wrapping at the top).
pub open spec fn next_expected(seqs: Seq<u64>) -> u64 {
    if seqs.len() == 0 {
        1
    } else if seqs.last() == u64::MAX {
        0
    } else {
        (seqs.last() + 1) as u64
    }
}

/// How many observations in `seqs` were out of order: those that differ
/// from the expectation standing when they arrived, not counting arrivals
/// while the expectation had wrapped to zero.
pub open spec fn ooo_count(seqs: Seq<u64>) -> int
    decreases seqs.len(),
{
    if seqs.len() == 0 {
        0
    } else {
        ooo_count(seqs.drop_last()) + (if seqs.last() != next_expected(seqs.drop_last())
            && next_expected(seqs.drop_last()) != 0 {
            1int
        } else {
            0int
        })
    }
}

/// At most every observation is out of order.
pub proof fn lemma_ooo_count_le_len(seqs: Seq<u64>)
    ensures
        0 <= ooo_count(seqs) <= seqs.len(),
    decreases seqs.len(),
{
    if seqs.len() > 0 {
        lemma_ooo_count_le_len(seqs.drop_last());
    }
}

/// Saturating addition on a 64-bit counter.
pub open spec fn counter_add(a: u64, b: int) -> int {
    if a + b <= u64::MAX {
        a + b
    } else {
        u64::MAX as int
    }
}

/// The uncompressed byte count a frame of these dimensions accounts for,
/// saturating at the 64-bit ceiling.
pub open spec fn frame_area_bytes(width: u32, height: u32) -> int {
    if width as int * height as int * 4 <= u64::MAX {
        width as int * height as int * 4
    } else {
        u64::MAX as int
    }
}

/// Decodes received frames and accounts for their sequence numbers.
pub struct FrameDecoder {
    last_frame: Option<Frame>,
    expected_sequence: u64,
    stats: DecoderStats,
    observed: Ghost<Seq<u64>>,
}

impl FrameDecoder {
    /// The decoder's statistics.
    pub closed spec fn spec_stats(&self) -> DecoderStats {
        self.stats
    }

    /// The sequence numbers of the frames decoded so far, in order.
    pub closed spec fn spec_observed(&self) -> Seq<u64> {
        self.observed@
    }

    /// The sequence number the decoder expects next.
    pub closed spec fn spec_expected(&self) -> u64 {
        self.expected_sequence
    }

    /// The retained copy of the last decoded frame.
    pub closed spec fn spec_last_frame(&self) -> Option<Frame> {
        self.last_frame
    }

    /// The decoder's counters agree with its observation history: the
    /// decoded count is the number of observations, the out-of-order count
    /// follows the accounting rule, and the expectation is one past the
    /// last observation.
    pub open spec fn wf(&self) -> bool {
        &&& self.spec_stats().frames_decoded == self.spec_observed().len()
        &&& self.spec_stats().out_of_order_frames == ooo_count(self.spec_observed())
        &&& self.spec_expected() == next_expected(self.spec_observed())
        &&& self.spec_stats().last_sequence == (if self.spec_observed().len() == 0 {
            0
        } else {
            self.spec_observed().last()
        })
    }

    /// Creates a decoder expecting sequence one.
    pub fn new() -> (r: FrameDecoder)
        ensures
            r.wf(),
            r.spec_observed() =~= Seq::<u64>::empty(),
            r.spec_stats() == (DecoderStats {
                frames_decoded: 0,
                frames_dropped: 0,
                bytes_received: 0,
                bytes_decoded: 0,
                avg_decode_time_ms: 0,
                last_sequence: 0,
                out_of_order_frames: 0,
            }),
    {
        FrameDecoder {
            last_frame: None,
            expected_sequence: 1,
            stats: DecoderStats {
                frames_decoded: 0,
                frames_dropped: 0,
                bytes_received: 0,
                bytes_decoded: 0,
                avg_decode_time_ms: 0,
                last_sequence: 0,
                out_of_order_frames: 0,
            },
            observed: Ghost(Seq::empty()),
        }
    }

    /// Decodes a frame and updates the statistics.
    ///
    /// On success the observation history grows by the frame's sequence
    /// number: the decoded count rises by one, the out-of-order count
    /// rises exactly when the sequence differs from the standing nonzero
    /// expectation, the expectation moves to one past the sequence, the
    /// byte counters grow by the compressed and uncompressed sizes, the
    /// decode time is folded into the 9:1 moving average, and the frame is
    /// retained as the last decoded one. On failure exactly the dropped
    /// count rises and everything else stays.
    pub fn decode(&mut self, encoded: &EncodedFrame) -> (r: Result<Frame>)
        requires
            old(self).wf(),
            old(self).spec_stats().frames_decoded < u64::MAX,
        ensures
            final(self).wf(),
            r matches Ok(f) ==> {
                &&& f.width == encoded.width
                &&& f.height == encoded.height
                &&& f.sequence == encoded.sequence
                &&& final(self).spec_observed() == old(self).spec_observed().push(encoded.sequence)
                &&& final(self).spec_stats().frames_decoded == old(
                    self,
                ).spec_stats().frames_decoded + 1
                &&& final(self).spec_stats().last_sequence == encoded.sequence
                &&& final(self).spec_stats().out_of_order_frames == old(
                    self,
                ).spec_stats().out_of_order_frames + (if encoded.sequence != old(
                    self,
                ).spec_expected() && old(self).spec_expected() != 0 {
                    1int
                } else {
                    0int
                })
                &&& final(self).spec_stats().frames_dropped == old(self).spec_stats().frames_dropped
                &&& final(self).spec_stats().bytes_received == counter_add(
                    old(self).spec_stats().bytes_received,
                    encoded.data@.len() as int,
                )
                &&& final(self).spec_stats().bytes_decoded == counter_add(
                    old(self).spec_stats().bytes_decoded,
                    frame_area_bytes(encoded.width, encoded.height),
                )
                &&& exists|elapsed: u64|
                    final(self).spec_stats().avg_decode_time_ms == crate::session::ema_step(
                        old(self).spec_stats().avg_decode_time_ms,
                        elapsed,
                    )
                &&& final(self).spec_last_frame() matches Some(g) && g.width == encoded.width
                    && g.height == encoded.height && g.sequence == encoded.sequence && g.data@
                    == f.data@
            },
            r is Err ==> {
                &&& final(self).spec_observed() == old(self).spec_observed()
                &&& final(self).spec_expected() == old(self).spec_expected()
                &&& final(self).spec_last_frame() == old(self).spec_last_frame()
                &&& final(self).spec_stats() == (DecoderStats {
                    frames_dropped: counter_add(old(self).spec_stats().frames_dropped, 1) as u64,
                    ..old(self).spec_stats()
                })
            },
            encoded.format == FrameFormat::Raw ==> (r matches Ok(f) && f.data@
                == encoded.data@),
            encoded.format != FrameFormat::Raw ==> forall|w: u32, h: u32, d: Seq<u8>, q: u8|
                encoded.data@ == crate::desktop::encoder::jpeg_bytes_of(w, h, d, q) && d.len()
                    == w as int * h as int * 4 && 1 <= w <= 65535 && 1 <= h <= 65535 ==> r is Ok,
            encoded.format != FrameFormat::Raw ==> forall|w: u32, h: u32, d: Seq<u8>|
                encoded.data@ == crate::desktop::encoder::png_bytes_of(w, h, d) && d.len()
                    == w as int * h as int * 4 && 1 <= w <= 65535 && 1 <= h <= 65535 ==> (r matches
                Ok(f) && f.data@ == d),
    {
        let start = now_millis();
        let decoded: Option<Vec<u8>> = match encoded.format {
            FrameFormat::Raw => Some(copy_bytes(&encoded.data)),
            _ => match decode_image_rgba(&encoded.data) {
                Some((_, _, buf)) => Some(buf),
                None => None,
            },
        };
        let finish = now_millis();
        let elapsed = if finish >= start {
            finish - start
        } else {
            0
        };
        match decoded {
            Some(data) => {
                proof {
                    lemma_ooo_count_le_len(old(self).spec_observed());
                }
                self.stats.frames_decoded = self.stats.frames_decoded + 1;
                self.stats.bytes_received = sat_add(self.stats.bytes_received, encoded.data.len() as u64);
                let area = sat_mul4(crate::desktop::encoder::mul_dims(encoded.width, encoded.height));
                self.stats.bytes_decoded = sat_add(self.stats.bytes_decoded, area);
                if encoded.sequence != self.expected_sequence && self.expected_sequence != 0 {
                    self.stats.out_of_order_frames = self.stats.out_of_order_frames + 1;
                }
                self.stats.last_sequence = encoded.sequence;
                self.expected_sequence = if encoded.sequence == u64::MAX {
                    0
                } else {
                    encoded.sequence + 1
                };
                self.stats.avg_decode_time_ms = if self.stats.avg_decode_time_ms == 0 {
                    elapsed
                } else {
                    proof {
                        let x = self.stats.avg_decode_time_ms as int * 9 + elapsed as int;
                        vstd::arithmetic::div_mod::lemma_div_is_ordered(
                            x,
                            10 * (u64::MAX as int),
                            10,
                        );
                        vstd::arithmetic::div_mod::lemma_fundamental_div_mod_converse(
                            10 * (u64::MAX as int),
                            10,
                            u64::MAX as int,
                            0,
                        );
                    }
                    ((self.stats.avg_decode_time_ms as u128 * 9 + elapsed as u128) / 10) as u64
                };
                proof {
                    assert(self.stats.avg_decode_time_ms == crate::session::ema_step(
                        old(self).spec_stats().avg_decode_time_ms,
                        elapsed,
                    ));
                    self.observed@ = old(self).spec_observed().push(encoded.sequence);
                    assert(self.spec_observed().drop_last() =~= old(self).spec_observed());
                    assert(self.spec_observed().last() == encoded.sequence);
                }
                let stored = copy_bytes(&data);
                let frame = Frame::new(encoded.width, encoded.height, data, encoded.sequence);
                self.last_frame = Some(
                    Frame::new(encoded.width, encoded.height, stored, encoded.sequence),
                );
                Ok(frame)
            },
            None => {
                self.stats.frames_dropped = sat_add(self.stats.frames_dropped, 1);
                Err(RemoteDeskError::Generic(String::from_str("image decoding failed")))
            },
        }
    }

    /// Decodes a transport frame exactly as [`FrameDecoder::decode`] would
    /// decode the equivalent encoded frame, mapping failures to a session
    /// error; failures account one dropped frame and change nothing else.
    pub fn decode_transport(&mut self, transport: &TransportFrame) -> (r: core::result::Result<
        Frame,
        SessionError,
    >)
        requires
            old(self).wf(),
            old(self).spec_stats().frames_decoded < u64::MAX,
        ensures
            final(self).wf(),
            r matches Ok(f) ==> {
                &&& f.width == transport.width
                &&& f.height == transport.height
                &&& f.sequence == transport.sequence
                &&& final(self).spec_observed() == old(self).spec_observed().push(
                    transport.sequence,
                )
                &&& final(self).spec_stats().frames_decoded == old(
                    self,
                ).spec_stats().frames_decoded + 1
                &&& final(self).spec_stats().bytes_received == counter_add(
                    old(self).spec_stats().bytes_received,
                    transport.data@.len() as int,
                )
                &&& final(self).spec_stats().frames_dropped == old(self).spec_stats().frames_dropped
            },
            r is Err ==> {
                &&& r matches Err(SessionError::FrameDecodeError(_))
                &&& final(self).spec_observed() == old(self).spec_observed()
                &&& final(self).spec_expected() == old(self).spec_expected()
                &&& final(self).spec_stats() == (DecoderStats {
                    frames_dropped: counter_add(old(self).spec_stats().frames_dropped, 1) as u64,
                    ..old(self).spec_stats()
                })
            },
    {
        let encoded = EncodedFrame {
            width: transport.width,
            height: transport.height,
            data: copy_bytes(&transport.data),
            sequence: transport.sequence,
            format: transport.format,
            original_size: transport.original_size,
        };
        match self.decode(&encoded) {
            Ok(f) => Ok(f),
            Err(_) => Err(
                SessionError::FrameDecodeError(String::from_str("image decoding failed")),
            ),
        }
    }

    /// A snapshot of the statistics.
    pub fn stats(&self) -> (r: DecoderStats)
        ensures
            r == self.spec_stats(),
    {
        self.stats
    }

    /// The last decoded frame, if any.
    pub fn last_frame(&self) -> Option<&Frame> {
        self.last_frame.as_ref()
    }

    /// Clears the statistics and returns the expectation to one.
    pub fn reset_stats(&mut self)
        ensures
            final(self).wf(),
            final(self).spec_observed() =~= Seq::<u64>::empty(),
            final(self).spec_stats().frames_decoded == 0,
            final(self).spec_stats().out_of_order_frames == 0,
    {
        self.stats = DecoderStats {
            frames_decoded: 0,
            frames_dropped: 0,
            bytes_received: 0,
            bytes_decoded: 0,
            avg_decode_time_ms: 0,
            last_sequence: 0,
            out_of_order_frames: 0,
        };
        self.expected_sequence = 1;
        proof {
            self.observed@ = Seq::empty();
        }
    }
}

impl Default for FrameDecoder {
    fn default() -> (r: FrameDecoder)
        ensures
            r.wf(),
            r.spec_observed() =~= Seq::<u64>::empty(),
    {
        FrameDecoder::new()
    }
}

/// Saturating 64-bit addition.
fn sat_add(a: u64, b: u64) -> (r: u64)
    ensures
        r == (if a + b <= u64::MAX {
            a + b
        } else {
            u64::MAX as int
        }),
{
    if a <= u64::MAX - b {
        a + b
    } else {
        u64::MAX
    }
}

/// `v * 4`, saturating at the 64-bit ceiling.
fn sat_mul4(v: u64) -> (r: u64)
    ensures
        r == (if v * 4 <= u64::MAX {
            v * 4
        } else {
            u64::MAX as int
        }),
{
    if v <= u64::MAX / 4 {
        v * 4
    } else {
        u64::MAX
    }
}

} // verus!
