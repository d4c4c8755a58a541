//! Length-prefixed framing of typed messages over ordered byte substreams:
//! each frame is a four-byte big-endian length followed by the serialized
//! message, capped at the maximum message size.

use vstd::prelude::*;

use crate::codec::{be32, dec_message, enc_message, lemma_concat_parts, lemma_dec_enc_message};
use crate::protocol::{Message, MessageView, MAX_MESSAGE_SIZE_BYTES};
use crate::text::u64_to_string;

verus! {

use vstd::arithmetic::div_mod::{
    lemma_div_denominator, lemma_fundamental_div_mod, lemma_div_is_ordered,
    lemma_fundamental_div_mod_converse,
};

/// Errors of the framed substream layer.
#[derive(Debug)]
pub enum StreamError {
    /// The message could not be serialized.
    Serialization(String),
    /// The received bytes could not be deserialized.
    Deserialization(String),
    /// The substream rejected a write.
    WriteError(String),
    /// The substream failed a read.
    ReadError(String),
    /// The substream reached a clean end of data.
    StreamClosed,
    /// A message exceeded the size cap.
    MessageTooLarge {
        /// The offending size in bytes.
        size: usize,
        /// The cap in bytes.
        max: usize,
    },
    /// The in-process channel was closed.
    ChannelClosed,
    /// An I/O error from the operating system.
    Io(std::io::Error),
}

impl StreamError {
    /// Renders the error as human-readable text.
    pub fn message(&self) -> String {
        match self {
            StreamError::Serialization(s) => {
                let mut m = String::from_str("Serialization error: ");
                m.append(s.as_str());
                m
            },
            StreamError::Deserialization(s) => {
                let mut m = String::from_str("Deserialization error: ");
                m.append(s.as_str());
                m
            },
            StreamError::WriteError(s) => {
                let mut m = String::from_str("Stream write error: ");
                m.append(s.as_str());
                m
            },
            StreamError::ReadError(s) => {
                let mut m = String::from_str("Stream read error: ");
                m.append(s.as_str());
                m
            },
            StreamError::StreamClosed => String::from_str("Stream closed"),
            StreamError::MessageTooLarge { size, max } => {
                let mut m = String::from_str("Message too large: ");
                let n = u64_to_string(*size as u64);
                m.append(n.as_str());
                m.append(" bytes (max ");
                let x = u64_to_string(*max as u64);
                m.append(x.as_str());
                m.append(")");
                m
            },
            StreamError::ChannelClosed => String::from_str("Channel closed"),
            StreamError::Io(_) => String::from_str("IO error"),
        }
    }
}

/// Result alias over [`StreamError`].
pub type StreamResult<T> = core::result::Result<T, StreamError>;

/// One frame on the wire: the payload's length as four big-endian bytes,
/// then the payload.
pub open spec fn framed(payload: Seq<u8>) -> Seq<u8> {
    be32(payload.len() as u32) + payload
}

/// Reads one frame: a four-byte big-endian length within the size cap,
/// then exactly that many payload bytes.
pub open spec fn dec_frame(s: Seq<u8>, pos: int) -> Option<(Seq<u8>, int)> {
    if 0 <= pos && pos + 4 <= s.len() {
        let n = 16777216 * s[pos] as int + 65536 * s[pos + 1] as int + 256 * s[pos + 2] as int
            + s[pos + 3] as int;
        if n <= MAX_MESSAGE_SIZE_BYTES && pos + 4 + n <= s.len() {
            Some((s.subrange(pos + 4, pos + 4 + n), pos + 4 + n))
        } else {
            None
        }
    } else {
        None
    }
}

/// `v` is recovered from its big-endian bytes.
pub proof fn lemma_be32_recompose(v: u32)
    ensures
        16777216 * (v as int / 16777216) + 65536 * (v as int / 65536 % 256) + 256 * (v as int / 256
            % 256) + v as int % 256 == v as int,
        v as int / 16777216 < 256,
{
    let i = v as int;
    lemma_div_denominator(i, 256, 256);
    lemma_div_denominator(i, 65536, 256);
    lemma_fundamental_div_mod(i, 256);
    lemma_fundamental_div_mod(i / 256, 256);
    lemma_fundamental_div_mod(i / 65536, 256);
    lemma_div_is_ordered(i, 0xFFFF_FFFF, 16777216);
    lemma_fundamental_div_mod_converse(0xFFFF_FFFF, 16777216, 255, 16777215);
}

/// Law: a frame wrapped around a payload within the size cap reads back as
/// exactly that payload.
pub proof fn lemma_frame_round_trip(payload: Seq<u8>, rest: Seq<u8>, s: Seq<u8>, pos: int)
    requires
        0 <= pos <= s.len(),
        payload.len() <= MAX_MESSAGE_SIZE_BYTES,
        s.subrange(pos, s.len() as int) == framed(payload) + rest,
    ensures
        dec_frame(s, pos) == Some((payload, pos + 4 + payload.len())),
{
    let n = payload.len() as u32;
    lemma_be32_recompose(n);
    let tail = s.subrange(pos, s.len() as int);
    lemma_concat_parts(be32(n), payload + rest);
    assert(tail =~= be32(n) + (payload + rest));
    assert(forall|i: int| 0 <= i < tail.len() ==> tail[i] == s[pos + i]);
    assert(s[pos] == be32(n)[0] && s[pos + 1] == be32(n)[1] && s[pos + 2] == be32(n)[2] && s[pos
        + 3] == be32(n)[3]);
    assert(16777216 * s[pos] as int + 65536 * s[pos + 1] as int + 256 * s[pos + 2] as int + s[pos
        + 3] as int == n as int);
    lemma_concat_parts(payload, rest);
    assert(s.subrange(pos + 4, pos + 4 + payload.len()) =~= payload) by {
        assert(forall|i: int| 0 <= i < payload.len() ==> (payload + rest)[i] == payload[i]);
        assert(forall|i: int|
            0 <= i < payload.len() ==> (be32(n) + (payload + rest))[4 + i] == (payload + rest)[i]);
    }
}

/// A message encoding parses back to the message (framing-free form).
proof fn lemma_wire_message_part(m: MessageView)
    requires
        m.wf(),
    ensures
        dec_message(enc_message(m), 0) == Some((m, enc_message(m).len() as int)),
{
    let e = enc_message(m);
    assert(e + Seq::<u8>::empty() =~= e);
    assert(e.subrange(0, e.len() as int) =~= e);
    lemma_dec_enc_message(m, Seq::empty(), e, 0);
}

/// A frame around a message encoding parses back to the encoding.
proof fn lemma_wire_frame_part(m: MessageView)
    requires
        enc_message(m).len() <= MAX_MESSAGE_SIZE_BYTES,
    ensures
        dec_frame(framed(enc_message(m)), 0) == Some(
            (enc_message(m), framed(enc_message(m)).len() as int),
        ),
{
    let e = enc_message(m);
    let w = framed(e);
    assert(w + Seq::<u8>::empty() =~= w);
    assert(w.subrange(0, w.len() as int) =~= w);
    lemma_frame_round_trip(e, Seq::empty(), w, 0);
}

/// Law: a serialized message that fits the cap, framed and sent through a
/// pipe, is received back as the same message.
pub proof fn lemma_wire_round_trip(m: MessageView)
    requires
        m.wf(),
        enc_message(m).len() <= MAX_MESSAGE_SIZE_BYTES,
    ensures
        ({
            let w = framed(enc_message(m));
            &&& dec_frame(w, 0) == Some((enc_message(m), w.len() as int))
            &&& dec_message(enc_message(m), 0) == Some((m, enc_message(m).len() as int))
        }),
{
    lemma_wire_frame_part(m);
    lemma_wire_message_part(m);
}

/// Serializes a message and wraps it in a length frame, appending to `out`.
///
/// Fails with `MessageTooLarge`, writing nothing, exactly when the
/// serialized message exceeds the cap.
pub fn send_into_buffer(msg: &Message, out: &mut Vec<u8>) -> (r: StreamResult<usize>)
    ensures
        enc_message(msg@).len() <= MAX_MESSAGE_SIZE_BYTES ==> (r matches Ok(n) && final(out)@ == old(
            out,
        )@ + framed(enc_message(msg@)) && n == 4 + enc_message(msg@).len()),
        enc_message(msg@).len() > MAX_MESSAGE_SIZE_BYTES ==> (r matches Err(
            StreamError::MessageTooLarge { size, max },
        ) && size == enc_message(msg@).len() && max == MAX_MESSAGE_SIZE_BYTES && *final(out) == *old(
            out,
        )),
{
    let data = match msg.to_bytes() {
        Ok(d) => d,
        Err(_) => {
            return Err(StreamError::Serialization(String::from_str("encoding failed")));
        },
    };
    let size = data.len();
    if size > MAX_MESSAGE_SIZE_BYTES {
        return Err(StreamError::MessageTooLarge { size, max: MAX_MESSAGE_SIZE_BYTES });
    }
    let n = size as u32;
    out.push((n / 16777216) as u8);
    out.push((n / 65536 % 256) as u8);
    out.push((n / 256 % 256) as u8);
    out.push((n % 256) as u8);
    let mut i: usize = 0;
    let ghost mid = out@;
    while i < size
        invariant
            0 <= i <= size,
            size == data@.len(),
            out@ == mid + data@.take(i as int),
        decreases size - i,
    {
        out.push(data[i]);
        proof {
            assert(mid + data@.take(i + 1) =~= (mid + data@.take(i as int)).push(data@[i as int]));
        }
        i += 1;
    }
    proof {
        assert(data@.take(size as int) =~= data@);
        assert(out@ =~= old(out)@ + framed(enc_message(msg@)));
    }
    Ok(size + 4)
}

/// The big-endian length a frame at `pos` announces.
pub open spec fn frame_header_val(s: Seq<u8>, pos: int) -> int {
    16777216 * s[pos] as int + 65536 * s[pos + 1] as int + 256 * s[pos + 2] as int + s[pos
        + 3] as int
}

/// Reads one framed message from `data` at `pos`.
///
/// Returns the message and the position after its frame. Fails with
/// `StreamClosed` when `pos` is the clean end of the data, `ReadError`
/// when the prefix or the announced payload is cut short,
/// `MessageTooLarge` when the announced length exceeds the cap (checked
/// before the payload is read), and `Deserialization` when the payload is
/// not exactly one well-formed message.
pub fn recv_from_buffer(data: &[u8], pos: usize) -> (r: StreamResult<(Message, usize)>)
    ensures
        r matches Ok(v) ==> (dec_frame(data@, pos as int) matches Some(f) && v.1 == f.1
            && dec_message(f.0, 0) == Some((v.0@, f.0.len() as int))),
        pos >= data@.len() ==> r matches Err(StreamError::StreamClosed),
        pos < data@.len() && pos + 4 > data@.len() ==> r matches Err(StreamError::ReadError(_)),
        pos + 4 <= data@.len() && frame_header_val(data@, pos as int) > MAX_MESSAGE_SIZE_BYTES ==> (
        r matches Err(StreamError::MessageTooLarge { size, max }) && size == frame_header_val(
            data@,
            pos as int,
        ) && max == MAX_MESSAGE_SIZE_BYTES),
        pos + 4 <= data@.len() && frame_header_val(data@, pos as int) <= MAX_MESSAGE_SIZE_BYTES
            && pos + 4 + frame_header_val(data@, pos as int) > data@.len() ==> r matches Err(
            StreamError::ReadError(_),
        ),
        pos + 4 <= data@.len() && frame_header_val(data@, pos as int) <= MAX_MESSAGE_SIZE_BYTES
            && pos + 4 + frame_header_val(data@, pos as int) <= data@.len() ==> {
            let payload = data@.subrange(pos + 4, pos + 4 + frame_header_val(data@, pos as int));
            match dec_message(payload, 0) {
                Some(p) => if p.1 == payload.len() {
                    r is Ok
                } else {
                    r matches Err(StreamError::Deserialization(_))
                },
                None => r matches Err(StreamError::Deserialization(_)),
            }
        },
{
    let dlen = data.len();
    if pos >= dlen {
        return Err(StreamError::StreamClosed);
    }
    if dlen - pos < 4 {
        return Err(StreamError::ReadError(String::from_str("length prefix cut short")));
    }
    let n: usize = 16777216 * data[pos] as usize + 65536 * data[pos + 1] as usize + 256 * data[pos
        + 2] as usize + data[pos + 3] as usize;
    if n > MAX_MESSAGE_SIZE_BYTES {
        return Err(StreamError::MessageTooLarge { size: n, max: MAX_MESSAGE_SIZE_BYTES });
    }
    if n > dlen - (pos + 4) {
        return Err(StreamError::ReadError(String::from_str("payload cut short")));
    }
    let mut payload: Vec<u8> = Vec::new();
    let mut i: usize = 0;
    while i < n
        invariant
            0 <= i <= n,
            pos + 4 + n <= dlen,
            dlen == data@.len(),
            payload@ == data@.subrange(pos + 4, pos + 4 + i),
        decreases n - i,
    {
        payload.push(data[pos + 4 + i]);
        proof {
            assert(data@.subrange(pos + 4, pos + 4 + i + 1) =~= data@.subrange(
                pos + 4,
                pos + 4 + i,
            ).push(data@[pos + 4 + i]));
        }
        i += 1;
    }
    match Message::from_bytes(payload.as_slice()) {
        Ok(m) => Ok((m, pos + 4 + n)),
        Err(_) => Err(StreamError::Deserialization(String::from_str("malformed message"))),
    }
}

} // verus!
