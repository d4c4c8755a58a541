//! The byte-level wire codec: little-endian scalars, length-prefixed byte
//! strings and UTF-8 text, and the encoding of whole protocol messages.
//!
//! The format is specified by the `enc_*` functions; `dec_*` are their
//! specification-level parsers. The executable encoder and parser are
//! verified against them, and the round-trip laws are proved over the
//! specifications themselves.

use vstd::prelude::*;

use crate::protocol::{
    Capability, ConnectionAccept, ConnectionReject, ConnectionRequest, DesktopInfo, Disconnect,
    DisconnectReason, ErrorCode, ErrorMessage, FrameFormat, Heartbeat, KeyboardEventData,
    KeyboardEventTypeData, Message, MessagePayload, MessageType, MouseEventData,
    MouseEventTypeData, RejectReason, ScreenFrameData, ConnectionAcceptView, ConnectionRejectView,
    ConnectionRequestView, ErrorMessageView, MessagePayloadView, MessageView, ScreenFrameDataView,
};

verus! {

use vstd::arithmetic::div_mod::{
    lemma_div_denominator, lemma_fundamental_div_mod, lemma_div_is_ordered,
};
use vstd::utf8::{decode_utf8, encode_utf8, valid_utf8, encode_utf8_valid_utf8,
    encode_utf8_decode_utf8};

/// The two bytes of `v`, little-endian.
pub open spec fn le16(v: u16) -> Seq<u8> {
    seq![(v as int % 256) as u8, (v as int / 256) as u8]
}

/// The four bytes of `v`, little-endian.
pub open spec fn le32(v: u32) -> Seq<u8> {
    seq![
        (v as int % 256) as u8,
        (v as int / 256 % 256) as u8,
        (v as int / 65536 % 256) as u8,
        (v as int / 16777216) as u8,
    ]
}

/// The eight bytes of `v`, little-endian.
pub open spec fn le64(v: u64) -> Seq<u8> {
    seq![
        (v as int % 256) as u8,
        (v as int / 256 % 256) as u8,
        (v as int / 65536 % 256) as u8,
        (v as int / 16777216 % 256) as u8,
        (v as int / 4294967296 % 256) as u8,
        (v as int / 1099511627776 % 256) as u8,
        (v as int / 281474976710656 % 256) as u8,
        (v as int / 72057594037927936) as u8,
    ]
}

/// The four bytes of `v`, big-endian, as used by the frame length prefix.
pub open spec fn be32(v: u32) -> Seq<u8> {
    seq![
        (v as int / 16777216) as u8,
        (v as int / 65536 % 256) as u8,
        (v as int / 256 % 256) as u8,
        (v as int % 256) as u8,
    ]
}

/// The two's-complement 32-bit image of a signed value.
pub open spec fn wrap_i32(v: i32) -> u32 {
    if v >= 0 {
        v as u32
    } else {
        (v + 0x1_0000_0000) as u32
    }
}

/// `wrap_i32` loses nothing.
pub proof fn lemma_wrap_i32_injective(a: i32, b: i32)
    requires
        wrap_i32(a) == wrap_i32(b),
    ensures
        a == b,
{
}

/// A length-prefixed byte string: eight bytes of little-endian length,
/// then the bytes themselves.
pub open spec fn enc_bytes(b: Seq<u8>) -> Seq<u8> {
    le64(b.len() as u64) + b
}

/// A length-prefixed UTF-8 string.
pub open spec fn enc_str(s: Seq<char>) -> Seq<u8> {
    enc_bytes(encode_utf8(s))
}

/// Reads one byte.
pub open spec fn dec_u8(s: Seq<u8>, pos: int) -> Option<(u8, int)> {
    if 0 <= pos && pos + 1 <= s.len() {
        Some((s[pos], pos + 1))
    } else {
        None
    }
}

/// Reads a little-endian `u16`.
pub open spec fn dec_u16(s: Seq<u8>, pos: int) -> Option<(u16, int)> {
    if 0 <= pos && pos + 2 <= s.len() {
        Some(((s[pos] as int + 256 * s[pos + 1] as int) as u16, pos + 2))
    } else {
        None
    }
}

/// Reads a little-endian `u32`.
pub open spec fn dec_u32(s: Seq<u8>, pos: int) -> Option<(u32, int)> {
    if 0 <= pos && pos + 4 <= s.len() {
        Some(
            (
                (s[pos] as int + 256 * s[pos + 1] as int + 65536 * s[pos + 2] as int + 16777216 * s[pos + 3] as int) as u32,
                pos + 4,
            ),
        )
    } else {
        None
    }
}

/// Reads a little-endian `u64`.
pub open spec fn dec_u64(s: Seq<u8>, pos: int) -> Option<(u64, int)> {
    if 0 <= pos && pos + 8 <= s.len() {
        Some(
            (
                (s[pos] as int + 256 * s[pos + 1] as int + 65536 * s[pos + 2] as int + 16777216 * s[pos + 3] as int + 4294967296 * s[pos + 4] as int + 1099511627776 * s[pos + 5] as int
                    + 281474976710656 * s[pos + 6] as int + 72057594037927936 * s[pos + 7] as int) as u64,
                pos + 8,
            ),
        )
    } else {
        None
    }
}

/// Reads a length-prefixed byte string.
pub open spec fn dec_bytes(s: Seq<u8>, pos: int) -> Option<(Seq<u8>, int)> {
    match dec_u64(s, pos) {
        Some((n, p)) => if p + n <= s.len() {
            Some((s.subrange(p, p + n), p + n))
        } else {
            None
        },
        None => None,
    }
}

/// Reads a length-prefixed UTF-8 string.
pub open spec fn dec_str(s: Seq<u8>, pos: int) -> Option<(Seq<char>, int)> {
    match dec_bytes(s, pos) {
        Some((b, p)) => if valid_utf8(b) {
            Some((decode_utf8(b), p))
        } else {
            None
        },
        None => None,
    }
}

/// Splitting a concatenation at the first part's length returns the parts.
pub proof fn lemma_concat_parts<A>(a: Seq<A>, b: Seq<A>)
    ensures
        (a + b).len() == a.len() + b.len(),
        (a + b).subrange(0, a.len() as int) =~= a,
        (a + b).subrange(a.len() as int, (a.len() + b.len()) as int) =~= b,
        forall|i: int| 0 <= i < a.len() ==> (a + b)[i] == a[i],
        forall|i: int| 0 <= i < b.len() ==> (a + b)[a.len() + i] == b[i],
{
}

/// `v` is recovered from its little-endian bytes at `pos`.
pub proof fn lemma_le32_recompose(v: u32)
    ensures
        v as int % 256 + 256 * (v as int / 256 % 256) + 65536 * (v as int / 65536 % 256) + 16777216
            * (v as int / 16777216) == v as int,
        v as int / 16777216 < 256,
{
    let i = v as int;
    lemma_div_denominator(i, 256, 256);
    lemma_div_denominator(i, 65536, 256);
    lemma_fundamental_div_mod(i, 256);
    lemma_fundamental_div_mod(i / 256, 256);
    lemma_fundamental_div_mod(i / 65536, 256);
    lemma_div_is_ordered(i, 0xFFFF_FFFF, 16777216);
    vstd::arithmetic::div_mod::lemma_fundamental_div_mod_converse(0xFFFF_FFFF, 16777216, 255, 16777215);
}

/// `v` is recovered from its little-endian bytes.
pub proof fn lemma_le64_recompose(v: u64)
    ensures
        v as int % 256 + 256 * (v as int / 256 % 256) + 65536 * (v as int / 65536 % 256) + 16777216
            * (v as int / 16777216 % 256) + 4294967296 * (v as int / 4294967296 % 256)
            + 1099511627776 * (v as int / 1099511627776 % 256) + 281474976710656 * (v as int
            / 281474976710656 % 256) + 72057594037927936 * (v as int / 72057594037927936) == v as int,
        v as int / 72057594037927936 < 256,
{
    let i = v as int;
    lemma_div_denominator(i, 256, 256);
    lemma_div_denominator(i, 65536, 256);
    lemma_div_denominator(i, 16777216, 256);
    lemma_div_denominator(i, 4294967296, 256);
    lemma_div_denominator(i, 1099511627776, 256);
    lemma_div_denominator(i, 281474976710656, 256);
    lemma_fundamental_div_mod(i, 256);
    lemma_fundamental_div_mod(i / 256, 256);
    lemma_fundamental_div_mod(i / 65536, 256);
    lemma_fundamental_div_mod(i / 16777216, 256);
    lemma_fundamental_div_mod(i / 4294967296, 256);
    lemma_fundamental_div_mod(i / 1099511627776, 256);
    lemma_fundamental_div_mod(i / 281474976710656, 256);
    lemma_div_is_ordered(i, 0xFFFF_FFFF_FFFF_FFFF, 72057594037927936);
    vstd::arithmetic::div_mod::lemma_fundamental_div_mod_converse(
        0xFFFF_FFFF_FFFF_FFFF,
        72057594037927936,
        255,
        72057594037927935,
    );
}

/// `v` is recovered from its two little-endian bytes.
pub proof fn lemma_le16_recompose(v: u16)
    ensures
        v as int % 256 + 256 * (v as int / 256) == v as int,
        v as int / 256 < 256,
{
    let i = v as int;
    lemma_fundamental_div_mod(i, 256);
    lemma_div_is_ordered(i, 0xFFFF, 256);
    vstd::arithmetic::div_mod::lemma_fundamental_div_mod_converse(0xFFFF, 256, 255, 255);
}

/// Reading a `u16` from its encoding yields the value back.
pub proof fn lemma_dec_enc_u16(v: u16, rest: Seq<u8>, s: Seq<u8>, pos: int)
    requires
        0 <= pos <= s.len(),
        s.subrange(pos, s.len() as int) == le16(v) + rest,
    ensures
        dec_u16(s, pos) == Some((v, pos + 2)),
{
    lemma_le16_recompose(v);
    let tail = s.subrange(pos, s.len() as int);
    lemma_concat_parts(le16(v), rest);
    assert(forall|i: int| 0 <= i < tail.len() ==> tail[i] == s[pos + i]);
    assert(s[pos] == le16(v)[0] && s[pos + 1] == le16(v)[1]);
    assert(s[pos] as int == v as int % 256);
    assert(s[pos + 1] as int == v as int / 256);
    assert(s[pos] as int + 256 * s[pos + 1] as int == v as int);
}

/// Reading a `u32` from its encoding yields the value back.
pub proof fn lemma_dec_enc_u32(v: u32, rest: Seq<u8>, s: Seq<u8>, pos: int)
    requires
        0 <= pos <= s.len(),
        s.subrange(pos, s.len() as int) == le32(v) + rest,
    ensures
        dec_u32(s, pos) == Some((v, pos + 4)),
{
    lemma_le32_recompose(v);
    let tail = s.subrange(pos, s.len() as int);
    lemma_concat_parts(le32(v), rest);
    assert(forall|i: int| 0 <= i < tail.len() ==> tail[i] == s[pos + i]);
    assert(s[pos] == le32(v)[0] && s[pos + 1] == le32(v)[1] && s[pos + 2] == le32(v)[2] && s[pos
        + 3] == le32(v)[3]);
    assert(s[pos] as int == v as int % 256);
    assert(s[pos + 1] as int == v as int / 256 % 256);
    assert(s[pos + 2] as int == v as int / 65536 % 256);
    assert(s[pos + 3] as int == v as int / 16777216);
    assert(s[pos] as int + 256 * s[pos + 1] as int + 65536 * s[pos + 2] as int + 16777216 * s[pos
        + 3] as int == v as int);
}

/// Reading a `u64` from its encoding yields the value back.
pub proof fn lemma_dec_enc_u64(v: u64, rest: Seq<u8>, s: Seq<u8>, pos: int)
    requires
        0 <= pos <= s.len(),
        s.subrange(pos, s.len() as int) == le64(v) + rest,
    ensures
        dec_u64(s, pos) == Some((v, pos + 8)),
{
    lemma_le64_recompose(v);
    let tail = s.subrange(pos, s.len() as int);
    lemma_concat_parts(le64(v), rest);
    assert(forall|i: int| 0 <= i < tail.len() ==> tail[i] == s[pos + i]);
    assert(s[pos] == le64(v)[0] && s[pos + 1] == le64(v)[1] && s[pos + 2] == le64(v)[2] && s[pos
        + 3] == le64(v)[3] && s[pos + 4] == le64(v)[4] && s[pos + 5] == le64(v)[5] && s[pos + 6]
        == le64(v)[6] && s[pos + 7] == le64(v)[7]);
    assert(s[pos] as int == v as int % 256);
    assert(s[pos + 1] as int == v as int / 256 % 256);
    assert(s[pos + 2] as int == v as int / 65536 % 256);
    assert(s[pos + 3] as int == v as int / 16777216 % 256);
    assert(s[pos + 4] as int == v as int / 4294967296 % 256);
    assert(s[pos + 5] as int == v as int / 1099511627776 % 256);
    assert(s[pos + 6] as int == v as int / 281474976710656 % 256);
    assert(s[pos + 7] as int == v as int / 72057594037927936);
    assert(s[pos] as int + 256 * s[pos + 1] as int + 65536 * s[pos + 2] as int + 16777216 * s[pos
        + 3] as int + 4294967296 * s[pos + 4] as int + 1099511627776 * s[pos + 5] as int
        + 281474976710656 * s[pos + 6] as int + 72057594037927936 * s[pos + 7] as int == v as int);
}

/// Reading a byte from its encoding yields the value back.
pub proof fn lemma_dec_enc_u8(v: u8, rest: Seq<u8>, s: Seq<u8>, pos: int)
    requires
        0 <= pos <= s.len(),
        s.subrange(pos, s.len() as int) == seq![v] + rest,
    ensures
        dec_u8(s, pos) == Some((v, pos + 1)),
{
    let tail = s.subrange(pos, s.len() as int);
    lemma_concat_parts(seq![v], rest);
    assert(forall|i: int| 0 <= i < tail.len() ==> tail[i] == s[pos + i]);
    assert(tail[0] == (seq![v] + rest)[0]);
    assert((seq![v] + rest)[0] == seq![v][0]);
    assert(s[pos] == v);
}

/// Reading a byte string from its encoding yields the bytes back.
pub proof fn lemma_dec_enc_bytes(b: Seq<u8>, rest: Seq<u8>, s: Seq<u8>, pos: int)
    requires
        0 <= pos <= s.len(),
        b.len() <= u64::MAX,
        s.subrange(pos, s.len() as int) == enc_bytes(b) + rest,
    ensures
        dec_bytes(s, pos) == Some((b, pos + 8 + b.len())),
{
    let tail = s.subrange(pos, s.len() as int);
    lemma_concat_parts(le64(b.len() as u64), b + rest);
    assert(tail =~= le64(b.len() as u64) + (b + rest));
    lemma_dec_enc_u64(b.len() as u64, b + rest, s, pos);
    let p = pos + 8;
    assert(p + b.len() <= s.len()) by {
        lemma_concat_parts(enc_bytes(b), rest);
    }
    assert(s.subrange(p, p + b.len() as int) =~= b) by {
        assert(forall|i: int| 0 <= i < tail.len() ==> tail[i] == s[pos + i]);
        assert(forall|i: int| 0 <= i < b.len() ==> (le64(b.len() as u64) + (b + rest))[8 + i]
            == b[i]);
    }
}

/// The signed value back from its two's-complement image.
pub open spec fn unwrap_i32(u: u32) -> i32 {
    if u < 0x8000_0000 {
        u as i32
    } else {
        (u - 0x1_0000_0000) as i32
    }
}

/// Wire tag of a message type, its declaration index.
pub open spec fn message_type_tag(t: MessageType) -> u32 {
    match t {
        MessageType::ConnectionRequest => 0,
        MessageType::ConnectionAccept => 1,
        MessageType::ConnectionReject => 2,
        MessageType::Disconnect => 3,
        MessageType::Heartbeat => 4,
        MessageType::AuthChallenge => 5,
        MessageType::AuthResponse => 6,
        MessageType::ScreenFrame => 7,
        MessageType::ScreenFrameDiff => 8,
        MessageType::KeyboardEvent => 9,
        MessageType::MouseEvent => 10,
        MessageType::ResolutionChange => 11,
        MessageType::ClipboardUpdate => 12,
        MessageType::QualityUpdate => 13,
        MessageType::Statistics => 14,
        MessageType::Error => 15,
    }
}

/// The message type with the given wire tag.
pub open spec fn message_type_of_tag(t: u32) -> Option<MessageType> {
    if t == 0 {
        Some(MessageType::ConnectionRequest)
    } else if t == 1 {
        Some(MessageType::ConnectionAccept)
    } else if t == 2 {
        Some(MessageType::ConnectionReject)
    } else if t == 3 {
        Some(MessageType::Disconnect)
    } else if t == 4 {
        Some(MessageType::Heartbeat)
    } else if t == 5 {
        Some(MessageType::AuthChallenge)
    } else if t == 6 {
        Some(MessageType::AuthResponse)
    } else if t == 7 {
        Some(MessageType::ScreenFrame)
    } else if t == 8 {
        Some(MessageType::ScreenFrameDiff)
    } else if t == 9 {
        Some(MessageType::KeyboardEvent)
    } else if t == 10 {
        Some(MessageType::MouseEvent)
    } else if t == 11 {
        Some(MessageType::ResolutionChange)
    } else if t == 12 {
        Some(MessageType::ClipboardUpdate)
    } else if t == 13 {
        Some(MessageType::QualityUpdate)
    } else if t == 14 {
        Some(MessageType::Statistics)
    } else if t == 15 {
        Some(MessageType::Error)
    } else {
        None
    }
}

/// Wire tag of a capability.
pub open spec fn cap_tag(c: Capability) -> u32 {
    match c {
        Capability::RemoteControl => 0,
        Capability::ClipboardSync => 1,
        Capability::FileTransfer => 2,
    }
}

/// The capability with the given wire tag.
pub open spec fn cap_of_tag(t: u32) -> Option<Capability> {
    if t == 0 {
        Some(Capability::RemoteControl)
    } else if t == 1 {
        Some(Capability::ClipboardSync)
    } else if t == 2 {
        Some(Capability::FileTransfer)
    } else {
        None
    }
}

/// Wire tag of a rejection reason.
pub open spec fn reject_tag(r: RejectReason) -> u32 {
    match r {
        RejectReason::UserDenied => 0,
        RejectReason::InvalidPassword => 1,
        RejectReason::InvalidId => 2,
        RejectReason::AlreadyConnected => 3,
        RejectReason::AccountLocked => 4,
        RejectReason::UnsupportedVersion => 5,
    }
}

/// The rejection reason with the given wire tag.
pub open spec fn reject_of_tag(t: u32) -> Option<RejectReason> {
    if t == 0 {
        Some(RejectReason::UserDenied)
    } else if t == 1 {
        Some(RejectReason::InvalidPassword)
    } else if t == 2 {
        Some(RejectReason::InvalidId)
    } else if t == 3 {
        Some(RejectReason::AlreadyConnected)
    } else if t == 4 {
        Some(RejectReason::AccountLocked)
    } else if t == 5 {
        Some(RejectReason::UnsupportedVersion)
    } else {
        None
    }
}

/// Wire tag of a disconnect reason.
pub open spec fn disconnect_tag(r: DisconnectReason) -> u32 {
    match r {
        DisconnectReason::UserInitiated => 0,
        DisconnectReason::SessionTimeout => 1,
        DisconnectReason::Error => 2,
    }
}

/// The disconnect reason with the given wire tag.
pub open spec fn disconnect_of_tag(t: u32) -> Option<DisconnectReason> {
    if t == 0 {
        Some(DisconnectReason::UserInitiated)
    } else if t == 1 {
        Some(DisconnectReason::SessionTimeout)
    } else if t == 2 {
        Some(DisconnectReason::Error)
    } else {
        None
    }
}

/// Wire tag of an error code.
pub open spec fn error_code_tag(c: ErrorCode) -> u32 {
    match c {
        ErrorCode::UnknownError => 0,
        ErrorCode::ProtocolViolation => 1,
        ErrorCode::UnsupportedMessage => 2,
        ErrorCode::InvalidPayload => 3,
        ErrorCode::PermissionDenied => 4,
        ErrorCode::ResourceExhausted => 5,
    }
}

/// The error code with the given wire tag.
pub open spec fn error_code_of_tag(t: u32) -> Option<ErrorCode> {
    if t == 0 {
        Some(ErrorCode::UnknownError)
    } else if t == 1 {
        Some(ErrorCode::ProtocolViolation)
    } else if t == 2 {
        Some(ErrorCode::UnsupportedMessage)
    } else if t == 3 {
        Some(ErrorCode::InvalidPayload)
    } else if t == 4 {
        Some(ErrorCode::PermissionDenied)
    } else if t == 5 {
        Some(ErrorCode::ResourceExhausted)
    } else {
        None
    }
}

/// Wire tag of a frame format.
pub open spec fn frame_format_tag(f: FrameFormat) -> u32 {
    match f {
        FrameFormat::Jpeg => 0,
        FrameFormat::Png => 1,
        FrameFormat::Raw => 2,
    }
}

/// The frame format with the given wire tag.
pub open spec fn frame_format_of_tag(t: u32) -> Option<FrameFormat> {
    if t == 0 {
        Some(FrameFormat::Jpeg)
    } else if t == 1 {
        Some(FrameFormat::Png)
    } else if t == 2 {
        Some(FrameFormat::Raw)
    } else {
        None
    }
}

/// Wire tag of a keyboard event type.
pub open spec fn kbd_tag(t: KeyboardEventTypeData) -> u32 {
    match t {
        KeyboardEventTypeData::KeyPress => 0,
        KeyboardEventTypeData::KeyRelease => 1,
    }
}

/// Wire tag of a payload variant, its declaration index.
pub open spec fn payload_tag(p: MessagePayloadView) -> u32 {
    match p {
        MessagePayloadView::ConnectionRequest(_) => 0,
        MessagePayloadView::ConnectionAccept(_) => 1,
        MessagePayloadView::ConnectionReject(_) => 2,
        MessagePayloadView::Disconnect(_) => 3,
        MessagePayloadView::Heartbeat(_) => 4,
        MessagePayloadView::Error(_) => 5,
        MessagePayloadView::ScreenFrame(_) => 6,
        MessagePayloadView::KeyboardEvent(_) => 7,
        MessagePayloadView::MouseEvent(_) => 8,
    }
}

/// A capability list, one tag per element.
pub open spec fn enc_cap_list(cs: Seq<Capability>) -> Seq<u8>
    decreases cs.len(),
{
    if cs.len() == 0 {
        Seq::empty()
    } else {
        le32(cap_tag(cs[0])) + enc_cap_list(cs.drop_first())
    }
}

/// A length-prefixed capability list.
pub open spec fn enc_caps(cs: Seq<Capability>) -> Seq<u8> {
    le64(cs.len() as u64) + enc_cap_list(cs)
}

/// An optional 32-byte hash: a presence byte, then the bytes if present.
pub open spec fn enc_opt_hash(o: Option<Seq<u8>>) -> Seq<u8> {
    match o {
        None => seq![0u8],
        Some(h) => seq![1u8] + h,
    }
}

/// An optional string: a presence byte, then the string if present.
pub open spec fn enc_opt_str(o: Option<Seq<char>>) -> Seq<u8> {
    match o {
        None => seq![0u8],
        Some(m) => seq![1u8] + enc_str(m),
    }
}

/// Desktop facts on the wire.
pub open spec fn enc_desktop(d: DesktopInfo) -> Seq<u8> {
    le16(d.screen_width) + le16(d.screen_height) + seq![d.screen_count]
}

/// A connection request on the wire.
pub open spec fn enc_request(r: ConnectionRequestView) -> Seq<u8> {
    seq![r.protocol_version] + le32(r.client_id) + enc_str(r.client_name) + le32(r.host_id)
        + enc_opt_hash(r.password_hash) + enc_caps(r.requested_capabilities)
}

/// A connection acceptance on the wire.
pub open spec fn enc_accept(a: ConnectionAcceptView) -> Seq<u8> {
    a.session_id + enc_str(a.host_name) + enc_caps(a.host_capabilities) + enc_desktop(
        a.desktop_info,
    )
}

/// A connection rejection on the wire.
pub open spec fn enc_reject(r: ConnectionRejectView) -> Seq<u8> {
    le32(reject_tag(r.reason)) + enc_opt_str(r.message)
}

/// An error report on the wire.
pub open spec fn enc_error(e: ErrorMessageView) -> Seq<u8> {
    le32(error_code_tag(e.error_code)) + enc_str(e.message)
}

/// A screen frame on the wire.
pub open spec fn enc_screen_frame(f: ScreenFrameDataView) -> Seq<u8> {
    le64(f.sequence) + le32(f.width) + le32(f.height) + le32(frame_format_tag(f.format))
        + enc_bytes(f.data) + le64(f.timestamp)
}

/// A keyboard event on the wire.
pub open spec fn enc_keyboard(k: KeyboardEventData) -> Seq<u8> {
    le32(kbd_tag(k.event_type)) + le16(k.key) + le64(k.timestamp)
}

/// A mouse event shape on the wire.
pub open spec fn enc_mouse_type(t: MouseEventTypeData) -> Seq<u8> {
    match t {
        MouseEventTypeData::Move { x, y } => le32(0) + le32(wrap_i32(x)) + le32(wrap_i32(y)),
        MouseEventTypeData::ButtonPress { button } => le32(1) + seq![button],
        MouseEventTypeData::ButtonRelease { button } => le32(2) + seq![button],
        MouseEventTypeData::Wheel { delta_x, delta_y } => le32(3) + le32(wrap_i32(delta_x))
            + le32(wrap_i32(delta_y)),
    }
}

/// A mouse event on the wire.
pub open spec fn enc_mouse(m: MouseEventData) -> Seq<u8> {
    enc_mouse_type(m.event_type) + le64(m.timestamp)
}

/// A payload on the wire: its variant tag, then the variant's fields.
#[verifier::opaque]
pub open spec fn enc_payload(p: MessagePayloadView) -> Seq<u8> {
    le32(payload_tag(p)) + match p {
        MessagePayloadView::ConnectionRequest(r) => enc_request(r),
        MessagePayloadView::ConnectionAccept(a) => enc_accept(a),
        MessagePayloadView::ConnectionReject(r) => enc_reject(r),
        MessagePayloadView::Disconnect(d) => le32(disconnect_tag(d.reason)),
        MessagePayloadView::Heartbeat(h) => le64(h.timestamp),
        MessagePayloadView::Error(e) => enc_error(e),
        MessagePayloadView::ScreenFrame(f) => enc_screen_frame(f),
        MessagePayloadView::KeyboardEvent(k) => enc_keyboard(k),
        MessagePayloadView::MouseEvent(m) => enc_mouse(m),
    }
}

/// A whole message on the wire.
pub open spec fn enc_message(m: MessageView) -> Seq<u8> {
    le32(m.message_id) + le32(message_type_tag(m.message_type)) + enc_payload(m.payload)
}

impl MessageView {
    /// Structural bounds under which a view can come from a real message.
    pub open spec fn wf(&self) -> bool {
        match self.payload {
            MessagePayloadView::ConnectionRequest(r) => {
                &&& encode_utf8(r.client_name).len() <= u64::MAX
                &&& r.requested_capabilities.len() <= u64::MAX
                &&& match r.password_hash {
                    Some(h) => h.len() == 32,
                    None => true,
                }
            },
            MessagePayloadView::ConnectionAccept(a) => {
                &&& a.session_id.len() == 16
                &&& encode_utf8(a.host_name).len() <= u64::MAX
                &&& a.host_capabilities.len() <= u64::MAX
            },
            MessagePayloadView::ConnectionReject(r) => match r.message {
                Some(m) => encode_utf8(m).len() <= u64::MAX,
                None => true,
            },
            MessagePayloadView::Error(e) => encode_utf8(e.message).len() <= u64::MAX,
            MessagePayloadView::ScreenFrame(f) => f.data.len() <= u64::MAX,
            _ => true,
        }
    }
}

/// Reads a capability.
pub open spec fn dec_cap(s: Seq<u8>, pos: int) -> Option<(Capability, int)> {
    match dec_u32(s, pos) {
        Some((t, p)) => match cap_of_tag(t) {
            Some(c) => Some((c, p)),
            None => None,
        },
        None => None,
    }
}

/// Reads `n` capabilities.
pub open spec fn dec_cap_list(s: Seq<u8>, pos: int, n: int) -> Option<(Seq<Capability>, int)>
    decreases n,
{
    if n <= 0 {
        Some((Seq::empty(), pos))
    } else {
        match dec_cap(s, pos) {
            Some((c, p)) => match dec_cap_list(s, p, n - 1) {
                Some((cs, p2)) => Some((seq![c] + cs, p2)),
                None => None,
            },
            None => None,
        }
    }
}

/// Reads a length-prefixed capability list.
pub open spec fn dec_caps(s: Seq<u8>, pos: int) -> Option<(Seq<Capability>, int)> {
    match dec_u64(s, pos) {
        Some((n, p)) => dec_cap_list(s, p, n as int),
        None => None,
    }
}

/// Reads an optional 32-byte hash.
pub open spec fn dec_opt_hash(s: Seq<u8>, pos: int) -> Option<(Option<Seq<u8>>, int)> {
    match dec_u8(s, pos) {
        Some((t, p)) => if t == 0 {
            Some((None, p))
        } else if t == 1 && p + 32 <= s.len() {
            Some((Some(s.subrange(p, p + 32)), p + 32))
        } else {
            None
        },
        None => None,
    }
}

/// Reads an optional string.
pub open spec fn dec_opt_str(s: Seq<u8>, pos: int) -> Option<(Option<Seq<char>>, int)> {
    match dec_u8(s, pos) {
        Some((t, p)) => if t == 0 {
            Some((None, p))
        } else if t == 1 {
            match dec_str(s, p) {
                Some((m, p2)) => Some((Some(m), p2)),
                None => None,
            }
        } else {
            None
        },
        None => None,
    }
}

/// Reads desktop facts.
pub open spec fn dec_desktop(s: Seq<u8>, pos: int) -> Option<(DesktopInfo, int)> {
    match dec_u16(s, pos) {
        Some((w, p1)) => match dec_u16(s, p1) {
            Some((h, p2)) => match dec_u8(s, p2) {
                Some((c, p3)) => Some(
                    (DesktopInfo { screen_width: w, screen_height: h, screen_count: c }, p3),
                ),
                None => None,
            },
            None => None,
        },
        None => None,
    }
}

/// Reads a connection request.
pub open spec fn dec_request(s: Seq<u8>, pos: int) -> Option<(ConnectionRequestView, int)> {
    match dec_u8(s, pos) {
        Some((ver, p1)) => match dec_u32(s, p1) {
            Some((cid, p2)) => match dec_str(s, p2) {
                Some((name, p3)) => match dec_u32(s, p3) {
                    Some((hid, p4)) => match dec_opt_hash(s, p4) {
                        Some((hash, p5)) => match dec_caps(s, p5) {
                            Some((caps, p6)) => Some(
                                (
                                    ConnectionRequestView {
                                        protocol_version: ver,
                                        client_id: cid,
                                        client_name: name,
                                        host_id: hid,
                                        password_hash: hash,
                                        requested_capabilities: caps,
                                    },
                                    p6,
                                ),
                            ),
                            None => None,
                        },
                        None => None,
                    },
                    None => None,
                },
                None => None,
            },
            None => None,
        },
        None => None,
    }
}

/// Reads a connection acceptance.
pub open spec fn dec_accept(s: Seq<u8>, pos: int) -> Option<(ConnectionAcceptView, int)> {
    if 0 <= pos && pos + 16 <= s.len() {
        let sid = s.subrange(pos, pos + 16);
        match dec_str(s, pos + 16) {
            Some((name, p1)) => match dec_caps(s, p1) {
                Some((caps, p2)) => match dec_desktop(s, p2) {
                    Some((d, p3)) => Some(
                        (
                            ConnectionAcceptView {
                                session_id: sid,
                                host_name: name,
                                host_capabilities: caps,
                                desktop_info: d,
                            },
                            p3,
                        ),
                    ),
                    None => None,
                },
                None => None,
            },
            None => None,
        }
    } else {
        None
    }
}

/// Reads a connection rejection.
pub open spec fn dec_reject(s: Seq<u8>, pos: int) -> Option<(ConnectionRejectView, int)> {
    match dec_u32(s, pos) {
        Some((t, p1)) => match reject_of_tag(t) {
            Some(reason) => match dec_opt_str(s, p1) {
                Some((m, p2)) => Some((ConnectionRejectView { reason, message: m }, p2)),
                None => None,
            },
            None => None,
        },
        None => None,
    }
}

/// Reads an error report.
pub open spec fn dec_error(s: Seq<u8>, pos: int) -> Option<(ErrorMessageView, int)> {
    match dec_u32(s, pos) {
        Some((t, p1)) => match error_code_of_tag(t) {
            Some(code) => match dec_str(s, p1) {
                Some((m, p2)) => Some((ErrorMessageView { error_code: code, message: m }, p2)),
                None => None,
            },
            None => None,
        },
        None => None,
    }
}

/// Reads a screen frame.
pub open spec fn dec_screen_frame(s: Seq<u8>, pos: int) -> Option<(ScreenFrameDataView, int)> {
    match dec_u64(s, pos) {
        Some((sq, p1)) => match dec_u32(s, p1) {
            Some((w, p2)) => match dec_u32(s, p2) {
                Some((h, p3)) => match dec_u32(s, p3) {
                    Some((ft, p4)) => match frame_format_of_tag(ft) {
                        Some(format) => match dec_bytes(s, p4) {
                            Some((data, p5)) => match dec_u64(s, p5) {
                                Some((ts, p6)) => Some(
                                    (
                                        ScreenFrameDataView {
                                            sequence: sq,
                                            width: w,
                                            height: h,
                                            format,
                                            data,
                                            timestamp: ts,
                                        },
                                        p6,
                                    ),
                                ),
                                None => None,
                            },
                            None => None,
                        },
                        None => None,
                    },
                    None => None,
                },
                None => None,
            },
            None => None,
        },
        None => None,
    }
}

/// Reads a keyboard event.
pub open spec fn dec_keyboard(s: Seq<u8>, pos: int) -> Option<(KeyboardEventData, int)> {
    match dec_u32(s, pos) {
        Some((t, p1)) => {
            let et = if t == 0 {
                Some(KeyboardEventTypeData::KeyPress)
            } else if t == 1 {
                Some(KeyboardEventTypeData::KeyRelease)
            } else {
                None
            };
            match et {
                Some(event_type) => match dec_u16(s, p1) {
                    Some((key, p2)) => match dec_u64(s, p2) {
                        Some((ts, p3)) => Some(
                            (KeyboardEventData { event_type, key, timestamp: ts }, p3),
                        ),
                        None => None,
                    },
                    None => None,
                },
                None => None,
            }
        },
        None => None,
    }
}

/// Reads a mouse event shape.
pub open spec fn dec_mouse_type(s: Seq<u8>, pos: int) -> Option<(MouseEventTypeData, int)> {
    match dec_u32(s, pos) {
        Some((t, p1)) => if t == 0 {
            match dec_u32(s, p1) {
                Some((x, p2)) => match dec_u32(s, p2) {
                    Some((y, p3)) => Some(
                        (MouseEventTypeData::Move { x: unwrap_i32(x), y: unwrap_i32(y) }, p3),
                    ),
                    None => None,
                },
                None => None,
            }
        } else if t == 1 {
            match dec_u8(s, p1) {
                Some((b, p2)) => Some((MouseEventTypeData::ButtonPress { button: b }, p2)),
                None => None,
            }
        } else if t == 2 {
            match dec_u8(s, p1) {
                Some((b, p2)) => Some((MouseEventTypeData::ButtonRelease { button: b }, p2)),
                None => None,
            }
        } else if t == 3 {
            match dec_u32(s, p1) {
                Some((dx, p2)) => match dec_u32(s, p2) {
                    Some((dy, p3)) => Some(
                        (
                            MouseEventTypeData::Wheel {
                                delta_x: unwrap_i32(dx),
                                delta_y: unwrap_i32(dy),
                            },
                            p3,
                        ),
                    ),
                    None => None,
                },
                None => None,
            }
        } else {
            None
        },
        None => None,
    }
}

/// Reads a mouse event.
pub open spec fn dec_mouse(s: Seq<u8>, pos: int) -> Option<(MouseEventData, int)> {
    match dec_mouse_type(s, pos) {
        Some((event_type, p1)) => match dec_u64(s, p1) {
            Some((ts, p2)) => Some((MouseEventData { event_type, timestamp: ts }, p2)),
            None => None,
        },
        None => None,
    }
}

/// Reads a payload with the given variant tag.
#[verifier::opaque]
pub open spec fn dec_payload_body(s: Seq<u8>, pos: int, tag: u32) -> Option<(
    MessagePayloadView,
    int,
)> {
    if tag == 0 {
        match dec_request(s, pos) {
            Some((r, p)) => Some((MessagePayloadView::ConnectionRequest(r), p)),
            None => None,
        }
    } else if tag == 1 {
        match dec_accept(s, pos) {
            Some((a, p)) => Some((MessagePayloadView::ConnectionAccept(a), p)),
            None => None,
        }
    } else if tag == 2 {
        match dec_reject(s, pos) {
            Some((r, p)) => Some((MessagePayloadView::ConnectionReject(r), p)),
            None => None,
        }
    } else if tag == 3 {
        match dec_u32(s, pos) {
            Some((t, p)) => match disconnect_of_tag(t) {
                Some(reason) => Some((MessagePayloadView::Disconnect(Disconnect { reason }), p)),
                None => None,
            },
            None => None,
        }
    } else if tag == 4 {
        match dec_u64(s, pos) {
            Some((ts, p)) => Some(
                (MessagePayloadView::Heartbeat(Heartbeat { timestamp: ts }), p),
            ),
            None => None,
        }
    } else if tag == 5 {
        match dec_error(s, pos) {
            Some((e, p)) => Some((MessagePayloadView::Error(e), p)),
            None => None,
        }
    } else if tag == 6 {
        match dec_screen_frame(s, pos) {
            Some((f, p)) => Some((MessagePayloadView::ScreenFrame(f), p)),
            None => None,
        }
    } else if tag == 7 {
        match dec_keyboard(s, pos) {
            Some((k, p)) => Some((MessagePayloadView::KeyboardEvent(k), p)),
            None => None,
        }
    } else if tag == 8 {
        match dec_mouse(s, pos) {
            Some((m, p)) => Some((MessagePayloadView::MouseEvent(m), p)),
            None => None,
        }
    } else {
        None
    }
}

/// Reads a payload.
pub open spec fn dec_payload(s: Seq<u8>, pos: int) -> Option<(MessagePayloadView, int)> {
    match dec_u32(s, pos) {
        Some((tag, p)) => dec_payload_body(s, p, tag),
        None => None,
    }
}

/// Reads a whole message.
pub open spec fn dec_message(s: Seq<u8>, pos: int) -> Option<(MessageView, int)> {
    match dec_u32(s, pos) {
        Some((id, p1)) => match dec_u32(s, p1) {
            Some((tt, p2)) => match message_type_of_tag(tt) {
                Some(message_type) => match dec_payload(s, p2) {
                    Some((payload, p3)) => Some(
                        (MessageView { message_id: id, message_type, payload }, p3),
                    ),
                    None => None,
                },
                None => None,
            },
            None => None,
        },
        None => None,
    }
}

/// Reading a string from its encoding yields the text back.
pub proof fn lemma_dec_enc_str(t: Seq<char>, rest: Seq<u8>, s: Seq<u8>, pos: int)
    requires
        0 <= pos <= s.len(),
        encode_utf8(t).len() <= u64::MAX,
        s.subrange(pos, s.len() as int) == enc_str(t) + rest,
    ensures
        dec_str(s, pos) == Some((t, pos + 8 + encode_utf8(t).len())),
{
    lemma_dec_enc_bytes(encode_utf8(t), rest, s, pos);
    broadcast use encode_utf8_valid_utf8;
    broadcast use encode_utf8_decode_utf8;

    assert(valid_utf8(encode_utf8(t)));
    assert(decode_utf8(encode_utf8(t)) == t);
}

} // verus!
// round-trip lemmas: reading an encoding yields the encoded value
verus! {

use vstd::utf8::{decode_utf8 as utf8_decode, valid_utf8 as utf8_valid};

/// After a prefix `a` of the remaining input, the rest begins `|a|` later.
pub proof fn lemma_tail_shift(s: Seq<u8>, pos: int, a: Seq<u8>, t: Seq<u8>)
    requires
        0 <= pos <= s.len(),
        s.subrange(pos, s.len() as int) == a + t,
    ensures
        pos + a.len() <= s.len(),
        s.subrange(pos + a.len(), s.len() as int) =~= t,
{
    lemma_concat_parts(a, t);
    assert forall|i: int|
        0 <= i < t.len() implies s.subrange(pos + a.len() as int, s.len() as int)[i] == t[i] by {
        assert(s.subrange(pos, s.len() as int)[a.len() + i] == s[pos + a.len() + i]);
        assert((a + t)[a.len() + i] == t[i]);
    }
}

/// `unwrap_i32` undoes `wrap_i32`.
pub proof fn lemma_unwrap_wrap_i32(v: i32)
    ensures
        unwrap_i32(wrap_i32(v)) == v,
{
}

/// Reading an optional hash from its encoding yields the option back.
pub proof fn lemma_dec_enc_opt_hash(o: Option<Seq<u8>>, rest: Seq<u8>, s: Seq<u8>, pos: int)
    requires
        0 <= pos <= s.len(),
        o matches Some(h) ==> h.len() == 32,
        s.subrange(pos, s.len() as int) == enc_opt_hash(o) + rest,
    ensures
        dec_opt_hash(s, pos) == Some((o, pos + enc_opt_hash(o).len())),
{
    match o {
        None => {
            lemma_dec_enc_u8(0u8, rest, s, pos);
        },
        Some(h) => {
            assert(s.subrange(pos, s.len() as int) =~= seq![1u8] + (h + rest));
            lemma_dec_enc_u8(1u8, h + rest, s, pos);
            lemma_tail_shift(s, pos, seq![1u8], h + rest);
            lemma_concat_parts(h, rest);
            assert(s.subrange(pos + 1, pos + 33) =~= h) by {
                assert forall|i: int| 0 <= i < 32 implies s.subrange(pos + 1, pos + 33)[i] == h[i] by {
                    assert(s.subrange(pos + 1, s.len() as int)[i] == s[pos + 1 + i]);
                    assert((h + rest)[i] == h[i]);
                }
            }
        },
    }
}

/// Reading an optional string from its encoding yields the option back.
pub proof fn lemma_dec_enc_opt_str(o: Option<Seq<char>>, rest: Seq<u8>, s: Seq<u8>, pos: int)
    requires
        0 <= pos <= s.len(),
        o matches Some(m) ==> encode_utf8(m).len() <= u64::MAX,
        s.subrange(pos, s.len() as int) == enc_opt_str(o) + rest,
    ensures
        dec_opt_str(s, pos) == Some((o, pos + enc_opt_str(o).len())),
{
    match o {
        None => {
            lemma_dec_enc_u8(0u8, rest, s, pos);
        },
        Some(m) => {
            assert(s.subrange(pos, s.len() as int) =~= seq![1u8] + (enc_str(m) + rest));
            lemma_dec_enc_u8(1u8, enc_str(m) + rest, s, pos);
            lemma_tail_shift(s, pos, seq![1u8], enc_str(m) + rest);
            lemma_dec_enc_str(m, rest, s, pos + 1);
        },
    }
}

/// An encoded capability list takes four bytes per element.
pub proof fn lemma_enc_cap_list_len(cs: Seq<Capability>)
    ensures
        enc_cap_list(cs).len() == 4 * cs.len(),
    decreases cs.len(),
{
    if cs.len() > 0 {
        lemma_enc_cap_list_len(cs.drop_first());
    }
}

/// Reading `|cs|` capabilities from their encoding yields the list back.
pub proof fn lemma_dec_enc_cap_list(cs: Seq<Capability>, rest: Seq<u8>, s: Seq<u8>, pos: int)
    requires
        0 <= pos <= s.len(),
        s.subrange(pos, s.len() as int) == enc_cap_list(cs) + rest,
    ensures
        dec_cap_list(s, pos, cs.len() as int) == Some((cs, pos + 4 * cs.len())),
    decreases cs.len(),
{
    if cs.len() == 0 {
        assert(cs =~= Seq::<Capability>::empty());
    } else {
        let c0 = cs[0];
        let tl = cs.drop_first();
        assert(s.subrange(pos, s.len() as int) =~= le32(cap_tag(c0)) + (enc_cap_list(tl) + rest));
        lemma_dec_enc_u32(cap_tag(c0), enc_cap_list(tl) + rest, s, pos);
        lemma_tail_shift(s, pos, le32(cap_tag(c0)), enc_cap_list(tl) + rest);
        lemma_dec_enc_cap_list(tl, rest, s, pos + 4);
        assert(seq![c0] + tl =~= cs);
    }
}

/// Reading a length-prefixed capability list yields the list back.
pub proof fn lemma_dec_enc_caps(cs: Seq<Capability>, rest: Seq<u8>, s: Seq<u8>, pos: int)
    requires
        0 <= pos <= s.len(),
        cs.len() <= u64::MAX,
        s.subrange(pos, s.len() as int) == enc_caps(cs) + rest,
    ensures
        dec_caps(s, pos) == Some((cs, pos + enc_caps(cs).len())),
{
    assert(s.subrange(pos, s.len() as int) =~= le64(cs.len() as u64) + (enc_cap_list(cs) + rest));
    lemma_dec_enc_u64(cs.len() as u64, enc_cap_list(cs) + rest, s, pos);
    lemma_tail_shift(s, pos, le64(cs.len() as u64), enc_cap_list(cs) + rest);
    lemma_dec_enc_cap_list(cs, rest, s, pos + 8);
    lemma_enc_cap_list_len(cs);
}

/// Reading desktop facts from their encoding yields them back.
pub proof fn lemma_dec_enc_desktop(d: DesktopInfo, rest: Seq<u8>, s: Seq<u8>, pos: int)
    requires
        0 <= pos <= s.len(),
        s.subrange(pos, s.len() as int) == enc_desktop(d) + rest,
    ensures
        dec_desktop(s, pos) == Some((d, pos + 5)),
{
    let a1 = le16(d.screen_width);
    let a2 = le16(d.screen_height);
    let a3 = seq![d.screen_count];
    assert(s.subrange(pos, s.len() as int) =~= a1 + (a2 + (a3 + rest)));
    lemma_dec_enc_u16(d.screen_width, a2 + (a3 + rest), s, pos);
    lemma_tail_shift(s, pos, a1, a2 + (a3 + rest));
    lemma_dec_enc_u16(d.screen_height, a3 + rest, s, pos + 2);
    lemma_tail_shift(s, pos + 2, a2, a3 + rest);
    lemma_dec_enc_u8(d.screen_count, rest, s, pos + 4);
}

/// Reading a connection request from its encoding yields it back.
pub proof fn lemma_dec_enc_request(r: ConnectionRequestView, rest: Seq<u8>, s: Seq<u8>, pos: int)
    requires
        0 <= pos <= s.len(),
        encode_utf8(r.client_name).len() <= u64::MAX,
        r.requested_capabilities.len() <= u64::MAX,
        r.password_hash matches Some(h) ==> h.len() == 32,
        s.subrange(pos, s.len() as int) == enc_request(r) + rest,
    ensures
        dec_request(s, pos) == Some((r, pos + enc_request(r).len())),
{
    let a1 = seq![r.protocol_version];
    let a2 = le32(r.client_id);
    let a3 = enc_str(r.client_name);
    let a4 = le32(r.host_id);
    let a5 = enc_opt_hash(r.password_hash);
    let a6 = enc_caps(r.requested_capabilities);
    assert(s.subrange(pos, s.len() as int) =~= a1 + (a2 + (a3 + (a4 + (a5 + (a6 + rest))))));
    lemma_dec_enc_u8(r.protocol_version, a2 + (a3 + (a4 + (a5 + (a6 + rest)))), s, pos);
    lemma_tail_shift(s, pos, a1, a2 + (a3 + (a4 + (a5 + (a6 + rest)))));
    let p1 = pos + 1;
    lemma_dec_enc_u32(r.client_id, a3 + (a4 + (a5 + (a6 + rest))), s, p1);
    lemma_tail_shift(s, p1, a2, a3 + (a4 + (a5 + (a6 + rest))));
    let p2 = p1 + 4;
    lemma_dec_enc_str(r.client_name, a4 + (a5 + (a6 + rest)), s, p2);
    lemma_tail_shift(s, p2, a3, a4 + (a5 + (a6 + rest)));
    let p3 = p2 + a3.len();
    lemma_dec_enc_u32(r.host_id, a5 + (a6 + rest), s, p3);
    lemma_tail_shift(s, p3, a4, a5 + (a6 + rest));
    let p4 = p3 + 4;
    lemma_dec_enc_opt_hash(r.password_hash, a6 + rest, s, p4);
    lemma_tail_shift(s, p4, a5, a6 + rest);
    let p5 = p4 + a5.len();
    lemma_dec_enc_caps(r.requested_capabilities, rest, s, p5);
}

/// Reading a connection acceptance from its encoding yields it back.
pub proof fn lemma_dec_enc_accept(a: ConnectionAcceptView, rest: Seq<u8>, s: Seq<u8>, pos: int)
    requires
        0 <= pos <= s.len(),
        a.session_id.len() == 16,
        encode_utf8(a.host_name).len() <= u64::MAX,
        a.host_capabilities.len() <= u64::MAX,
        s.subrange(pos, s.len() as int) == enc_accept(a) + rest,
    ensures
        dec_accept(s, pos) == Some((a, pos + enc_accept(a).len())),
{
    let a1 = a.session_id;
    let a2 = enc_str(a.host_name);
    let a3 = enc_caps(a.host_capabilities);
    let a4 = enc_desktop(a.desktop_info);
    assert(s.subrange(pos, s.len() as int) =~= a1 + (a2 + (a3 + (a4 + rest))));
    lemma_tail_shift(s, pos, a1, a2 + (a3 + (a4 + rest)));
    lemma_concat_parts(a1, a2 + (a3 + (a4 + rest)));
    assert(s.subrange(pos, pos + 16) =~= a.session_id) by {
        assert forall|i: int| 0 <= i < 16 implies s.subrange(pos, pos + 16)[i] == a.session_id[i] by {
            assert(s.subrange(pos, s.len() as int)[i] == s[pos + i]);
            assert((a1 + (a2 + (a3 + (a4 + rest))))[i] == a1[i]);
        }
    }
    let p1 = pos + 16;
    lemma_dec_enc_str(a.host_name, a3 + (a4 + rest), s, p1);
    lemma_tail_shift(s, p1, a2, a3 + (a4 + rest));
    let p2 = p1 + a2.len();
    lemma_dec_enc_caps(a.host_capabilities, a4 + rest, s, p2);
    lemma_tail_shift(s, p2, a3, a4 + rest);
    let p3 = p2 + a3.len();
    lemma_dec_enc_desktop(a.desktop_info, rest, s, p3);
}

/// Reading a connection rejection from its encoding yields it back.
pub proof fn lemma_dec_enc_reject(r: ConnectionRejectView, rest: Seq<u8>, s: Seq<u8>, pos: int)
    requires
        0 <= pos <= s.len(),
        r.message matches Some(m) ==> encode_utf8(m).len() <= u64::MAX,
        s.subrange(pos, s.len() as int) == enc_reject(r) + rest,
    ensures
        dec_reject(s, pos) == Some((r, pos + enc_reject(r).len())),
{
    let a1 = le32(reject_tag(r.reason));
    let a2 = enc_opt_str(r.message);
    assert(s.subrange(pos, s.len() as int) =~= a1 + (a2 + rest));
    lemma_dec_enc_u32(reject_tag(r.reason), a2 + rest, s, pos);
    lemma_tail_shift(s, pos, a1, a2 + rest);
    lemma_dec_enc_opt_str(r.message, rest, s, pos + 4);
}

/// Reading an error report from its encoding yields it back.
pub proof fn lemma_dec_enc_error(e: ErrorMessageView, rest: Seq<u8>, s: Seq<u8>, pos: int)
    requires
        0 <= pos <= s.len(),
        encode_utf8(e.message).len() <= u64::MAX,
        s.subrange(pos, s.len() as int) == enc_error(e) + rest,
    ensures
        dec_error(s, pos) == Some((e, pos + enc_error(e).len())),
{
    let a1 = le32(error_code_tag(e.error_code));
    let a2 = enc_str(e.message);
    assert(s.subrange(pos, s.len() as int) =~= a1 + (a2 + rest));
    lemma_dec_enc_u32(error_code_tag(e.error_code), a2 + rest, s, pos);
    lemma_tail_shift(s, pos, a1, a2 + rest);
    lemma_dec_enc_str(e.message, rest, s, pos + 4);
}

/// Reading a screen frame from its encoding yields it back.
pub proof fn lemma_dec_enc_screen_frame(f: ScreenFrameDataView, rest: Seq<u8>, s: Seq<u8>, pos: int)
    requires
        0 <= pos <= s.len(),
        f.data.len() <= u64::MAX,
        s.subrange(pos, s.len() as int) == enc_screen_frame(f) + rest,
    ensures
        dec_screen_frame(s, pos) == Some((f, pos + enc_screen_frame(f).len())),
{
    let a1 = le64(f.sequence);
    let a2 = le32(f.width);
    let a3 = le32(f.height);
    let a4 = le32(frame_format_tag(f.format));
    let a5 = enc_bytes(f.data);
    let a6 = le64(f.timestamp);
    assert(s.subrange(pos, s.len() as int) =~= a1 + (a2 + (a3 + (a4 + (a5 + (a6 + rest))))));
    lemma_dec_enc_u64(f.sequence, a2 + (a3 + (a4 + (a5 + (a6 + rest)))), s, pos);
    lemma_tail_shift(s, pos, a1, a2 + (a3 + (a4 + (a5 + (a6 + rest)))));
    let p1 = pos + 8;
    lemma_dec_enc_u32(f.width, a3 + (a4 + (a5 + (a6 + rest))), s, p1);
    lemma_tail_shift(s, p1, a2, a3 + (a4 + (a5 + (a6 + rest))));
    let p2 = p1 + 4;
    lemma_dec_enc_u32(f.height, a4 + (a5 + (a6 + rest)), s, p2);
    lemma_tail_shift(s, p2, a3, a4 + (a5 + (a6 + rest)));
    let p3 = p2 + 4;
    lemma_dec_enc_u32(frame_format_tag(f.format), a5 + (a6 + rest), s, p3);
    lemma_tail_shift(s, p3, a4, a5 + (a6 + rest));
    let p4 = p3 + 4;
    lemma_dec_enc_bytes(f.data, a6 + rest, s, p4);
    lemma_tail_shift(s, p4, a5, a6 + rest);
    let p5 = p4 + a5.len();
    lemma_dec_enc_u64(f.timestamp, rest, s, p5);
}

/// Reading a keyboard event from its encoding yields it back.
pub proof fn lemma_dec_enc_keyboard(k: KeyboardEventData, rest: Seq<u8>, s: Seq<u8>, pos: int)
    requires
        0 <= pos <= s.len(),
        s.subrange(pos, s.len() as int) == enc_keyboard(k) + rest,
    ensures
        dec_keyboard(s, pos) == Some((k, pos + enc_keyboard(k).len())),
{
    let a1 = le32(kbd_tag(k.event_type));
    let a2 = le16(k.key);
    let a3 = le64(k.timestamp);
    assert(s.subrange(pos, s.len() as int) =~= a1 + (a2 + (a3 + rest)));
    lemma_dec_enc_u32(kbd_tag(k.event_type), a2 + (a3 + rest), s, pos);
    lemma_tail_shift(s, pos, a1, a2 + (a3 + rest));
    lemma_dec_enc_u16(k.key, a3 + rest, s, pos + 4);
    lemma_tail_shift(s, pos + 4, a2, a3 + rest);
    lemma_dec_enc_u64(k.timestamp, rest, s, pos + 6);
}

/// Reading a mouse event shape from its encoding yields it back.
pub proof fn lemma_dec_enc_mouse_type(t: MouseEventTypeData, rest: Seq<u8>, s: Seq<u8>, pos: int)
    requires
        0 <= pos <= s.len(),
        s.subrange(pos, s.len() as int) == enc_mouse_type(t) + rest,
    ensures
        dec_mouse_type(s, pos) == Some((t, pos + enc_mouse_type(t).len())),
{
    match t {
        MouseEventTypeData::Move { x, y } => {
            let a1 = le32(0);
            let a2 = le32(wrap_i32(x));
            let a3 = le32(wrap_i32(y));
            assert(s.subrange(pos, s.len() as int) =~= a1 + (a2 + (a3 + rest)));
            lemma_dec_enc_u32(0, a2 + (a3 + rest), s, pos);
            lemma_tail_shift(s, pos, a1, a2 + (a3 + rest));
            lemma_dec_enc_u32(wrap_i32(x), a3 + rest, s, pos + 4);
            lemma_tail_shift(s, pos + 4, a2, a3 + rest);
            lemma_dec_enc_u32(wrap_i32(y), rest, s, pos + 8);
            lemma_unwrap_wrap_i32(x);
            lemma_unwrap_wrap_i32(y);
        },
        MouseEventTypeData::ButtonPress { button } => {
            let a1 = le32(1);
            assert(s.subrange(pos, s.len() as int) =~= a1 + (seq![button] + rest));
            lemma_dec_enc_u32(1, seq![button] + rest, s, pos);
            lemma_tail_shift(s, pos, a1, seq![button] + rest);
            lemma_dec_enc_u8(button, rest, s, pos + 4);
        },
        MouseEventTypeData::ButtonRelease { button } => {
            let a1 = le32(2);
            assert(s.subrange(pos, s.len() as int) =~= a1 + (seq![button] + rest));
            lemma_dec_enc_u32(2, seq![button] + rest, s, pos);
            lemma_tail_shift(s, pos, a1, seq![button] + rest);
            lemma_dec_enc_u8(button, rest, s, pos + 4);
        },
        MouseEventTypeData::Wheel { delta_x, delta_y } => {
            let a1 = le32(3);
            let a2 = le32(wrap_i32(delta_x));
            let a3 = le32(wrap_i32(delta_y));
            assert(s.subrange(pos, s.len() as int) =~= a1 + (a2 + (a3 + rest)));
            lemma_dec_enc_u32(3, a2 + (a3 + rest), s, pos);
            lemma_tail_shift(s, pos, a1, a2 + (a3 + rest));
            lemma_dec_enc_u32(wrap_i32(delta_x), a3 + rest, s, pos + 4);
            lemma_tail_shift(s, pos + 4, a2, a3 + rest);
            lemma_dec_enc_u32(wrap_i32(delta_y), rest, s, pos + 8);
            lemma_unwrap_wrap_i32(delta_x);
            lemma_unwrap_wrap_i32(delta_y);
        },
    }
}

/// Reading a mouse event from its encoding yields it back.
pub proof fn lemma_dec_enc_mouse(m: MouseEventData, rest: Seq<u8>, s: Seq<u8>, pos: int)
    requires
        0 <= pos <= s.len(),
        s.subrange(pos, s.len() as int) == enc_mouse(m) + rest,
    ensures
        dec_mouse(s, pos) == Some((m, pos + enc_mouse(m).len())),
{
    let a1 = enc_mouse_type(m.event_type);
    let a2 = le64(m.timestamp);
    assert(s.subrange(pos, s.len() as int) =~= a1 + (a2 + rest));
    lemma_dec_enc_mouse_type(m.event_type, a2 + rest, s, pos);
    lemma_tail_shift(s, pos, a1, a2 + rest);
    lemma_dec_enc_u64(m.timestamp, rest, s, pos + a1.len());
}

/// Sequence concatenation is associative.
pub proof fn lemma_assoc<A>(a: Seq<A>, b: Seq<A>, c: Seq<A>)
    ensures
        (a + b) + c == a + (b + c),
{
    assert((a + b) + c =~= a + (b + c));
}

/// The message type tag maps back to the message type.
pub proof fn lemma_message_type_tag_roundtrip(t: MessageType)
    ensures
        message_type_of_tag(message_type_tag(t)) == Some(t),
{
}

/// Reading a request payload body.
proof fn lemma_dec_body_request(r: ConnectionRequestView, rest: Seq<u8>, s: Seq<u8>, pos: int)
    requires
        0 <= pos <= s.len(),
        encode_utf8(r.client_name).len() <= u64::MAX,
        r.requested_capabilities.len() <= u64::MAX,
        r.password_hash matches Some(h) ==> h.len() == 32,
        s.subrange(pos, s.len() as int) == enc_request(r) + rest,
    ensures
        dec_payload_body(s, pos, 0) == Some(
            (MessagePayloadView::ConnectionRequest(r), pos + enc_request(r).len()),
        ),
{
    reveal(dec_payload_body);
    lemma_dec_enc_request(r, rest, s, pos);
}

/// Reading an acceptance payload body.
proof fn lemma_dec_body_accept(a: ConnectionAcceptView, rest: Seq<u8>, s: Seq<u8>, pos: int)
    requires
        0 <= pos <= s.len(),
        a.session_id.len() == 16,
        encode_utf8(a.host_name).len() <= u64::MAX,
        a.host_capabilities.len() <= u64::MAX,
        s.subrange(pos, s.len() as int) == enc_accept(a) + rest,
    ensures
        dec_payload_body(s, pos, 1) == Some(
            (MessagePayloadView::ConnectionAccept(a), pos + enc_accept(a).len()),
        ),
{
    reveal(dec_payload_body);
    lemma_dec_enc_accept(a, rest, s, pos);
}

/// Reading a rejection payload body.
proof fn lemma_dec_body_reject(r: ConnectionRejectView, rest: Seq<u8>, s: Seq<u8>, pos: int)
    requires
        0 <= pos <= s.len(),
        r.message matches Some(m) ==> encode_utf8(m).len() <= u64::MAX,
        s.subrange(pos, s.len() as int) == enc_reject(r) + rest,
    ensures
        dec_payload_body(s, pos, 2) == Some(
            (MessagePayloadView::ConnectionReject(r), pos + enc_reject(r).len()),
        ),
{
    reveal(dec_payload_body);
    lemma_dec_enc_reject(r, rest, s, pos);
}

/// Reading a disconnect payload body.
proof fn lemma_dec_body_disconnect(d: Disconnect, rest: Seq<u8>, s: Seq<u8>, pos: int)
    requires
        0 <= pos <= s.len(),
        s.subrange(pos, s.len() as int) == le32(disconnect_tag(d.reason)) + rest,
    ensures
        dec_payload_body(s, pos, 3) == Some((MessagePayloadView::Disconnect(d), pos + 4)),
{
    reveal(dec_payload_body);
    lemma_dec_enc_u32(disconnect_tag(d.reason), rest, s, pos);
}

/// Reading a heartbeat payload body.
proof fn lemma_dec_body_heartbeat(h: Heartbeat, rest: Seq<u8>, s: Seq<u8>, pos: int)
    requires
        0 <= pos <= s.len(),
        s.subrange(pos, s.len() as int) == le64(h.timestamp) + rest,
    ensures
        dec_payload_body(s, pos, 4) == Some((MessagePayloadView::Heartbeat(h), pos + 8)),
{
    reveal(dec_payload_body);
    lemma_dec_enc_u64(h.timestamp, rest, s, pos);
}

/// Reading an error payload body.
proof fn lemma_dec_body_error(e: ErrorMessageView, rest: Seq<u8>, s: Seq<u8>, pos: int)
    requires
        0 <= pos <= s.len(),
        encode_utf8(e.message).len() <= u64::MAX,
        s.subrange(pos, s.len() as int) == enc_error(e) + rest,
    ensures
        dec_payload_body(s, pos, 5) == Some((MessagePayloadView::Error(e), pos + enc_error(e).len())),
{
    reveal(dec_payload_body);
    lemma_dec_enc_error(e, rest, s, pos);
}

/// Reading a screen frame payload body.
proof fn lemma_dec_body_screen_frame(f: ScreenFrameDataView, rest: Seq<u8>, s: Seq<u8>, pos: int)
    requires
        0 <= pos <= s.len(),
        f.data.len() <= u64::MAX,
        s.subrange(pos, s.len() as int) == enc_screen_frame(f) + rest,
    ensures
        dec_payload_body(s, pos, 6) == Some(
            (MessagePayloadView::ScreenFrame(f), pos + enc_screen_frame(f).len()),
        ),
{
    reveal(dec_payload_body);
    lemma_dec_enc_screen_frame(f, rest, s, pos);
}

/// Reading a keyboard payload body.
proof fn lemma_dec_body_keyboard(k: KeyboardEventData, rest: Seq<u8>, s: Seq<u8>, pos: int)
    requires
        0 <= pos <= s.len(),
        s.subrange(pos, s.len() as int) == enc_keyboard(k) + rest,
    ensures
        dec_payload_body(s, pos, 7) == Some(
            (MessagePayloadView::KeyboardEvent(k), pos + enc_keyboard(k).len()),
        ),
{
    reveal(dec_payload_body);
    lemma_dec_enc_keyboard(k, rest, s, pos);
}

/// Reading a mouse payload body.
proof fn lemma_dec_body_mouse(me: MouseEventData, rest: Seq<u8>, s: Seq<u8>, pos: int)
    requires
        0 <= pos <= s.len(),
        s.subrange(pos, s.len() as int) == enc_mouse(me) + rest,
    ensures
        dec_payload_body(s, pos, 8) == Some(
            (MessagePayloadView::MouseEvent(me), pos + enc_mouse(me).len()),
        ),
{
    reveal(dec_payload_body);
    lemma_dec_enc_mouse(me, rest, s, pos);
}

/// Reading a payload from its encoding yields it back.
pub proof fn lemma_dec_enc_payload(p: MessagePayloadView, rest: Seq<u8>, s: Seq<u8>, pos: int, m: MessageView)
    requires
        0 <= pos <= s.len(),
        m.payload == p,
        m.wf(),
        s.subrange(pos, s.len() as int) == enc_payload(p) + rest,
    ensures
        dec_payload(s, pos) == Some((p, pos + enc_payload(p).len())),
{
    reveal(enc_payload);
    let tag = payload_tag(p);
    let p1 = pos + 4;
    match p {
        MessagePayloadView::ConnectionRequest(r) => {
            let body = enc_request(r);
            lemma_assoc(le32(tag), body, rest);
            assert(s.subrange(pos, s.len() as int) == le32(tag) + (body + rest));
            lemma_dec_enc_u32(tag, body + rest, s, pos);
            lemma_tail_shift(s, pos, le32(tag), body + rest);
            lemma_dec_body_request(r, rest, s, p1);
        },
        MessagePayloadView::ConnectionAccept(a) => {
            let body = enc_accept(a);
            lemma_assoc(le32(tag), body, rest);
            assert(s.subrange(pos, s.len() as int) == le32(tag) + (body + rest));
            lemma_dec_enc_u32(tag, body + rest, s, pos);
            lemma_tail_shift(s, pos, le32(tag), body + rest);
            lemma_dec_body_accept(a, rest, s, p1);
        },
        MessagePayloadView::ConnectionReject(r) => {
            let body = enc_reject(r);
            lemma_assoc(le32(tag), body, rest);
            assert(s.subrange(pos, s.len() as int) == le32(tag) + (body + rest));
            lemma_dec_enc_u32(tag, body + rest, s, pos);
            lemma_tail_shift(s, pos, le32(tag), body + rest);
            lemma_dec_body_reject(r, rest, s, p1);
        },
        MessagePayloadView::Disconnect(d) => {
            let body = le32(disconnect_tag(d.reason));
            lemma_assoc(le32(tag), body, rest);
            assert(s.subrange(pos, s.len() as int) == le32(tag) + (body + rest));
            lemma_dec_enc_u32(tag, body + rest, s, pos);
            lemma_tail_shift(s, pos, le32(tag), body + rest);
            lemma_dec_body_disconnect(d, rest, s, p1);
        },
        MessagePayloadView::Heartbeat(h) => {
            let body = le64(h.timestamp);
            lemma_assoc(le32(tag), body, rest);
            assert(s.subrange(pos, s.len() as int) == le32(tag) + (body + rest));
            lemma_dec_enc_u32(tag, body + rest, s, pos);
            lemma_tail_shift(s, pos, le32(tag), body + rest);
            lemma_dec_body_heartbeat(h, rest, s, p1);
        },
        MessagePayloadView::Error(e) => {
            let body = enc_error(e);
            lemma_assoc(le32(tag), body, rest);
            assert(s.subrange(pos, s.len() as int) == le32(tag) + (body + rest));
            lemma_dec_enc_u32(tag, body + rest, s, pos);
            lemma_tail_shift(s, pos, le32(tag), body + rest);
            lemma_dec_body_error(e, rest, s, p1);
        },
        MessagePayloadView::ScreenFrame(f) => {
            let body = enc_screen_frame(f);
            lemma_assoc(le32(tag), body, rest);
            assert(s.subrange(pos, s.len() as int) == le32(tag) + (body + rest));
            lemma_dec_enc_u32(tag, body + rest, s, pos);
            lemma_tail_shift(s, pos, le32(tag), body + rest);
            lemma_dec_body_screen_frame(f, rest, s, p1);
        },
        MessagePayloadView::KeyboardEvent(k) => {
            let body = enc_keyboard(k);
            lemma_assoc(le32(tag), body, rest);
            assert(s.subrange(pos, s.len() as int) == le32(tag) + (body + rest));
            lemma_dec_enc_u32(tag, body + rest, s, pos);
            lemma_tail_shift(s, pos, le32(tag), body + rest);
            lemma_dec_body_keyboard(k, rest, s, p1);
        },
        MessagePayloadView::MouseEvent(me) => {
            let body = enc_mouse(me);
            lemma_assoc(le32(tag), body, rest);
            assert(s.subrange(pos, s.len() as int) == le32(tag) + (body + rest));
            lemma_dec_enc_u32(tag, body + rest, s, pos);
            lemma_tail_shift(s, pos, le32(tag), body + rest);
            lemma_dec_body_mouse(me, rest, s, p1);
        },
    }
}

/// Law: reading a message from its own encoding, followed by anything,
/// yields exactly that message and consumes exactly its encoding.
#[verifier::rlimit(100)]
pub proof fn lemma_dec_enc_message(m: MessageView, rest: Seq<u8>, s: Seq<u8>, pos: int)
    requires
        0 <= pos <= s.len(),
        m.wf(),
        s.subrange(pos, s.len() as int) == enc_message(m) + rest,
    ensures
        dec_message(s, pos) == Some((m, pos + enc_message(m).len())),
{
    let a1 = le32(m.message_id);
    let a2 = le32(message_type_tag(m.message_type));
    let a3 = enc_payload(m.payload);
    lemma_assoc(a1 + a2, a3, rest);
    lemma_assoc(a1, a2, a3 + rest);
    assert(s.subrange(pos, s.len() as int) == a1 + (a2 + (a3 + rest)));
    lemma_dec_enc_u32(m.message_id, a2 + (a3 + rest), s, pos);
    lemma_tail_shift(s, pos, a1, a2 + (a3 + rest));
    lemma_dec_enc_u32(message_type_tag(m.message_type), a3 + rest, s, pos + 4);
    lemma_tail_shift(s, pos + 4, a2, a3 + rest);
    lemma_message_type_tag_roundtrip(m.message_type);
    lemma_dec_enc_payload(m.payload, rest, s, pos + 8, m);
}

/// Law: a message's encoding parses back to exactly that message.
pub proof fn lemma_message_round_trip(m: MessageView)
    requires
        m.wf(),
    ensures
        dec_message(enc_message(m), 0) == Some((m, enc_message(m).len() as int)),
{
    let s = enc_message(m);
    assert(s.subrange(0, s.len() as int) =~= s + Seq::<u8>::empty());
    lemma_dec_enc_message(m, Seq::empty(), s, 0);
}

} // verus!
// the executable encoder
verus! {

/// Appends one byte.
fn emit_u8(out: &mut Vec<u8>, v: u8)
    ensures
        final(out)@ == old(out)@ + seq![v],
{
    out.push(v);
    proof {
        assert(out@ =~= old(out)@ + seq![v]);
    }
}

/// Appends a `u16`, little-endian.
fn emit_u16(out: &mut Vec<u8>, v: u16)
    ensures
        final(out)@ == old(out)@ + le16(v),
{
    out.push((v % 256) as u8);
    out.push((v / 256) as u8);
    proof {
        assert(out@ =~= old(out)@ + le16(v));
    }
}

/// Appends a `u32`, little-endian.
fn emit_u32(out: &mut Vec<u8>, v: u32)
    ensures
        final(out)@ == old(out)@ + le32(v),
{
    out.push((v % 256) as u8);
    out.push((v / 256 % 256) as u8);
    out.push((v / 65536 % 256) as u8);
    out.push((v / 16777216) as u8);
    proof {
        assert(out@ =~= old(out)@ + le32(v));
    }
}

/// Appends a `u64`, little-endian.
fn emit_u64(out: &mut Vec<u8>, v: u64)
    ensures
        final(out)@ == old(out)@ + le64(v),
{
    out.push((v % 256) as u8);
    out.push((v / 256 % 256) as u8);
    out.push((v / 65536 % 256) as u8);
    out.push((v / 16777216 % 256) as u8);
    out.push((v / 4294967296 % 256) as u8);
    out.push((v / 1099511627776 % 256) as u8);
    out.push((v / 281474976710656 % 256) as u8);
    out.push((v / 72057594037927936) as u8);
    proof {
        assert(out@ =~= old(out)@ + le64(v));
    }
}

/// The two's-complement image of `v`, computed without bit operations.
fn wrap_i32_exec(v: i32) -> (r: u32)
    ensures
        r == wrap_i32(v),
{
    if v >= 0 {
        v as u32
    } else {
        ((v as i64) + 4294967296i64) as u32
    }
}

/// Appends a byte slice.
fn emit_slice(out: &mut Vec<u8>, b: &[u8])
    ensures
        final(out)@ == old(out)@ + b@,
{
    let n = b.len();
    let mut i: usize = 0;
    while i < n
        invariant
            0 <= i <= n,
            n == b@.len(),
            out@ == old(out)@ + b@.take(i as int),
        decreases n - i,
    {
        out.push(b[i]);
        proof {
            assert(old(out)@ + b@.take(i + 1) =~= (old(out)@ + b@.take(i as int)).push(b@[i as int]));
        }
        i += 1;
    }
    proof {
        assert(b@.take(n as int) =~= b@);
    }
}

/// Appends a length-prefixed byte string.
fn emit_bytes(out: &mut Vec<u8>, b: &[u8])
    ensures
        final(out)@ == old(out)@ + enc_bytes(b@),
{
    emit_u64(out, b.len() as u64);
    emit_slice(out, b);
    proof {
        assert(old(out)@ + le64(b@.len() as u64) + b@ =~= old(out)@ + enc_bytes(b@));
    }
}

/// Appends a length-prefixed UTF-8 string.
fn emit_str(out: &mut Vec<u8>, s: &str)
    ensures
        final(out)@ == old(out)@ + enc_str(s@),
{
    let b = s.as_bytes();
    emit_bytes(out, b);
}

/// Wire tag of a capability.
fn cap_tag_exec(c: &Capability) -> (r: u32)
    ensures
        r == cap_tag(*c),
{
    match c {
        Capability::RemoteControl => 0,
        Capability::ClipboardSync => 1,
        Capability::FileTransfer => 2,
    }
}

/// Appending one capability extends an encoded list by its tag bytes.
proof fn lemma_enc_cap_list_snoc(cs: Seq<Capability>, c: Capability)
    ensures
        enc_cap_list(cs.push(c)) == enc_cap_list(cs) + le32(cap_tag(c)),
    decreases cs.len(),
{
    if cs.len() == 0 {
        reveal_with_fuel(enc_cap_list, 3);
        assert(cs.push(c)[0] == c);
        assert(cs.push(c).drop_first() =~= Seq::<Capability>::empty());
        assert(enc_cap_list(cs.push(c)) =~= enc_cap_list(cs) + le32(cap_tag(c)));
    } else {
        assert(cs.push(c)[0] == cs[0]);
        assert(cs.push(c).drop_first() =~= cs.drop_first().push(c));
        lemma_enc_cap_list_snoc(cs.drop_first(), c);
        assert(enc_cap_list(cs.push(c)) == le32(cap_tag(cs[0])) + (enc_cap_list(cs.drop_first())
            + le32(cap_tag(c))));
        lemma_assoc(le32(cap_tag(cs[0])), enc_cap_list(cs.drop_first()), le32(cap_tag(c)));
    }
}

/// Appends a length-prefixed capability list.
fn emit_caps(out: &mut Vec<u8>, cs: &Vec<Capability>)
    ensures
        final(out)@ == old(out)@ + enc_caps(cs@),
{
    emit_u64(out, cs.len() as u64);
    let ghost mid = out@;
    let n = cs.len();
    let mut i: usize = 0;
    while i < n
        invariant
            0 <= i <= n,
            n == cs@.len(),
            out@ == mid + enc_cap_list(cs@.take(i as int)),
        decreases n - i,
    {
        let t = cap_tag_exec(&cs[i]);
        emit_u32(out, t);
        proof {
            assert(cs@.take(i + 1) =~= cs@.take(i as int).push(cs@[i as int]));
            lemma_enc_cap_list_snoc(cs@.take(i as int), cs@[i as int]);
            lemma_assoc(mid, enc_cap_list(cs@.take(i as int)), le32(cap_tag(cs@[i as int])));
        }
        i += 1;
    }
    proof {
        assert(cs@.take(n as int) =~= cs@);
        lemma_assoc(old(out)@, le64(cs@.len() as u64), enc_cap_list(cs@));
    }
}

/// Appends an optional 32-byte hash.
fn emit_opt_hash(out: &mut Vec<u8>, o: &Option<[u8; 32]>)
    ensures
        final(out)@ == old(out)@ + enc_opt_hash(match o {
            Some(h) => Some(h@),
            None => None,
        }),
{
    match o {
        None => {
            emit_u8(out, 0);
        },
        Some(h) => {
            emit_u8(out, 1);
            emit_slice(out, h.as_slice());
            proof {
                lemma_assoc(old(out)@, seq![1u8], h@);
            }
        },
    }
}

/// Appends an optional string.
fn emit_opt_str(out: &mut Vec<u8>, o: &Option<String>)
    ensures
        final(out)@ == old(out)@ + enc_opt_str(match o {
            Some(m) => Some(m@),
            None => None,
        }),
{
    match o {
        None => {
            emit_u8(out, 0);
        },
        Some(m) => {
            emit_u8(out, 1);
            emit_str(out, m.as_str());
            proof {
                lemma_assoc(old(out)@, seq![1u8], enc_str(m@));
            }
        },
    }
}

/// Appends desktop facts.
fn emit_desktop(out: &mut Vec<u8>, d: &DesktopInfo)
    ensures
        final(out)@ == old(out)@ + enc_desktop(*d),
{
    emit_u16(out, d.screen_width);
    emit_u16(out, d.screen_height);
    emit_u8(out, d.screen_count);
    proof {
        assert(out@ =~= old(out)@ + enc_desktop(*d));
    }
}

/// Appends a connection request body.
fn emit_request(out: &mut Vec<u8>, r: &ConnectionRequest)
    ensures
        final(out)@ == old(out)@ + enc_request(r@),
{
    emit_u8(out, r.protocol_version);
    emit_u32(out, r.client_id);
    emit_str(out, r.client_name.as_str());
    emit_u32(out, r.host_id);
    emit_opt_hash(out, &r.password_hash);
    emit_caps(out, &r.requested_capabilities);
    proof {
        assert(out@ =~= old(out)@ + enc_request(r@));
    }
}

/// Appends a connection acceptance body.
fn emit_accept(out: &mut Vec<u8>, a: &ConnectionAccept)
    ensures
        final(out)@ == old(out)@ + enc_accept(a@),
{
    emit_slice(out, a.session_id.as_slice());
    emit_str(out, a.host_name.as_str());
    emit_caps(out, &a.host_capabilities);
    emit_desktop(out, &a.desktop_info);
    proof {
        assert(out@ =~= old(out)@ + enc_accept(a@));
    }
}

/// Wire tag of a rejection reason.
fn reject_tag_exec(r: &RejectReason) -> (t: u32)
    ensures
        t == reject_tag(*r),
{
    match r {
        RejectReason::UserDenied => 0,
        RejectReason::InvalidPassword => 1,
        RejectReason::InvalidId => 2,
        RejectReason::AlreadyConnected => 3,
        RejectReason::AccountLocked => 4,
        RejectReason::UnsupportedVersion => 5,
    }
}

/// Appends a connection rejection body.
fn emit_reject(out: &mut Vec<u8>, r: &ConnectionReject)
    ensures
        final(out)@ == old(out)@ + enc_reject(r@),
{
    let t = reject_tag_exec(&r.reason);
    emit_u32(out, t);
    emit_opt_str(out, &r.message);
    proof {
        assert(out@ =~= old(out)@ + enc_reject(r@));
    }
}

/// Wire tag of an error code.
fn error_code_tag_exec(c: &ErrorCode) -> (t: u32)
    ensures
        t == error_code_tag(*c),
{
    match c {
        ErrorCode::UnknownError => 0,
        ErrorCode::ProtocolViolation => 1,
        ErrorCode::UnsupportedMessage => 2,
        ErrorCode::InvalidPayload => 3,
        ErrorCode::PermissionDenied => 4,
        ErrorCode::ResourceExhausted => 5,
    }
}

/// Appends an error report body.
fn emit_error(out: &mut Vec<u8>, e: &ErrorMessage)
    ensures
        final(out)@ == old(out)@ + enc_error(e@),
{
    let t = error_code_tag_exec(&e.error_code);
    emit_u32(out, t);
    emit_str(out, e.message.as_str());
    proof {
        assert(out@ =~= old(out)@ + enc_error(e@));
    }
}

/// Wire tag of a frame format.
fn frame_format_tag_exec(f: &FrameFormat) -> (t: u32)
    ensures
        t == frame_format_tag(*f),
{
    match f {
        FrameFormat::Jpeg => 0,
        FrameFormat::Png => 1,
        FrameFormat::Raw => 2,
    }
}

/// Appends a screen frame body.
fn emit_screen_frame(out: &mut Vec<u8>, f: &ScreenFrameData)
    ensures
        final(out)@ == old(out)@ + enc_screen_frame(f@),
{
    emit_u64(out, f.sequence);
    emit_u32(out, f.width);
    emit_u32(out, f.height);
    let t = frame_format_tag_exec(&f.format);
    emit_u32(out, t);
    emit_bytes(out, f.data.as_slice());
    emit_u64(out, f.timestamp);
    proof {
        assert(out@ =~= old(out)@ + enc_screen_frame(f@));
    }
}

/// Appends a keyboard event body.
fn emit_keyboard(out: &mut Vec<u8>, k: &KeyboardEventData)
    ensures
        final(out)@ == old(out)@ + enc_keyboard(*k),
{
    let t: u32 = match k.event_type {
        KeyboardEventTypeData::KeyPress => 0,
        KeyboardEventTypeData::KeyRelease => 1,
    };
    emit_u32(out, t);
    emit_u16(out, k.key);
    emit_u64(out, k.timestamp);
    proof {
        assert(out@ =~= old(out)@ + enc_keyboard(*k));
    }
}

/// Appends a mouse event body.
fn emit_mouse(out: &mut Vec<u8>, m: &MouseEventData)
    ensures
        final(out)@ == old(out)@ + enc_mouse(*m),
{
    match &m.event_type {
        MouseEventTypeData::Move { x, y } => {
            emit_u32(out, 0);
            let wx = wrap_i32_exec(*x);
            emit_u32(out, wx);
            let wy = wrap_i32_exec(*y);
            emit_u32(out, wy);
        },
        MouseEventTypeData::ButtonPress { button } => {
            emit_u32(out, 1);
            emit_u8(out, *button);
        },
        MouseEventTypeData::ButtonRelease { button } => {
            emit_u32(out, 2);
            emit_u8(out, *button);
        },
        MouseEventTypeData::Wheel { delta_x, delta_y } => {
            emit_u32(out, 3);
            let wx = wrap_i32_exec(*delta_x);
            emit_u32(out, wx);
            let wy = wrap_i32_exec(*delta_y);
            emit_u32(out, wy);
        },
    }
    emit_u64(out, m.timestamp);
    proof {
        assert(out@ =~= old(out)@ + enc_mouse(*m));
    }
}

impl Message {
    /// Serializes the message into the wire format.
    pub fn to_bytes(&self) -> (r: crate::error::NetworkResult<Vec<u8>>)
        ensures
            r matches Ok(b) && b@ == enc_message(self@),
    {
        let mut out: Vec<u8> = Vec::new();
        emit_u32(&mut out, self.message_id);
        let t: u32 = match self.message_type {
            MessageType::ConnectionRequest => 0,
            MessageType::ConnectionAccept => 1,
            MessageType::ConnectionReject => 2,
            MessageType::Disconnect => 3,
            MessageType::Heartbeat => 4,
            MessageType::AuthChallenge => 5,
            MessageType::AuthResponse => 6,
            MessageType::ScreenFrame => 7,
            MessageType::ScreenFrameDiff => 8,
            MessageType::KeyboardEvent => 9,
            MessageType::MouseEvent => 10,
            MessageType::ResolutionChange => 11,
            MessageType::ClipboardUpdate => 12,
            MessageType::QualityUpdate => 13,
            MessageType::Statistics => 14,
            MessageType::Error => 15,
        };
        emit_u32(&mut out, t);
        let ghost head = out@;
        match &self.payload {
            MessagePayload::ConnectionRequest(x) => {
                emit_u32(&mut out, 0);
                emit_request(&mut out, x);
            },
            MessagePayload::ConnectionAccept(x) => {
                emit_u32(&mut out, 1);
                emit_accept(&mut out, x);
            },
            MessagePayload::ConnectionReject(x) => {
                emit_u32(&mut out, 2);
                emit_reject(&mut out, x);
            },
            MessagePayload::Disconnect(x) => {
                emit_u32(&mut out, 3);
                let t2: u32 = match x.reason {
                    DisconnectReason::UserInitiated => 0,
                    DisconnectReason::SessionTimeout => 1,
                    DisconnectReason::Error => 2,
                };
                emit_u32(&mut out, t2);
            },
            MessagePayload::Heartbeat(x) => {
                emit_u32(&mut out, 4);
                emit_u64(&mut out, x.timestamp);
            },
            MessagePayload::Error(x) => {
                emit_u32(&mut out, 5);
                emit_error(&mut out, x);
            },
            MessagePayload::ScreenFrame(x) => {
                emit_u32(&mut out, 6);
                emit_screen_frame(&mut out, x);
            },
            MessagePayload::KeyboardEvent(x) => {
                emit_u32(&mut out, 7);
                emit_keyboard(&mut out, x);
            },
            MessagePayload::MouseEvent(x) => {
                emit_u32(&mut out, 8);
                emit_mouse(&mut out, x);
            },
        }
        proof {
            reveal(enc_payload);
            assert(out@ =~= enc_message(self@));
        }
        Ok(out)
    }
}

} // verus!
// the executable parser
verus! {

/// Relies on `String::from_utf8`: decodes UTF-8 bytes into text, failing
/// exactly on byte sequences that are not valid UTF-8.
#[verifier::external_body]
pub(crate) fn bytes_to_string(bytes: Vec<u8>) -> (r: Option<String>)
    ensures
        r matches Some(t) ==> valid_utf8(bytes@) && t@ == decode_utf8(bytes@),
        r is None ==> !valid_utf8(bytes@),
{
    match String::from_utf8(bytes) {
        Ok(t) => Some(t),
        Err(_) => None,
    }
}

/// Reads one byte.
fn read_u8(data: &[u8], pos: usize) -> (r: Option<(u8, usize)>)
    ensures
        r matches Some(v) ==> dec_u8(data@, pos as int) == Some((v.0, v.1 as int)) && v.1
            <= data@.len(),
        r is None ==> dec_u8(data@, pos as int) is None,
{
    if pos < data.len() {
        Some((data[pos], pos + 1))
    } else {
        None
    }
}

/// Reads a little-endian `u16`.
fn read_u16(data: &[u8], pos: usize) -> (r: Option<(u16, usize)>)
    ensures
        r matches Some(v) ==> dec_u16(data@, pos as int) == Some((v.0, v.1 as int)) && v.1
            <= data@.len(),
        r is None ==> dec_u16(data@, pos as int) is None,
{
    if pos < data.len() && data.len() - pos >= 2 {
        let v = data[pos] as u16 + 256 * data[pos + 1] as u16;
        Some((v, pos + 2))
    } else {
        None
    }
}

/// Reads a little-endian `u32`.
fn read_u32(data: &[u8], pos: usize) -> (r: Option<(u32, usize)>)
    ensures
        r matches Some(v) ==> dec_u32(data@, pos as int) == Some((v.0, v.1 as int)) && v.1
            <= data@.len(),
        r is None ==> dec_u32(data@, pos as int) is None,
{
    if pos < data.len() && data.len() - pos >= 4 {
        let v = data[pos] as u32 + 256 * data[pos + 1] as u32 + 65536 * data[pos + 2] as u32
            + 16777216 * data[pos + 3] as u32;
        Some((v, pos + 4))
    } else {
        None
    }
}

/// Reads a little-endian `u64`.
fn read_u64(data: &[u8], pos: usize) -> (r: Option<(u64, usize)>)
    ensures
        r matches Some(v) ==> dec_u64(data@, pos as int) == Some((v.0, v.1 as int)) && v.1
            <= data@.len(),
        r is None ==> dec_u64(data@, pos as int) is None,
{
    if pos < data.len() && data.len() - pos >= 8 {
        let v = data[pos] as u64 + 256 * data[pos + 1] as u64 + 65536 * data[pos + 2] as u64
            + 16777216 * data[pos + 3] as u64 + 4294967296 * data[pos + 4] as u64 + 1099511627776
            * data[pos + 5] as u64 + 281474976710656 * data[pos + 6] as u64 + 72057594037927936
            * data[pos + 7] as u64;
        Some((v, pos + 8))
    } else {
        None
    }
}

/// Reads a length-prefixed byte string.
fn read_bytes(data: &[u8], pos: usize) -> (r: Option<(Vec<u8>, usize)>)
    ensures
        r matches Some(v) ==> dec_bytes(data@, pos as int) == Some((v.0@, v.1 as int)) && v.1
            <= data@.len(),
        r is None ==> dec_bytes(data@, pos as int) is None,
{
    match read_u64(data, pos) {
        Some((n, p)) => {
            let dlen = data.len();
            if n > (dlen - p) as u64 {
                return None;
            }
            let nn = n as usize;
            let mut b: Vec<u8> = Vec::new();
            let mut i: usize = 0;
            while i < nn
                invariant
                    0 <= i <= nn,
                    p + nn <= dlen,
                    dlen == data@.len(),
                    nn == n,
                    b@ == data@.subrange(p as int, p + i),
                decreases nn - i,
            {
                b.push(data[p + i]);
                proof {
                    assert(data@.subrange(p as int, p + i + 1) =~= data@.subrange(
                        p as int,
                        p + i,
                    ).push(data@[p + i]));
                }
                i += 1;
            }
            Some((b, p + nn))
        },
        None => None,
    }
}

/// Reads a length-prefixed UTF-8 string.
fn read_str(data: &[u8], pos: usize) -> (r: Option<(String, usize)>)
    ensures
        r matches Some(v) ==> dec_str(data@, pos as int) == Some((v.0@, v.1 as int)) && v.1
            <= data@.len(),
        r is None ==> dec_str(data@, pos as int) is None,
{
    match read_bytes(data, pos) {
        Some((b, p)) => match bytes_to_string(b) {
            Some(t) => Some((t, p)),
            None => None,
        },
        None => None,
    }
}

/// Reads a capability.
fn read_cap(data: &[u8], pos: usize) -> (r: Option<(Capability, usize)>)
    ensures
        r matches Some(v) ==> dec_cap(data@, pos as int) == Some((v.0, v.1 as int)) && v.1
            <= data@.len(),
        r is None ==> dec_cap(data@, pos as int) is None,
{
    match read_u32(data, pos) {
        Some((t, p)) => {
            if t == 0 {
                Some((Capability::RemoteControl, p))
            } else if t == 1 {
                Some((Capability::ClipboardSync, p))
            } else if t == 2 {
                Some((Capability::FileTransfer, p))
            } else {
                None
            }
        },
        None => None,
    }
}

/// Reads a length-prefixed capability list.
fn read_caps(data: &[u8], pos: usize) -> (r: Option<(Vec<Capability>, usize)>)
    ensures
        r matches Some(v) ==> dec_caps(data@, pos as int) == Some((v.0@, v.1 as int)) && v.1
            <= data@.len(),
        r is None ==> dec_caps(data@, pos as int) is None,
{
    match read_u64(data, pos) {
        Some((n, p)) => {
            let mut cs: Vec<Capability> = Vec::new();
            let mut k: u64 = 0;
            let mut cur: usize = p;
            proof {
                assert(forall|t: Seq<Capability>| Seq::empty() + t =~= t);
            }
            while k < n
                invariant
                    0 <= k <= n,
                    cur <= data@.len(),
                    dec_u64(data@, pos as int) == Some((n, p as int)),
                    dec_cap_list(data@, p as int, n as int) == (match dec_cap_list(
                        data@,
                        cur as int,
                        n - k,
                    ) {
                        Some((t, q)) => Some((cs@ + t, q)),
                        None => None::<(Seq<Capability>, int)>,
                    }),
                decreases n - k,
            {
                match read_cap(data, cur) {
                    Some((c, p2)) => {
                        proof {
                            assert(forall|t: Seq<Capability>|
                                cs@ + (seq![c] + t) =~= (cs@.push(c)) + t);
                        }
                        cs.push(c);
                        cur = p2;
                    },
                    None => {
                        proof {
                            assert(dec_cap_list(data@, cur as int, n - k) is None);
                            assert(dec_cap_list(data@, p as int, n as int) is None);
                            assert(dec_caps(data@, pos as int) is None);
                        }
                        return None;
                    },
                }
                k = k + 1;
            }
            proof {
                assert(dec_cap_list(data@, cur as int, 0) == Some(
                    (Seq::<Capability>::empty(), cur as int),
                ));
                assert(cs@ + Seq::<Capability>::empty() =~= cs@);
            }
            Some((cs, cur))
        },
        None => None,
    }
}

/// Reads an optional 32-byte hash.
fn read_opt_hash(data: &[u8], pos: usize) -> (r: Option<(Option<[u8; 32]>, usize)>)
    ensures
        r matches Some(v) ==> dec_opt_hash(data@, pos as int) == Some(
            (
                match v.0 {
                    Some(h) => Some(h@),
                    None => None,
                },
                v.1 as int,
            ),
        ) && v.1 <= data@.len(),
        r is None ==> dec_opt_hash(data@, pos as int) is None,
{
    match read_u8(data, pos) {
        Some((t, p)) => {
            if t == 0 {
                Some((None, p))
            } else if t == 1 {
                if data.len() - p < 32 {
                    return None;
                }
                let h: [u8; 32] = [
                    data[p],
                    data[p + 1],
                    data[p + 2],
                    data[p + 3],
                    data[p + 4],
                    data[p + 5],
                    data[p + 6],
                    data[p + 7],
                    data[p + 8],
                    data[p + 9],
                    data[p + 10],
                    data[p + 11],
                    data[p + 12],
                    data[p + 13],
                    data[p + 14],
                    data[p + 15],
                    data[p + 16],
                    data[p + 17],
                    data[p + 18],
                    data[p + 19],
                    data[p + 20],
                    data[p + 21],
                    data[p + 22],
                    data[p + 23],
                    data[p + 24],
                    data[p + 25],
                    data[p + 26],
                    data[p + 27],
                    data[p + 28],
                    data[p + 29],
                    data[p + 30],
                    data[p + 31],
                ];
                proof {
                    assert(h@ =~= data@.subrange(p as int, p + 32));
                }
                Some((Some(h), p + 32))
            } else {
                None
            }
        },
        None => None,
    }
}

/// Reads an optional string.
fn read_opt_str(data: &[u8], pos: usize) -> (r: Option<(Option<String>, usize)>)
    ensures
        r matches Some(v) ==> dec_opt_str(data@, pos as int) == Some(
            (
                match v.0 {
                    Some(ref m) => Some(m@),
                    None => None,
                },
                v.1 as int,
            ),
        ) && v.1 <= data@.len(),
        r is None ==> dec_opt_str(data@, pos as int) is None,
{
    match read_u8(data, pos) {
        Some((t, p)) => {
            if t == 0 {
                Some((None, p))
            } else if t == 1 {
                match read_str(data, p) {
                    Some((m, p2)) => Some((Some(m), p2)),
                    None => None,
                }
            } else {
                None
            }
        },
        None => None,
    }
}

/// Reads desktop facts.
fn read_desktop(data: &[u8], pos: usize) -> (r: Option<(DesktopInfo, usize)>)
    ensures
        r matches Some(v) ==> dec_desktop(data@, pos as int) == Some((v.0, v.1 as int)) && v.1
            <= data@.len(),
        r is None ==> dec_desktop(data@, pos as int) is None,
{
    match read_u16(data, pos) {
        Some((w, p1)) => match read_u16(data, p1) {
            Some((h, p2)) => match read_u8(data, p2) {
                Some((c, p3)) => Some(
                    (DesktopInfo { screen_width: w, screen_height: h, screen_count: c }, p3),
                ),
                None => None,
            },
            None => None,
        },
        None => None,
    }
}

/// Reads a connection request body.
fn read_request(data: &[u8], pos: usize) -> (r: Option<(ConnectionRequest, usize)>)
    ensures
        r matches Some(v) ==> dec_request(data@, pos as int) == Some((v.0@, v.1 as int)) && v.1
            <= data@.len(),
        r is None ==> dec_request(data@, pos as int) is None,
{
    match read_u8(data, pos) {
        Some((ver, p1)) => match read_u32(data, p1) {
            Some((cid, p2)) => match read_str(data, p2) {
                Some((name, p3)) => match read_u32(data, p3) {
                    Some((hid, p4)) => match read_opt_hash(data, p4) {
                        Some((hash, p5)) => match read_caps(data, p5) {
                            Some((caps, p6)) => Some(
                                (
                                    ConnectionRequest {
                                        protocol_version: ver,
                                        client_id: cid,
                                        client_name: name,
                                        host_id: hid,
                                        password_hash: hash,
                                        requested_capabilities: caps,
                                    },
                                    p6,
                                ),
                            ),
                            None => None,
                        },
                        None => None,
                    },
                    None => None,
                },
                None => None,
            },
            None => None,
        },
        None => None,
    }
}

/// Reads a connection acceptance body.
fn read_accept(data: &[u8], pos: usize) -> (r: Option<(ConnectionAccept, usize)>)
    ensures
        r matches Some(v) ==> dec_accept(data@, pos as int) == Some((v.0@, v.1 as int)) && v.1
            <= data@.len(),
        r is None ==> dec_accept(data@, pos as int) is None,
{
    if pos < data.len() && data.len() - pos >= 16 {
        let sid: [u8; 16] = [
            data[pos],
            data[pos + 1],
            data[pos + 2],
            data[pos + 3],
            data[pos + 4],
            data[pos + 5],
            data[pos + 6],
            data[pos + 7],
            data[pos + 8],
            data[pos + 9],
            data[pos + 10],
            data[pos + 11],
            data[pos + 12],
            data[pos + 13],
            data[pos + 14],
            data[pos + 15],
        ];
        proof {
            assert(sid@ =~= data@.subrange(pos as int, pos + 16));
        }
        match read_str(data, pos + 16) {
            Some((name, p1)) => match read_caps(data, p1) {
                Some((caps, p2)) => match read_desktop(data, p2) {
                    Some((d, p3)) => Some(
                        (
                            ConnectionAccept {
                                session_id: sid,
                                host_name: name,
                                host_capabilities: caps,
                                desktop_info: d,
                            },
                            p3,
                        ),
                    ),
                    None => None,
                },
                None => None,
            },
            None => None,
        }
    } else {
        None
    }
}

/// Reads a connection rejection body.
fn read_reject(data: &[u8], pos: usize) -> (r: Option<(ConnectionReject, usize)>)
    ensures
        r matches Some(v) ==> dec_reject(data@, pos as int) == Some((v.0@, v.1 as int)) && v.1
            <= data@.len(),
        r is None ==> dec_reject(data@, pos as int) is None,
{
    match read_u32(data, pos) {
        Some((t, p1)) => {
            let reason = if t == 0 {
                Some(RejectReason::UserDenied)
            } else if t == 1 {
                Some(RejectReason::InvalidPassword)
            } else if t == 2 {
                Some(RejectReason::InvalidId)
            } else if t == 3 {
                Some(RejectReason::AlreadyConnected)
            } else if t == 4 {
                Some(RejectReason::AccountLocked)
            } else if t == 5 {
                Some(RejectReason::UnsupportedVersion)
            } else {
                None
            };
            match reason {
                Some(reason) => match read_opt_str(data, p1) {
                    Some((m, p2)) => Some((ConnectionReject { reason, message: m }, p2)),
                    None => None,
                },
                None => None,
            }
        },
        None => None,
    }
}

/// Reads an error report body.
fn read_error(data: &[u8], pos: usize) -> (r: Option<(ErrorMessage, usize)>)
    ensures
        r matches Some(v) ==> dec_error(data@, pos as int) == Some((v.0@, v.1 as int)) && v.1
            <= data@.len(),
        r is None ==> dec_error(data@, pos as int) is None,
{
    match read_u32(data, pos) {
        Some((t, p1)) => {
            let code = if t == 0 {
                Some(ErrorCode::UnknownError)
            } else if t == 1 {
                Some(ErrorCode::ProtocolViolation)
            } else if t == 2 {
                Some(ErrorCode::UnsupportedMessage)
            } else if t == 3 {
                Some(ErrorCode::InvalidPayload)
            } else if t == 4 {
                Some(ErrorCode::PermissionDenied)
            } else if t == 5 {
                Some(ErrorCode::ResourceExhausted)
            } else {
                None
            };
            match code {
                Some(code) => match read_str(data, p1) {
                    Some((m, p2)) => Some((ErrorMessage { error_code: code, message: m }, p2)),
                    None => None,
                },
                None => None,
            }
        },
        None => None,
    }
}

/// Reads a screen frame body.
fn read_screen_frame(data: &[u8], pos: usize) -> (r: Option<(ScreenFrameData, usize)>)
    ensures
        r matches Some(v) ==> dec_screen_frame(data@, pos as int) == Some((v.0@, v.1 as int)) && v.1
            <= data@.len(),
        r is None ==> dec_screen_frame(data@, pos as int) is None,
{
    match read_u64(data, pos) {
        Some((sq, p1)) => match read_u32(data, p1) {
            Some((w, p2)) => match read_u32(data, p2) {
                Some((h, p3)) => match read_u32(data, p3) {
                    Some((ft, p4)) => {
                        let format = if ft == 0 {
                            Some(FrameFormat::Jpeg)
                        } else if ft == 1 {
                            Some(FrameFormat::Png)
                        } else if ft == 2 {
                            Some(FrameFormat::Raw)
                        } else {
                            None
                        };
                        match format {
                            Some(format) => match read_bytes(data, p4) {
                                Some((d, p5)) => match read_u64(data, p5) {
                                    Some((ts, p6)) => Some(
                                        (
                                            ScreenFrameData {
                                                sequence: sq,
                                                width: w,
                                                height: h,
                                                format,
                                                data: d,
                                                timestamp: ts,
                                            },
                                            p6,
                                        ),
                                    ),
                                    None => None,
                                },
                                None => None,
                            },
                            None => None,
                        }
                    },
                    None => None,
                },
                None => None,
            },
            None => None,
        },
        None => None,
    }
}

/// Reads a keyboard event body.
fn read_keyboard(data: &[u8], pos: usize) -> (r: Option<(KeyboardEventData, usize)>)
    ensures
        r matches Some(v) ==> dec_keyboard(data@, pos as int) == Some((v.0, v.1 as int)) && v.1
            <= data@.len(),
        r is None ==> dec_keyboard(data@, pos as int) is None,
{
    match read_u32(data, pos) {
        Some((t, p1)) => {
            let et = if t == 0 {
                Some(KeyboardEventTypeData::KeyPress)
            } else if t == 1 {
                Some(KeyboardEventTypeData::KeyRelease)
            } else {
                None
            };
            match et {
                Some(event_type) => match read_u16(data, p1) {
                    Some((key, p2)) => match read_u64(data, p2) {
                        Some((ts, p3)) => Some(
                            (KeyboardEventData { event_type, key, timestamp: ts }, p3),
                        ),
                        None => None,
                    },
                    None => None,
                },
                None => None,
            }
        },
        None => None,
    }
}

/// The signed value back from its two's-complement image.
fn unwrap_i32_exec(u: u32) -> (r: i32)
    ensures
        r == unwrap_i32(u),
{
    if u < 0x8000_0000 {
        u as i32
    } else {
        ((u as i64) - 4294967296i64) as i32
    }
}

/// Reads a mouse event shape.
fn read_mouse_type(data: &[u8], pos: usize) -> (r: Option<(MouseEventTypeData, usize)>)
    ensures
        r matches Some(v) ==> dec_mouse_type(data@, pos as int) == Some((v.0, v.1 as int)) && v.1
            <= data@.len(),
        r is None ==> dec_mouse_type(data@, pos as int) is None,
{
    match read_u32(data, pos) {
        Some((t, p1)) => {
            if t == 0 {
                match read_u32(data, p1) {
                    Some((x, p2)) => match read_u32(data, p2) {
                        Some((y, p3)) => {
                            let xi = unwrap_i32_exec(x);
                            let yi = unwrap_i32_exec(y);
                            Some((MouseEventTypeData::Move { x: xi, y: yi }, p3))
                        },
                        None => None,
                    },
                    None => None,
                }
            } else if t == 1 {
                match read_u8(data, p1) {
                    Some((b, p2)) => Some((MouseEventTypeData::ButtonPress { button: b }, p2)),
                    None => None,
                }
            } else if t == 2 {
                match read_u8(data, p1) {
                    Some((b, p2)) => Some((MouseEventTypeData::ButtonRelease { button: b }, p2)),
                    None => None,
                }
            } else if t == 3 {
                match read_u32(data, p1) {
                    Some((dx, p2)) => match read_u32(data, p2) {
                        Some((dy, p3)) => {
                            let dxi = unwrap_i32_exec(dx);
                            let dyi = unwrap_i32_exec(dy);
                            Some(
                                (MouseEventTypeData::Wheel { delta_x: dxi, delta_y: dyi }, p3),
                            )
                        },
                        None => None,
                    },
                    None => None,
                }
            } else {
                None
            }
        },
        None => None,
    }
}

/// Reads a mouse event body.
fn read_mouse(data: &[u8], pos: usize) -> (r: Option<(MouseEventData, usize)>)
    ensures
        r matches Some(v) ==> dec_mouse(data@, pos as int) == Some((v.0, v.1 as int)) && v.1
            <= data@.len(),
        r is None ==> dec_mouse(data@, pos as int) is None,
{
    match read_mouse_type(data, pos) {
        Some((event_type, p1)) => match read_u64(data, p1) {
            Some((ts, p2)) => Some((MouseEventData { event_type, timestamp: ts }, p2)),
            None => None,
        },
        None => None,
    }
}

impl Message {
    /// Parses a message from exactly the given bytes.
    ///
    /// Succeeds exactly when the bytes are one whole well-formed message,
    /// and then returns the message they encode.
    pub fn from_bytes(bytes: &[u8]) -> (r: crate::error::NetworkResult<Message>)
        ensures
            r matches Ok(m) ==> dec_message(bytes@, 0) == Some((m@, bytes@.len() as int)),
            r is Err ==> match dec_message(bytes@, 0) {
                Some(p) => p.1 != bytes@.len(),
                None => true,
            },
    {
        proof {
            reveal(dec_payload_body);
        }
        let parsed = Self::read_message(bytes);
        match parsed {
            Some((m, p)) => {
                if p == bytes.len() {
                    Ok(m)
                } else {
                    Err(crate::error::NetworkError::InvalidMessageFormat)
                }
            },
            None => Err(crate::error::NetworkError::InvalidMessageFormat),
        }
    }

    /// Reads one message from the front of `data`.
    fn read_message(data: &[u8]) -> (r: Option<(Message, usize)>)
        ensures
            r matches Some(v) ==> dec_message(data@, 0) == Some((v.0@, v.1 as int)),
            r is None ==> dec_message(data@, 0) is None,
    {
        match read_u32(data, 0) {
            Some((id, p1)) => match read_u32(data, p1) {
                Some((tt, p2)) => {
                    let message_type = if tt == 0 {
                        Some(MessageType::ConnectionRequest)
                    } else if tt == 1 {
                        Some(MessageType::ConnectionAccept)
                    } else if tt == 2 {
                        Some(MessageType::ConnectionReject)
                    } else if tt == 3 {
                        Some(MessageType::Disconnect)
                    } else if tt == 4 {
                        Some(MessageType::Heartbeat)
                    } else if tt == 5 {
                        Some(MessageType::AuthChallenge)
                    } else if tt == 6 {
                        Some(MessageType::AuthResponse)
                    } else if tt == 7 {
                        Some(MessageType::ScreenFrame)
                    } else if tt == 8 {
                        Some(MessageType::ScreenFrameDiff)
                    } else if tt == 9 {
                        Some(MessageType::KeyboardEvent)
                    } else if tt == 10 {
                        Some(MessageType::MouseEvent)
                    } else if tt == 11 {
                        Some(MessageType::ResolutionChange)
                    } else if tt == 12 {
                        Some(MessageType::ClipboardUpdate)
                    } else if tt == 13 {
                        Some(MessageType::QualityUpdate)
                    } else if tt == 14 {
                        Some(MessageType::Statistics)
                    } else if tt == 15 {
                        Some(MessageType::Error)
                    } else {
                        None
                    };
                    match message_type {
                        Some(message_type) => match Self::read_payload(data, p2) {
                            Some((payload, p3)) => Some(
                                (Message { message_id: id, message_type, payload }, p3),
                            ),
                            None => None,
                        },
                        None => None,
                    }
                },
                None => None,
            },
            None => None,
        }
    }

    /// Reads one payload from `data` at `pos`.
    fn read_payload(data: &[u8], pos: usize) -> (r: Option<(MessagePayload, usize)>)
        ensures
            r matches Some(v) ==> dec_payload(data@, pos as int) == Some((v.0@, v.1 as int)),
            r is None ==> dec_payload(data@, pos as int) is None,
    {
        proof {
            reveal(dec_payload_body);
        }
        match read_u32(data, pos) {
            Some((tag, p)) => {
                if tag == 0 {
                    match read_request(data, p) {
                        Some((x, p2)) => Some((MessagePayload::ConnectionRequest(x), p2)),
                        None => None,
                    }
                } else if tag == 1 {
                    match read_accept(data, p) {
                        Some((x, p2)) => Some((MessagePayload::ConnectionAccept(x), p2)),
                        None => None,
                    }
                } else if tag == 2 {
                    match read_reject(data, p) {
                        Some((x, p2)) => Some((MessagePayload::ConnectionReject(x), p2)),
                        None => None,
                    }
                } else if tag == 3 {
                    match read_u32(data, p) {
                        Some((t2, p2)) => {
                            let reason = if t2 == 0 {
                                Some(DisconnectReason::UserInitiated)
                            } else if t2 == 1 {
                                Some(DisconnectReason::SessionTimeout)
                            } else if t2 == 2 {
                                Some(DisconnectReason::Error)
                            } else {
                                None
                            };
                            match reason {
                                Some(reason) => Some(
                                    (MessagePayload::Disconnect(Disconnect { reason }), p2),
                                ),
                                None => None,
                            }
                        },
                        None => None,
                    }
                } else if tag == 4 {
                    match read_u64(data, p) {
                        Some((ts, p2)) => Some(
                            (MessagePayload::Heartbeat(Heartbeat { timestamp: ts }), p2),
                        ),
                        None => None,
                    }
                } else if tag == 5 {
                    match read_error(data, p) {
                        Some((x, p2)) => Some((MessagePayload::Error(x), p2)),
                        None => None,
                    }
                } else if tag == 6 {
                    match read_screen_frame(data, p) {
                        Some((x, p2)) => Some((MessagePayload::ScreenFrame(x), p2)),
                        None => None,
                    }
                } else if tag == 7 {
                    match read_keyboard(data, p) {
                        Some((x, p2)) => Some((MessagePayload::KeyboardEvent(x), p2)),
                        None => None,
                    }
                } else if tag == 8 {
                    match read_mouse(data, p) {
                        Some((x, p2)) => Some((MessagePayload::MouseEvent(x), p2)),
                        None => None,
                    }
                } else {
                    None
                }
            },
            None => None,
        }
    }
}

} // verus!
