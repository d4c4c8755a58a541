//! Frame encoding: raw passthrough, JPEG and PNG through the image
//! library, and zstd helpers for auxiliary compression.

use vstd::prelude::*;

use crate::desktop::types::{clamp_u8, clamped, EncodedFrame, Frame, FrameFormat, Quality,
    MAX_QUALITY, MIN_QUALITY, DEFAULT_QUALITY};
use crate::error::{RemoteDeskError, Result};

verus! {

/// The JPEG bytes the image library produces for an RGBA buffer of the
/// given dimensions at the given quality. A function of its arguments
/// alone.
pub uninterp spec fn jpeg_bytes_of(width: u32, height: u32, data: Seq<u8>, quality: u8) -> Seq<u8>;

/// The PNG bytes the image library produces for an RGBA buffer of the
/// given dimensions. A function of its arguments alone.
pub uninterp spec fn png_bytes_of(width: u32, height: u32, data: Seq<u8>) -> Seq<u8>;

/// The zstd frame produced for the given bytes at the given level.
/// A function of its arguments alone.
pub uninterp spec fn zstd_bytes_of(level: i32, data: Seq<u8>) -> Seq<u8>;

/// Relies on the image library's JPEG encoder: RGBA pixels are converted
/// to RGB and encoded; encoding succeeds for dimensions the JPEG format
/// can hold (at most 65535 on each side).
#[verifier::external_body]
fn jpeg_encode_rgba(width: u32, height: u32, data: &Vec<u8>, quality: u8) -> (r:
    core::result::Result<Vec<u8>, String>)
    requires
        data@.len() == width as int * height as int * 4,
        1 <= width,
        1 <= height,
    ensures
        r matches Ok(b) ==> b@ == jpeg_bytes_of(width, height, data@, quality),
        width <= 65535 && height <= 65535 ==> r is Ok,
{
    let img: image::ImageBuffer<image::Rgba<u8>, Vec<u8>> =
        match image::ImageBuffer::from_raw(width, height, data.clone()) {
            Some(i) => i,
            None => return Err("buffer does not match dimensions".to_string()),
        };
    let rgb = image::DynamicImage::ImageRgba8(img).to_rgb8();
    let mut buffer = std::io::Cursor::new(Vec::new());
    let mut encoder = image::codecs::jpeg::JpegEncoder::new_with_quality(&mut buffer, quality);
    match encoder.encode(rgb.as_raw(), width, height, image::ColorType::Rgb8) {
        Ok(()) => Ok(buffer.into_inner()),
        Err(e) => Err(e.to_string()),
    }
}

/// Relies on the image library's PNG encoder: RGBA pixels are encoded
/// losslessly; encoding succeeds for the dimension range frames use
/// (at most 65535 on each side).
#[verifier::external_body]
fn png_encode_rgba(width: u32, height: u32, data: &Vec<u8>) -> (r: core::result::Result<
    Vec<u8>,
    String,
>)
    requires
        data@.len() == width as int * height as int * 4,
        1 <= width,
        1 <= height,
    ensures
        r matches Ok(b) ==> b@ == png_bytes_of(width, height, data@),
        width <= 65535 && height <= 65535 ==> r is Ok,
{
    let img: image::ImageBuffer<image::Rgba<u8>, Vec<u8>> =
        match image::ImageBuffer::from_raw(width, height, data.clone()) {
            Some(i) => i,
            None => return Err("buffer does not match dimensions".to_string()),
        };
    let mut buffer = std::io::Cursor::new(Vec::new());
    match image::DynamicImage::ImageRgba8(img).write_to(&mut buffer, image::ImageFormat::Png) {
        Ok(()) => Ok(buffer.into_inner()),
        Err(e) => Err(e.to_string()),
    }
}

/// What decoding bytes to an RGBA image guarantees: a decoded image's
/// buffer matches its dimensions; a JPEG this library encoded keeps its
/// dimensions; a PNG this library encoded decodes back to exactly the
/// pixels it was built from.
pub open spec fn decoded_image_facts(data: Seq<u8>, r: Option<(u32, u32, Vec<u8>)>) -> bool {
    &&& (r matches Some(v) ==> v.2@.len() == v.0 as int * v.1 as int * 4)
    &&& forall|w: u32, h: u32, d: Seq<u8>, q: u8|
        data == jpeg_bytes_of(w, h, d, q) && d.len() == w as int * h as int * 4 && 1 <= w <= 65535
            && 1 <= h <= 65535 ==> (r matches Some(v) && v.0 == w && v.1 == h)
    &&& forall|w: u32, h: u32, d: Seq<u8>|
        data == png_bytes_of(w, h, d) && d.len() == w as int * h as int * 4 && 1 <= w <= 65535
            && 1 <= h <= 65535 ==> (r matches Some(v) && v.0 == w && v.1 == h && v.2@ == d)
}

/// Relies on the image library's format-guessing reader and decoders:
/// a JPEG keeps its dimensions; a PNG decodes back to exactly the RGBA
/// bytes it was encoded from; any decoded image is returned as RGBA,
/// four bytes per pixel.
#[verifier::external_body]
pub(crate) fn decode_image_rgba(data: &Vec<u8>) -> (r: Option<(u32, u32, Vec<u8>)>)
    ensures
        decoded_image_facts(data@, r),
{
    let cursor = std::io::Cursor::new(data.as_slice());
    let reader = match image::io::Reader::new(cursor).with_guessed_format() {
        Ok(rd) => rd,
        Err(_) => return None,
    };
    match reader.decode() {
        Ok(img) => {
            let rgba = img.to_rgba8();
            let (w, h) = rgba.dimensions();
            Some((w, h, rgba.into_raw()))
        },
        Err(_) => None,
    }
}

/// The product of two 32-bit dimensions, which always fits 64 bits.
pub(crate) fn mul_dims(a: u32, b: u32) -> (r: u64)
    ensures
        r == a as int * b as int,
{
    proof {
        assert(a as int * b as int <= 0xFFFF_FFFF * 0xFFFF_FFFF) by (nonlinear_arith)
            requires
                a as int <= 0xFFFF_FFFF,
                b as int <= 0xFFFF_FFFF,
        ;
    }
    a as u64 * b as u64
}

/// Copies a byte buffer.
pub(crate) fn copy_bytes(src: &Vec<u8>) -> (r: Vec<u8>)
    ensures
        r@ == src@,
{
    let mut out: Vec<u8> = Vec::new();
    let n = src.len();
    let mut i: usize = 0;
    while i < n
        invariant
            0 <= i <= n,
            n == src@.len(),
            out@ == src@.take(i as int),
        decreases n - i,
    {
        out.push(src[i]);
        proof {
            assert(src@.take(i + 1) =~= src@.take(i as int).push(src@[i as int]));
        }
        i += 1;
    }
    proof {
        assert(src@.take(n as int) =~= src@);
    }
    out
}

/// Encodes captured frames in a fixed format at a fixed quality.
#[derive(Debug)]
pub struct FrameEncoder {
    format: FrameFormat,
    quality: Quality,
}

impl FrameEncoder {
    /// The encoder's format.
    pub closed spec fn spec_format(&self) -> FrameFormat {
        self.format
    }

    /// The encoder's quality.
    pub closed spec fn spec_quality(&self) -> Quality {
        self.quality
    }

    /// Creates an encoder, clamping quality into its accepted range.
    pub fn new(format: FrameFormat, quality: Quality) -> (r: FrameEncoder)
        ensures
            r.spec_format() == format,
            r.spec_quality() == clamped(quality, MIN_QUALITY, MAX_QUALITY),
    {
        FrameEncoder { format, quality: clamp_u8(quality, MIN_QUALITY, MAX_QUALITY) }
    }

    /// A JPEG encoder at the given quality.
    pub fn jpeg(quality: Quality) -> (r: FrameEncoder)
        ensures
            r.spec_format() == FrameFormat::Jpeg,
            r.spec_quality() == clamped(quality, MIN_QUALITY, MAX_QUALITY),
    {
        FrameEncoder::new(FrameFormat::Jpeg, quality)
    }

    /// A lossless PNG encoder at the default quality.
    pub fn png() -> (r: FrameEncoder)
        ensures
            r.spec_format() == FrameFormat::Png,
            r.spec_quality() == DEFAULT_QUALITY,
    {
        FrameEncoder::new(FrameFormat::Png, DEFAULT_QUALITY)
    }

    /// A raw passthrough encoder at the default quality.
    pub fn raw() -> (r: FrameEncoder)
        ensures
            r.spec_format() == FrameFormat::Raw,
            r.spec_quality() == DEFAULT_QUALITY,
    {
        FrameEncoder::new(FrameFormat::Raw, DEFAULT_QUALITY)
    }

    /// Encodes a frame in the encoder's format.
    ///
    /// Raw passes the pixels through bit-exactly and always succeeds. JPEG
    /// and PNG require the pixel buffer to match the dimensions; JPEG also
    /// requires each dimension to fit the format. WebP falls back to JPEG
    /// encoding until implemented.
    pub fn encode(&self, frame: &Frame) -> (r: Result<EncodedFrame>)
        ensures
            r matches Ok(e) ==> {
                &&& e.width == frame.width
                &&& e.height == frame.height
                &&& e.sequence == frame.sequence
                &&& e.format == self.spec_format()
                &&& e.original_size == frame.data@.len()
            },
            self.spec_format() == FrameFormat::Raw ==> (r matches Ok(e) && e.data@
                == frame.data@),
            (self.spec_format() == FrameFormat::Jpeg || self.spec_format() == FrameFormat::WebP)
                && frame.spec_valid() && 1 <= frame.width <= 65535 && 1 <= frame.height <= 65535
                ==> (r matches Ok(e) && e.data@ == jpeg_bytes_of(
                frame.width,
                frame.height,
                frame.data@,
                self.spec_quality(),
            )),
            self.spec_format() == FrameFormat::Png && frame.spec_valid() && 1 <= frame.width
                <= 65535 && 1 <= frame.height <= 65535 ==> (r matches Ok(e) && e.data@
                == png_bytes_of(
                frame.width,
                frame.height,
                frame.data@,
            )),
            self.spec_format() != FrameFormat::Raw && !frame.spec_valid() ==> r is Err,
    {
        let original_size = frame.data.len();
        let encoded_data: Vec<u8> = match self.format {
            FrameFormat::Raw => copy_bytes(&frame.data),
            _ => {
                let wh = mul_dims(frame.width, frame.height);
                if wh > u64::MAX / 4 {
                    return Err(
                        RemoteDeskError::Generic(
                            String::from_str("Failed to create image buffer from frame"),
                        ),
                    );
                }
                let expected = wh * 4;
                if frame.data.len() as u64 != expected || frame.width == 0 || frame.height == 0 {
                    return Err(
                        RemoteDeskError::Generic(
                            String::from_str("Failed to create image buffer from frame"),
                        ),
                    );
                }
                match self.format {
                    FrameFormat::Png => {
                        match png_encode_rgba(frame.width, frame.height, &frame.data) {
                            Ok(b) => b,
                            Err(m) => {
                                return Err(RemoteDeskError::Generic(m));
                            },
                        }
                    },
                    _ => {
                        match jpeg_encode_rgba(frame.width, frame.height, &frame.data, self.quality) {
                            Ok(b) => b,
                            Err(m) => {
                                return Err(RemoteDeskError::Generic(m));
                            },
                        }
                    },
                }
            },
        };
        Ok(
            EncodedFrame {
                width: frame.width,
                height: frame.height,
                data: encoded_data,
                sequence: frame.sequence,
                format: self.format,
                original_size,
            },
        )
    }

    /// Decodes an encoded frame back to raw RGBA pixels.
    ///
    /// The returned frame carries the encoded frame's dimensions and
    /// sequence number. Raw passes the bytes through bit-exactly; a PNG
    /// produced by this library's encoder decodes back to exactly the
    /// pixels it was built from, and a JPEG to a buffer of the source
    /// dimensions.
    pub fn decode(encoded: &EncodedFrame) -> (r: Result<Frame>)
        ensures
            r matches Ok(f) ==> {
                &&& f.width == encoded.width
                &&& f.height == encoded.height
                &&& f.sequence == encoded.sequence
            },
            encoded.format == FrameFormat::Raw ==> (r matches Ok(f) && f.data@
                == encoded.data@),
            encoded.format != FrameFormat::Raw ==> forall|w: u32, h: u32, d: Seq<u8>, q: u8|
                encoded.data@ == jpeg_bytes_of(w, h, d, q) && d.len() == w as int * h as int * 4
                    && 1 <= w <= 65535 && 1 <= h <= 65535 ==> (r matches Ok(f) && f.data@.len()
                    == w as int * h as int * 4),
            encoded.format != FrameFormat::Raw ==> forall|w: u32, h: u32, d: Seq<u8>|
                encoded.data@ == png_bytes_of(w, h, d) && d.len() == w as int * h as int * 4 && 1
                    <= w <= 65535 && 1 <= h <= 65535 ==> (r matches Ok(f) && f.data@ == d),
    {
        let data: Vec<u8> = match encoded.format {
            FrameFormat::Raw => copy_bytes(&encoded.data),
            _ => {
                match decode_image_rgba(&encoded.data) {
                    Some((_, _, buf)) => buf,
                    None => {
                        return Err(
                            RemoteDeskError::Generic(String::from_str("image decoding failed")),
                        );
                    },
                }
            },
        };
        Ok(Frame::new(encoded.width, encoded.height, data, encoded.sequence))
    }

    /// The encoder's format.
    pub fn format(&self) -> (r: FrameFormat)
        ensures
            r == self.spec_format(),
    {
        self.format
    }

    /// The encoder's quality.
    pub fn quality(&self) -> (r: Quality)
        ensures
            r == self.spec_quality(),
    {
        self.quality
    }

    /// Changes the quality, clamping it into its accepted range.
    pub fn set_quality(&mut self, quality: Quality)
        ensures
            final(self).spec_quality() == clamped(quality, MIN_QUALITY, MAX_QUALITY),
            final(self).spec_format() == old(self).spec_format(),
    {
        self.quality = clamp_u8(quality, MIN_QUALITY, MAX_QUALITY);
    }

    /// Changes the format.
    pub fn set_format(&mut self, format: FrameFormat)
        ensures
            final(self).spec_format() == format,
            final(self).spec_quality() == old(self).spec_quality(),
    {
        self.format = format;
    }
}

/// Relies on zstd's `encode_all`: compresses bytes at the given level,
/// deterministically for fixed inputs; levels outside the supported range
/// are clamped, and writing into memory cannot fail.
#[verifier::external_body]
fn zstd_encode(data: &Vec<u8>, level: i32) -> (r: core::result::Result<Vec<u8>, String>)
    ensures
        r matches Ok(b) ==> b@ == zstd_bytes_of(level, data@),
        r is Ok,
{
    match zstd::encode_all(data.as_slice(), level) {
        Ok(b) => Ok(b),
        Err(e) => Err(e.to_string()),
    }
}

/// What zstd decompression guarantees: a frame this library compressed
/// yields the original bytes back.
pub open spec fn zstd_decode_facts(data: Seq<u8>, r: core::result::Result<Vec<u8>, String>) -> bool {
    forall|level: i32, d: Seq<u8>|
        data == zstd_bytes_of(level, d) ==> (r matches Ok(b) && b@ == d)
}

/// Relies on zstd's `decode_all`: decompressing a frame this library
/// compressed yields the original bytes.
#[verifier::external_body]
fn zstd_decode(data: &Vec<u8>) -> (r: core::result::Result<Vec<u8>, String>)
    ensures
        zstd_decode_facts(data@, r),
{
    match zstd::decode_all(data.as_slice()) {
        Ok(b) => Ok(b),
        Err(e) => Err(e.to_string()),
    }
}

/// Compresses bytes with zstd at the given level.
pub fn compress_zstd(data: &Vec<u8>, level: i32) -> (r: Result<Vec<u8>>)
    ensures
        r matches Ok(b) ==> b@ == zstd_bytes_of(level, data@),
{
    match zstd_encode(data, level) {
        Ok(b) => Ok(b),
        Err(m) => Err(RemoteDeskError::Generic(m)),
    }
}

/// Decompresses zstd bytes; a frame compressed by this library yields the
/// original bytes back.
pub fn decompress_zstd(data: &Vec<u8>) -> (r: Result<Vec<u8>>)
    ensures
        forall|level: i32, d: Seq<u8>|
            data@ == zstd_bytes_of(level, d) ==> (r matches Ok(b) && b@ == d),
{
    match zstd_decode(data) {
        Ok(b) => Ok(b),
        Err(m) => Err(RemoteDeskError::Generic(m)),
    }
}

} // verus!
