//! Tests of desktop types, the frame encoder and the frame decoder.

use remote_desk::desktop::decoder::FrameDecoder;
use remote_desk::desktop::encoder::{compress_zstd, decompress_zstd, FrameEncoder};
use remote_desk::desktop::types::{CaptureConfig, Frame, FrameFormat};
use remote_desk::transport::TransportFrame;
use std::time::Duration;

fn create_test_frame() -> Frame {
    // a simple gradient frame
    let width = 100u32;
    let height = 100u32;
    let mut data = Vec::with_capacity((width * height * 4) as usize);
    for y in 0..height {
        for x in 0..width {
            let r = (x * 255 / width) as u8;
            let b = (y * 255 / height) as u8;
            data.push(r);
            data.push(0);
            data.push(b);
            data.push(255);
        }
    }
    Frame::new(width, height, data, 1)
}

#[test]
fn test_frame_validation() {
    let data = vec![0u8; 1920 * 1080 * 4];
    let frame = Frame::new(1920, 1080, data, 1);
    assert!(frame.is_valid());

    let invalid_data = vec![0u8; 100];
    let invalid_frame = Frame::new(1920, 1080, invalid_data, 1);
    assert!(!invalid_frame.is_valid());
}

#[test]
fn types_test_capture_config_validation() {
    let config = CaptureConfig::new(30, 80);
    assert!(config.validate().is_ok());

    let invalid_config = CaptureConfig {
        fps: 0,
        quality: 150,
        display_id: None,
        format: FrameFormat::Jpeg,
    };
    assert!(invalid_config.validate().is_err());
}

#[test]
fn capture_test_capture_config_validation() {
    let valid_config = CaptureConfig::new(30, 80);
    assert!(valid_config.validate().is_ok());
}

#[test]
fn test_frame_interval() {
    let config = CaptureConfig::new(30, 80);
    assert_eq!(config.frame_interval(), Duration::from_millis(33));

    let config = CaptureConfig::new(60, 80);
    assert_eq!(config.frame_interval(), Duration::from_millis(16));
}

#[test]
fn test_raw_encoding() {
    let frame = create_test_frame();
    let encoder = FrameEncoder::raw();

    let encoded = encoder.encode(&frame).unwrap();
    assert_eq!(encoded.format, FrameFormat::Raw);
    assert_eq!(encoded.data.len(), frame.data.len());

    let decoded = FrameEncoder::decode(&encoded).unwrap();
    assert_eq!(decoded.data, frame.data);
}

#[test]
fn test_jpeg_encoding() {
    let frame = create_test_frame();
    let encoder = FrameEncoder::jpeg(80);

    let encoded = encoder.encode(&frame).unwrap();
    assert_eq!(encoded.format, FrameFormat::Jpeg);
    assert!(encoded.data.len() < frame.data.len());

    let decoded = FrameEncoder::decode(&encoded).unwrap();
    assert_eq!(decoded.width, frame.width);
    assert_eq!(decoded.height, frame.height);
    assert_eq!(decoded.data.len(), (frame.width * frame.height * 4) as usize);
}

#[test]
fn test_png_encoding() {
    let frame = create_test_frame();
    let encoder = FrameEncoder::png();

    let encoded = encoder.encode(&frame).unwrap();
    assert_eq!(encoded.format, FrameFormat::Png);

    let decoded = FrameEncoder::decode(&encoded).unwrap();
    assert_eq!(decoded.width, frame.width);
    assert_eq!(decoded.height, frame.height);
    // PNG is lossless: the pixels come back bit-exactly
    assert_eq!(decoded.data, frame.data);
}

#[test]
fn test_zstd_compression() {
    let data = vec![1u8; 1000];
    let compressed = compress_zstd(&data, 3).unwrap();
    assert!(compressed.len() < data.len());

    let decompressed = decompress_zstd(&compressed).unwrap();
    assert_eq!(decompressed, data);
}

#[test]
fn test_quality_clamping() {
    let mut encoder = FrameEncoder::jpeg(150);
    assert_eq!(encoder.quality(), 100);

    encoder.set_quality(0);
    assert_eq!(encoder.quality(), 1);
}

fn raw_encoded(sequence: u64) -> remote_desk::desktop::types::EncodedFrame {
    remote_desk::desktop::types::EncodedFrame {
        width: 100,
        height: 100,
        data: vec![128u8; 100 * 100 * 4],
        sequence,
        format: FrameFormat::Raw,
        original_size: 100 * 100 * 4,
    }
}

#[test]
fn test_decode_raw() {
    let mut decoder = FrameDecoder::new();
    let encoded = raw_encoded(1);

    let frame = decoder.decode(&encoded).unwrap();
    assert_eq!(frame.width, 100);
    assert_eq!(frame.height, 100);
    assert_eq!(frame.data.len(), 100 * 100 * 4);
}

#[test]
fn test_decode_jpeg() {
    let frame = create_test_frame();
    let encoded = FrameEncoder::jpeg(80).encode(&frame).unwrap();
    let mut decoder = FrameDecoder::new();

    let decoded = decoder.decode(&encoded).unwrap();
    assert_eq!(decoded.width, 100);
    assert_eq!(decoded.height, 100);
}

#[test]
fn test_decode_png() {
    let frame = create_test_frame();
    let encoded = FrameEncoder::png().encode(&frame).unwrap();
    let mut decoder = FrameDecoder::new();

    let decoded = decoder.decode(&encoded).unwrap();
    assert_eq!(decoded.width, 100);
    assert_eq!(decoded.height, 100);
}

#[test]
fn test_decode_transport_frame() {
    let frame = create_test_frame();
    let encoded = FrameEncoder::jpeg(80).encode(&frame).unwrap();
    let mut decoder = FrameDecoder::new();

    let transport = TransportFrame::new(
        encoded.sequence,
        encoded.width,
        encoded.height,
        encoded.format,
        encoded.data.clone(),
        encoded.original_size,
        0,
    );

    let decoded = decoder.decode_transport(&transport).unwrap();
    assert_eq!(decoded.width, 100);
    assert_eq!(decoded.height, 100);
}

#[test]
fn test_stats_tracking() {
    let mut decoder = FrameDecoder::new();

    for i in 1..=5 {
        decoder.decode(&raw_encoded(i)).unwrap();
    }

    let stats = decoder.stats();
    assert_eq!(stats.frames_decoded, 5);
    assert_eq!(stats.frames_dropped, 0);
    assert_eq!(stats.last_sequence, 5);
    let total = stats.frames_decoded + stats.frames_dropped;
    assert!((stats.frames_decoded as f64 / total as f64) * 100.0 > 99.0);
}

#[test]
fn test_out_of_order_detection() {
    let mut decoder = FrameDecoder::new();

    for i in [1, 2, 3, 5] {
        decoder.decode(&raw_encoded(i)).unwrap();
    }

    let stats = decoder.stats();
    assert_eq!(stats.out_of_order_frames, 1);
}

#[test]
fn test_sequence_accounting_on_permutation() {
    // observing 2, 1, 3: every arrival misses the standing expectation
    // (1, then 3 after seeing 2, then 2 after seeing 1)
    let mut decoder = FrameDecoder::new();
    for i in [2u64, 1, 3] {
        decoder.decode(&raw_encoded(i)).unwrap();
    }
    let stats = decoder.stats();
    assert_eq!(stats.out_of_order_frames, 3);
    assert_eq!(stats.last_sequence, 3);
}

#[test]
fn test_last_frame() {
    let mut decoder = FrameDecoder::new();
    assert!(decoder.last_frame().is_none());

    decoder.decode(&raw_encoded(1)).unwrap();

    let last = decoder.last_frame().unwrap();
    assert_eq!(last.width, 100);
}

#[test]
fn test_reset_stats() {
    let mut decoder = FrameDecoder::new();

    decoder.decode(&raw_encoded(1)).unwrap();

    let stats = decoder.stats();
    assert_eq!(stats.frames_decoded, 1);

    decoder.reset_stats();

    let stats = decoder.stats();
    assert_eq!(stats.frames_decoded, 0);
}

#[test]
fn test_decode_failure_counts_drop() {
    let mut decoder = FrameDecoder::new();
    let bad = remote_desk::desktop::types::EncodedFrame {
        width: 10,
        height: 10,
        data: vec![1, 2, 3],
        sequence: 1,
        format: FrameFormat::Jpeg,
        original_size: 400,
    };
    assert!(decoder.decode(&bad).is_err());
    let stats = decoder.stats();
    assert_eq!(stats.frames_dropped, 1);
    assert_eq!(stats.frames_decoded, 0);
}

#[test]
fn test_loopback_gradient_roundtrip() {
    // a 100 by 100 gradient, encoded as JPEG at quality 80, sent through
    // the loopback frames channel, received and decoded
    let mut data = Vec::new();
    for y in 0..100u32 {
        for x in 0..100u32 {
            data.push((x * 255 / 100) as u8);
            data.push((y * 255 / 100) as u8);
            data.push(128);
            data.push(255);
        }
    }
    let frame = Frame::new(100, 100, data, 1);
    let encoded = FrameEncoder::jpeg(80).encode(&frame).unwrap();

    let mut link = remote_desk::transport::create_loopback_transport();
    link.host_to_client_frames.push(TransportFrame::new(
        1,
        encoded.width,
        encoded.height,
        encoded.format,
        encoded.data,
        encoded.original_size,
        0,
    ));
    let received = link.host_to_client_frames.pop().unwrap();
    assert_eq!(received.sequence, 1);
    assert_eq!(received.format, FrameFormat::Jpeg);

    let mut decoder = FrameDecoder::new();
    let decoded = decoder.decode_transport(&received).unwrap();
    assert_eq!(decoded.width, 100);
    assert_eq!(decoded.height, 100);
}
