//! Tests of the session transport queues, the loopback wiring, session
//! configuration and the capture loop policy.

use remote_desk::desktop::types::FrameFormat;
use remote_desk::input::types::{InputEvent, Key, KeyboardEvent, MouseButton, MouseEvent};
use remote_desk::security::DeviceId;
use remote_desk::session::{ClientSessionConfig, InputSequencer};
use remote_desk::session::{
    CaptureLoopState, HostSessionConfig, HostSessionStats, SessionConfig, SessionMode,
    residual_delay_ms,
};
use remote_desk::transport::{
    create_loopback_transport, ControlMessage, FrameQueue, TransportFrame, TransportInput,
    TransportStats,
};
use remote_desk::desktop::types::bgra_to_rgba;
use remote_desk::ui::{translate_mouse_position, MouseMoveCoalescer};

fn frame(sequence: u64) -> TransportFrame {
    TransportFrame::new(sequence, 1920, 1080, FrameFormat::Jpeg, vec![0u8; 10], 8294400, 0)
}

#[test]
fn transport_test_transport_stats() {
    let mut stats = TransportStats::default();
    stats.started_at = Some(0);
    stats.bytes_sent = 1000;
    stats.bytes_received = 500;
    stats.update_latency(20);

    assert_eq!(stats.latency_ms, Some(10));
}

#[test]
fn test_loopback_frame_channel() {
    let mut link = create_loopback_transport();

    link.host_to_client_frames.push(TransportFrame::new(
        1,
        1920,
        1080,
        FrameFormat::Jpeg,
        vec![0u8; 1000],
        8294400,
        0,
    ));

    let received = link.host_to_client_frames.pop().unwrap();
    assert_eq!(received.sequence, 1);
    assert_eq!(received.width, 1920);
    assert_eq!(received.height, 1080);
}

#[test]
fn test_loopback_input_channel() {
    let mut link = create_loopback_transport();

    let input = TransportInput::new(
        InputEvent::Keyboard(KeyboardEvent::key_press(Key::A)),
        1,
    );

    link.client_to_host_input.try_send(input).unwrap();

    let received = link.client_to_host_input.recv().unwrap();
    assert_eq!(received.sequence, 1);
}

#[test]
fn test_loopback_control_channel() {
    let mut link = create_loopback_transport();

    link.client_to_host_control
        .try_send(ControlMessage::Start)
        .unwrap();

    let received = link.client_to_host_control.recv().unwrap();
    assert!(matches!(received, ControlMessage::Start));
}

#[test]
fn test_input_sequence_preserved() {
    // key press, key release, pointer move, left press, left release,
    // wheel: six events arrive in order with their sequence numbers
    let mut link = create_loopback_transport();
    let events = vec![
        InputEvent::Keyboard(KeyboardEvent::key_press(Key::A)),
        InputEvent::Keyboard(KeyboardEvent::key_release(Key::A)),
        InputEvent::Mouse(MouseEvent::move_to(100, 200)),
        InputEvent::Mouse(MouseEvent::button_press(MouseButton::Left)),
        InputEvent::Mouse(MouseEvent::button_release(MouseButton::Left)),
        InputEvent::Mouse(MouseEvent::wheel(0, -10)),
    ];
    for (i, e) in events.iter().enumerate() {
        link.client_to_host_input
            .try_send(TransportInput::new(e.clone(), (i + 1) as u64))
            .unwrap();
    }
    let mut got = Vec::new();
    while let Some(x) = link.client_to_host_input.recv() {
        got.push(x.sequence);
    }
    assert_eq!(got, vec![1, 2, 3, 4, 5, 6]);
}

#[test]
fn test_frame_queue_lossy_bound() {
    // ten frames against a queue of depth four: the depth never exceeds
    // four, the oldest leave first, and at least six are dropped
    let mut q = FrameQueue::new(4);
    for i in 1..=10u64 {
        q.push(frame(i));
        assert!(q.len() <= 4);
    }
    assert_eq!(q.dropped_count(), 6);

    let mut received = Vec::new();
    while let Some(f) = q.pop() {
        received.push(f.sequence);
    }
    assert_eq!(received, vec![7, 8, 9, 10]);
    assert!(received.windows(2).all(|w| w[0] < w[1]));
}

#[test]
fn test_bounded_channel_refuses_when_full() {
    let mut link = create_loopback_transport();
    for i in 0..32u64 {
        assert!(link
            .client_to_host_input
            .try_send(TransportInput::new(
                InputEvent::Mouse(MouseEvent::move_to(0, 0)),
                i
            ))
            .is_ok());
    }
    // the lossless queue hands a rejected item back instead of dropping
    let extra = TransportInput::new(InputEvent::Mouse(MouseEvent::move_to(1, 1)), 99);
    let rejected = link.client_to_host_input.try_send(extra).unwrap_err();
    assert_eq!(rejected.sequence, 99);
    assert_eq!(link.client_to_host_input.len(), 32);
}

#[test]
fn test_session_config_creation() {
    let local_id = DeviceId::from_u32(123456789).unwrap();
    let remote_id = DeviceId::from_u32(987654321).unwrap();

    let host_config = SessionConfig::host(
        local_id,
        remote_id,
        remote_desk::desktop::types::CaptureConfig::new(30, 80)
            .with_format(FrameFormat::Jpeg),
    );
    assert_eq!(host_config.mode, SessionMode::Host);

    let client_config = SessionConfig::client(local_id, remote_id);
    assert_eq!(client_config.mode, SessionMode::Client);
}

#[test]
fn test_host_session_config() {
    let config = HostSessionConfig::new(30, 80).with_input(false);
    assert!(!config.allow_input);
    assert_eq!(config.capture.fps, 30);
    assert_eq!(config.capture.quality, 80);

    let config = HostSessionConfig::new(200, 200);
    assert_eq!(config.capture.fps, 60);
    assert_eq!(config.capture.quality, 100);

    let config = HostSessionConfig::new(30, 80).with_session_id("fixed".to_string());
    assert_eq!(config.session_id, "fixed");
}

#[test]
fn test_capture_loop_policy() {
    let mut policy = CaptureLoopState::new();
    for _ in 0..9 {
        assert!(!policy.record_failure());
    }
    assert!(policy.record_failure());

    let mut policy = CaptureLoopState::new();
    for _ in 0..9 {
        assert!(!policy.record_failure());
    }
    policy.record_success();
    assert_eq!(policy.consecutive_failures, 0);
}

#[test]
fn test_host_stats_ema() {
    let mut stats = HostSessionStats::default();
    stats.record_frame_sent(1000, 20);
    assert_eq!(stats.avg_encode_time_ms, 20);
    stats.record_frame_sent(1000, 40);
    // nine parts history, one part new observation
    assert_eq!(stats.avg_encode_time_ms, (20 * 9 + 40) / 10);
    assert_eq!(stats.frames_sent, 2);
    assert_eq!(stats.bytes_sent, 2000);
    stats.record_frame_dropped();
    assert_eq!(stats.frames_dropped, 1);
}

#[test]
fn test_residual_pacing() {
    assert_eq!(residual_delay_ms(33, 10), 23);
    assert_eq!(residual_delay_ms(33, 33), 0);
    assert_eq!(residual_delay_ms(33, 50), 0);
}

#[test]
fn test_mouse_translation_and_coalescing() {
    // image rectangle at (10, 20) sized 200 by 100, remote screen 1920 by 1080
    let p = translate_mouse_position(110, 70, 10, 20, 200, 100, 1920, 1080).unwrap();
    assert_eq!(p, (100 * 1920 / 200, 50 * 1080 / 100));

    assert!(translate_mouse_position(5, 70, 10, 20, 200, 100, 1920, 1080).is_none());
    assert!(translate_mouse_position(210, 70, 10, 20, 200, 100, 1920, 1080).is_none());

    let mut co = MouseMoveCoalescer::new();
    assert!(co.should_emit((3, 4)));
    assert!(!co.should_emit((3, 4)));
    assert!(co.should_emit((3, 5)));
}

#[test]
fn test_client_session_config() {
    let config = ClientSessionConfig::new().with_input(false);
    assert!(!config.send_input);
    assert_eq!(config.frame_buffer_size, 4);

    let config = ClientSessionConfig::new().with_session_id("fixed".to_string());
    assert_eq!(config.session_id, "fixed");
}

#[test]
fn test_input_sequencer_numbers_monotonically() {
    let mut seq = InputSequencer::new(true);
    for expected in 0..4u64 {
        let t = seq
            .next(InputEvent::Mouse(MouseEvent::move_to(1, 2)))
            .unwrap();
        assert_eq!(t.sequence, expected);
        assert!(t.source_coords.is_none());
    }

    let mut off = InputSequencer::new(false);
    assert!(off
        .next(InputEvent::Mouse(MouseEvent::move_to(1, 2)))
        .is_err());
    assert_eq!(off.next_sequence, 0);
}

#[test]
fn test_bgra_to_rgba_swizzle() {
    // two BGRA pixels: (B,G,R,A) = (1,2,3,4) and (5,6,7,8)
    let bgra = vec![1u8, 2, 3, 4, 5, 6, 7, 8];
    let rgba = bgra_to_rgba(&bgra);
    assert_eq!(rgba, vec![3, 2, 1, 4, 7, 6, 5, 8]);
}
