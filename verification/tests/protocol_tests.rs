//! Tests of the protocol messages, the wire codec and the framing layer.

use remote_desk::manager::{check_outbound, handle_connect_response};
use remote_desk::listener::{evaluate_connection_request, AdmissionDecision};
use remote_desk::protocol::{
    Capability, ConnectionAccept, ConnectionReject, ConnectionRequest, DesktopInfo, Disconnect,
    DisconnectReason, ErrorCode, ErrorMessage, Heartbeat, Message, MessagePayload, MessageType,
    MouseEventData, MouseEventTypeData, RejectReason, CURRENT_PROTOCOL_VERSION,
    MAX_MESSAGE_SIZE_BYTES,
};
use remote_desk::security::DeviceId;
use remote_desk::stream::{recv_from_buffer, send_into_buffer, StreamError};
use remote_desk::error::NetworkError;

#[test]
fn test_message_serialization() {
    let request = ConnectionRequest::new(
        DeviceId::from_u32(123456789).unwrap(),
        "Test Client".to_string(),
        DeviceId::from_u32(987654321).unwrap(),
        None,
    );

    let message = Message::new(
        MessageType::ConnectionRequest,
        MessagePayload::ConnectionRequest(request.clone()),
    );

    let bytes = message.to_bytes().unwrap();
    let deserialized = Message::from_bytes(&bytes).unwrap();

    assert_eq!(message.message_type, deserialized.message_type);
}

#[test]
fn test_message_size_validation() {
    assert!(Message::validate_size(1024));
    assert!(Message::validate_size(MAX_MESSAGE_SIZE_BYTES));
    assert!(!Message::validate_size(MAX_MESSAGE_SIZE_BYTES + 1));
}

#[test]
fn test_connection_request_creation() {
    let client_id = DeviceId::from_u32(123456789).unwrap();
    let host_id = DeviceId::from_u32(987654321).unwrap();

    let request = ConnectionRequest::new(client_id, "Test".to_string(), host_id, None);

    assert_eq!(request.protocol_version, CURRENT_PROTOCOL_VERSION);
    assert_eq!(request.client_id, 123456789);
    assert_eq!(request.host_id, 987654321);
}

fn round_trip(message: Message) -> Message {
    let bytes = message.to_bytes().unwrap();
    Message::from_bytes(&bytes).unwrap()
}

#[test]
fn test_codec_round_trip_request() {
    let request = ConnectionRequest::new(
        DeviceId::from_u32(987654321).unwrap(),
        "Client".to_string(),
        DeviceId::from_u32(123456789).unwrap(),
        Some([7u8; 32]),
    );
    let back = round_trip(Message::new(
        MessageType::ConnectionRequest,
        MessagePayload::ConnectionRequest(request),
    ));
    match back.payload {
        MessagePayload::ConnectionRequest(r) => {
            assert_eq!(r.protocol_version, 1);
            assert_eq!(r.client_id, 987654321);
            assert_eq!(r.client_name, "Client");
            assert_eq!(r.host_id, 123456789);
            assert_eq!(r.password_hash, Some([7u8; 32]));
            assert_eq!(
                r.requested_capabilities,
                vec![Capability::RemoteControl, Capability::ClipboardSync]
            );
        }
        _ => panic!("wrong payload"),
    }
}

#[test]
fn test_codec_round_trip_accept() {
    let accept = ConnectionAccept::new("Test Host".to_string(), DesktopInfo::current());
    let session_id = accept.session_id;
    let back = round_trip(Message::new(
        MessageType::ConnectionAccept,
        MessagePayload::ConnectionAccept(accept),
    ));
    match back.payload {
        MessagePayload::ConnectionAccept(a) => {
            assert_eq!(a.session_id, session_id);
            assert_eq!(a.host_name, "Test Host");
            assert_eq!(a.desktop_info.screen_width, 1920);
            assert_eq!(a.desktop_info.screen_height, 1080);
            assert_eq!(a.desktop_info.screen_count, 1);
        }
        _ => panic!("wrong payload"),
    }
}

#[test]
fn test_codec_round_trip_other_payloads() {
    let cases = vec![
        (
            MessageType::ConnectionReject,
            MessagePayload::ConnectionReject(ConnectionReject::new(
                RejectReason::UnsupportedVersion,
                Some("Expected protocol version 1, got 0".to_string()),
            )),
        ),
        (
            MessageType::Disconnect,
            MessagePayload::Disconnect(Disconnect::new(DisconnectReason::UserInitiated)),
        ),
        (
            MessageType::Heartbeat,
            MessagePayload::Heartbeat(Heartbeat { timestamp: 123_456_789_000 }),
        ),
        (
            MessageType::Error,
            MessagePayload::Error(ErrorMessage::new(
                ErrorCode::ProtocolViolation,
                "bad frame".to_string(),
            )),
        ),
        (
            MessageType::MouseEvent,
            MessagePayload::MouseEvent(MouseEventData::move_to(-5, 42)),
        ),
        (
            MessageType::MouseEvent,
            MessagePayload::MouseEvent(MouseEventData::wheel(0, -10)),
        ),
    ];
    for (ty, payload) in cases {
        let back = round_trip(Message::new(ty, payload.clone()));
        assert_eq!(back.message_type, ty);
        match (&back.payload, &payload) {
            (MessagePayload::ConnectionReject(a), MessagePayload::ConnectionReject(b)) => {
                assert_eq!(a.reason, b.reason);
                assert_eq!(a.message, b.message);
            }
            (MessagePayload::Disconnect(a), MessagePayload::Disconnect(b)) => {
                assert_eq!(a.reason, b.reason);
            }
            (MessagePayload::Heartbeat(a), MessagePayload::Heartbeat(b)) => {
                assert_eq!(a.timestamp, b.timestamp);
            }
            (MessagePayload::Error(a), MessagePayload::Error(b)) => {
                assert_eq!(a.error_code, b.error_code);
                assert_eq!(a.message, b.message);
            }
            (MessagePayload::MouseEvent(a), MessagePayload::MouseEvent(b)) => {
                assert_eq!(a.event_type, b.event_type);
                assert_eq!(a.timestamp, b.timestamp);
            }
            _ => panic!("payload kind changed in round trip"),
        }
    }
}

#[test]
fn test_from_bytes_rejects_garbage() {
    assert!(Message::from_bytes(&[]).is_err());
    assert!(Message::from_bytes(&[1, 2, 3]).is_err());
    // a valid message with a trailing byte is not one whole message
    let m = Message::new(
        MessageType::Heartbeat,
        MessagePayload::Heartbeat(Heartbeat { timestamp: 5 }),
    );
    let mut bytes = m.to_bytes().unwrap();
    bytes.push(0);
    assert!(Message::from_bytes(&bytes).is_err());
}

#[test]
fn test_framing_round_trip() {
    let m = Message::new(
        MessageType::Heartbeat,
        MessagePayload::Heartbeat(Heartbeat { timestamp: 42 }),
    );
    let mut pipe: Vec<u8> = Vec::new();
    let written = send_into_buffer(&m, &mut pipe).unwrap();
    assert_eq!(written, pipe.len());
    let (back, consumed) = recv_from_buffer(&pipe, 0).unwrap();
    assert_eq!(consumed, pipe.len());
    assert_eq!(back.message_id, m.message_id);
    match back.payload {
        MessagePayload::Heartbeat(h) => assert_eq!(h.timestamp, 42),
        _ => panic!("wrong payload"),
    }
}

#[test]
fn test_framing_two_messages_in_order() {
    let m1 = Message::new(
        MessageType::Heartbeat,
        MessagePayload::Heartbeat(Heartbeat { timestamp: 1 }),
    );
    let m2 = Message::new(
        MessageType::Disconnect,
        MessagePayload::Disconnect(Disconnect::new(DisconnectReason::SessionTimeout)),
    );
    let mut pipe: Vec<u8> = Vec::new();
    send_into_buffer(&m1, &mut pipe).unwrap();
    send_into_buffer(&m2, &mut pipe).unwrap();
    let (b1, p1) = recv_from_buffer(&pipe, 0).unwrap();
    let (b2, p2) = recv_from_buffer(&pipe, p1).unwrap();
    assert_eq!(p2, pipe.len());
    assert!(matches!(b1.payload, MessagePayload::Heartbeat(_)));
    assert!(matches!(b2.payload, MessagePayload::Disconnect(_)));
    assert!(matches!(
        recv_from_buffer(&pipe, p2),
        Err(StreamError::StreamClosed)
    ));
}

#[test]
fn test_framing_rejects_oversized_header() {
    // a length prefix over the cap is refused before the payload is read
    let data = [0xFFu8, 0xFF, 0xFF, 0xFF, 0, 0];
    assert!(matches!(
        recv_from_buffer(&data, 0),
        Err(StreamError::MessageTooLarge { .. })
    ));
}

#[test]
fn test_admission_accepts_valid_request() {
    let local = DeviceId::from_u32(123456789).unwrap();
    let req = ConnectionRequest::new(
        DeviceId::from_u32(987654321).unwrap(),
        "Client".to_string(),
        local,
        None,
    );
    assert!(matches!(
        evaluate_connection_request(&req, &local, false),
        AdmissionDecision::Enqueue
    ));
}

#[test]
fn test_admission_rejects_version_mismatch() {
    let local = DeviceId::from_u32(123456789).unwrap();
    let mut req = ConnectionRequest::new(
        DeviceId::from_u32(987654321).unwrap(),
        "Client".to_string(),
        local,
        None,
    );
    req.protocol_version = 0;
    match evaluate_connection_request(&req, &local, false) {
        AdmissionDecision::Refuse(RejectReason::UnsupportedVersion, Some(m)) => {
            assert_eq!(m, "Expected protocol version 1, got 0");
        }
        _ => panic!("expected UnsupportedVersion"),
    }
}

#[test]
fn test_admission_rejects_wrong_host_and_missing_password() {
    let local = DeviceId::from_u32(123456789).unwrap();
    let other = DeviceId::from_u32(222222222).unwrap();
    let req = ConnectionRequest::new(
        DeviceId::from_u32(987654321).unwrap(),
        "Client".to_string(),
        other,
        None,
    );
    assert!(matches!(
        evaluate_connection_request(&req, &local, false),
        AdmissionDecision::Refuse(RejectReason::InvalidId, _)
    ));

    let req2 = ConnectionRequest::new(
        DeviceId::from_u32(987654321).unwrap(),
        "Client".to_string(),
        local,
        None,
    );
    assert!(matches!(
        evaluate_connection_request(&req2, &local, true),
        AdmissionDecision::Refuse(RejectReason::InvalidPassword, _)
    ));
}

#[test]
fn test_outbound_admission() {
    let remote = DeviceId::from_u32(555555555).unwrap();
    assert!(check_outbound(&vec![], 5, &remote).is_ok());
    assert!(check_outbound(&vec![555555555], 5, &remote).is_err());
    assert!(check_outbound(&vec![111111111], 1, &remote).is_err());
}

#[test]
fn test_connect_response_handling() {
    let accept = ConnectionAccept::new("Test Host".to_string(), DesktopInfo::current());
    let sid = accept.session_id;
    let msg = Message::new(
        MessageType::ConnectionAccept,
        MessagePayload::ConnectionAccept(accept),
    );
    let h = handle_connect_response(msg).unwrap();
    assert_eq!(h.session_id, sid);
    assert_eq!(h.host_name, "Test Host");

    let reject = Message::new(
        MessageType::ConnectionReject,
        MessagePayload::ConnectionReject(ConnectionReject::new(
            RejectReason::UnsupportedVersion,
            Some("Expected protocol version 1, got 0".to_string()),
        )),
    );
    match handle_connect_response(reject) {
        Err(NetworkError::ConnectionRejected(m)) => {
            assert!(m.contains("UnsupportedVersion"));
        }
        _ => panic!("expected ConnectionRejected"),
    }
}

#[test]
fn test_send_into_buffer_rejects_oversized_message() {
    let frame = remote_desk::protocol::ScreenFrameData::new(
        1,
        10,
        10,
        remote_desk::protocol::FrameFormat::Raw,
        vec![0u8; MAX_MESSAGE_SIZE_BYTES + 1],
    );
    let m = Message::new(MessageType::ScreenFrame, MessagePayload::ScreenFrame(frame));
    let mut pipe: Vec<u8> = Vec::new();
    match send_into_buffer(&m, &mut pipe) {
        Err(StreamError::MessageTooLarge { size, max }) => {
            assert!(size > max);
            assert_eq!(max, MAX_MESSAGE_SIZE_BYTES);
        }
        _ => panic!("expected MessageTooLarge"),
    }
    assert!(pipe.is_empty());
}

#[test]
fn test_reject_error_names_reason_without_message() {
    let reject = Message::new(
        MessageType::ConnectionReject,
        MessagePayload::ConnectionReject(ConnectionReject::new(RejectReason::UserDenied, None)),
    );
    match handle_connect_response(reject) {
        Err(NetworkError::ConnectionRejected(m)) => assert_eq!(m, "UserDenied"),
        _ => panic!("expected ConnectionRejected"),
    }
}

#[test]
fn test_framing_rejects_cut_short_frame() {
    // a four-byte header announcing more payload than follows
    let data = [0u8, 0, 0, 10, 1, 2, 3];
    assert!(matches!(
        recv_from_buffer(&data, 0),
        Err(StreamError::ReadError(_))
    ));
    // a prefix cut short before four bytes
    let data = [0u8, 0];
    assert!(matches!(
        recv_from_buffer(&data, 0),
        Err(StreamError::ReadError(_))
    ));
}
