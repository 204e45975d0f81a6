use airslate_pc_server::error::AppError;
use airslate_pc_server::handshake::{build_handshake_response, handle_request_bytes};
use airslate_pc_server::ingest::{ingest_datagram, IncomingEvent};
use airslate_pc_server::protocol::codec::{decode_packet, encode_packet};
use airslate_pc_server::protocol::constants::{HANDSHAKE_REQUEST_SIZE, SESSION_ID_LEN};
use airslate_pc_server::protocol::model::{
    DesktopUnit, GestureFrame, GestureState, GestureType, HandshakeError, HandshakeErrorCode,
    HandshakeRequest, Packet, SessionDisconnect, StylusEventType, StylusFlags, StylusFrame,
};
use airslate_pc_server::session::{
    DisconnectDisposition, Ipv4Address, LocalDisconnectDisposition, RealtimeFrameDisposition,
    SessionId, SessionService,
};
use airslate_pc_server::workspace::{ActiveWorkspace, MonitorId, MonitorInfo};

fn test_ip(a: u8) -> Ipv4Address {
    Ipv4Address::new(192, 168, 0, a)
}

fn create_test_session(service: &mut SessionService, client_id: &str, ip_last: u8) -> String {
    service
        .create_session(client_id.to_string(), test_ip(ip_last))
        .expect("session should be created")
        .session_id()
        .as_str()
        .to_owned()
}

fn test_monitor() -> MonitorInfo {
    MonitorInfo {
        id: MonitorId::new("DISPLAY1".to_string()),
        device_name: "\\\\.\\DISPLAY1".to_string(),
        is_primary: true,
        pixel_width: 2560,
        pixel_height: 1600,
        virtual_left: 0,
        virtual_top: 0,
        virtual_right: 2560,
        virtual_bottom: 1600,
    }
}

fn test_workspace() -> Result<ActiveWorkspace, AppError> {
    Ok(ActiveWorkspace {
        monitor: test_monitor(),
    })
}

fn no_workspace() -> Result<ActiveWorkspace, AppError> {
    Err(AppError::Workspace("no active workspace".to_string()))
}

fn request_bytes() -> Vec<u8> {
    encode_packet(&Packet::HandshakeRequest(HandshakeRequest {
        client_id: "client-a".to_string(),
    }))
    .expect("request should encode")
}

fn decode_error_packet(response_bytes: Vec<u8>) -> HandshakeError {
    match decode_packet(&response_bytes).expect("response should decode") {
        Packet::HandshakeError(response) => response,
        other => panic!("expected handshake error, got {other:?}"),
    }
}

fn stylus_packet() -> Vec<u8> {
    encode_packet(&Packet::StylusFrame(StylusFrame {
        seq: 1,
        timestamp: 10,
        x: 100,
        y: 200,
        pressure_bits: 0.5_f32.to_bits(),
        tilt_x: 0,
        tilt_y: 0,
        event_type: StylusEventType::Move,
        flags: StylusFlags(0b0000_0001),
        reserved_ext: 0,
    }))
    .expect("stylus packet should encode")
}

fn gesture_packet() -> Vec<u8> {
    encode_packet(&Packet::GestureFrame(GestureFrame {
        gesture_type: GestureType::TwoPan,
        state: GestureState::Update,
        seq: 2,
        timestamp: 11,
        val1_bits: 1.0_f32.to_bits(),
        val2_bits: 2.0_f32.to_bits(),
        val3_bits: 3.0_f32.to_bits(),
        val4_bits: 4.0_f32.to_bits(),
    }))
    .expect("gesture packet should encode")
}

// Sessions.

#[test]
fn create_first_session_succeeds() {
    let mut service = SessionService::new();
    let session_id = create_test_session(&mut service, "client-a", 10);
    assert!(!session_id.is_empty());
    assert!(service.has_active_session());
}

#[test]
fn second_concurrent_session_is_rejected() {
    let mut service = SessionService::new();
    let first_session_id = create_test_session(&mut service, "client-a", 10);

    let error = service
        .create_session("client-b".to_string(), test_ip(10))
        .expect_err("second session should be rejected");

    assert!(matches!(error, AppError::SessionAlreadyActive));
    assert!(service.has_active_session());
    assert!(!first_session_id.is_empty());
}

#[test]
fn session_can_be_created_again_after_udp_release() {
    let mut service = SessionService::new();
    let first_session_id = create_test_session(&mut service, "client-a", 10);

    let disposition = service.handle_udp_disconnect(
        test_ip(10),
        &SessionDisconnect {
            session_id: first_session_id,
        },
    );
    assert!(matches!(
        disposition,
        DisconnectDisposition::Released { .. }
    ));

    let second_session_id = create_test_session(&mut service, "client-b", 10);
    assert!(!second_session_id.is_empty());
}

#[test]
fn generated_session_id_stays_within_protocol_limit() {
    let mut service = SessionService::new();
    let session_id = create_test_session(&mut service, "client-a", 10);
    assert!(!session_id.is_empty());
    assert!(session_id.len() <= SESSION_ID_LEN);
}

#[test]
fn realtime_frame_from_handshake_ip_is_accepted() {
    let mut service = SessionService::new();
    let session_id = create_test_session(&mut service, "client-a", 10);

    let disposition = service.accept_realtime_source(test_ip(10));

    assert_eq!(
        disposition,
        RealtimeFrameDisposition::Accepted {
            session_id: session_id.clone(),
        }
    );
    assert_eq!(
        service.accept_realtime_source(test_ip(10)),
        RealtimeFrameDisposition::Accepted { session_id }
    );
}

#[test]
fn realtime_frame_from_handshake_ip_is_accepted_repeatedly() {
    let mut service = SessionService::new();
    let session_id = create_test_session(&mut service, "client-a", 10);

    assert!(matches!(
        service.accept_realtime_source(test_ip(10)),
        RealtimeFrameDisposition::Accepted { .. }
    ));
    assert_eq!(
        service.accept_realtime_source(test_ip(10)),
        RealtimeFrameDisposition::Accepted { session_id }
    );
}

#[test]
fn realtime_frame_from_different_ip_is_ignored() {
    let mut service = SessionService::new();
    create_test_session(&mut service, "client-a", 10);

    assert!(matches!(
        service.accept_realtime_source(test_ip(10)),
        RealtimeFrameDisposition::Accepted { .. }
    ));
    assert_eq!(
        service.accept_realtime_source(test_ip(11)),
        RealtimeFrameDisposition::IgnoredSourceIpMismatch {
            bound_ip: test_ip(10),
        }
    );
}

#[test]
fn realtime_frame_without_active_session_is_ignored() {
    let mut service = SessionService::new();
    assert_eq!(
        service.accept_realtime_source(test_ip(10)),
        RealtimeFrameDisposition::IgnoredNoActiveSession
    );
}

#[test]
fn udp_disconnect_releases_matching_handshake_peer() {
    let mut service = SessionService::new();
    let session_id = create_test_session(&mut service, "client-a", 10);

    let disposition = service.handle_udp_disconnect(
        test_ip(10),
        &SessionDisconnect {
            session_id: session_id.clone(),
        },
    );

    assert_eq!(
        disposition,
        DisconnectDisposition::Released {
            session_id,
            peer_ip: test_ip(10),
        }
    );
    assert!(!service.has_active_session());
}

#[test]
fn udp_disconnect_releases_matching_handshake_peer_after_realtime() {
    let mut service = SessionService::new();
    let session_id = create_test_session(&mut service, "client-a", 10);
    let _ = service.accept_realtime_source(test_ip(10));

    let disposition = service.handle_udp_disconnect(
        test_ip(10),
        &SessionDisconnect {
            session_id: session_id.clone(),
        },
    );

    assert_eq!(
        disposition,
        DisconnectDisposition::Released {
            session_id,
            peer_ip: test_ip(10),
        }
    );
    assert!(!service.has_active_session());
}

#[test]
fn udp_disconnect_from_wrong_ip_is_ignored() {
    let mut service = SessionService::new();
    let session_id = create_test_session(&mut service, "client-a", 10);
    let _ = service.accept_realtime_source(test_ip(10));

    let disposition =
        service.handle_udp_disconnect(test_ip(11), &SessionDisconnect { session_id });

    assert_eq!(
        disposition,
        DisconnectDisposition::IgnoredSourceIpMismatch {
            bound_ip: test_ip(10),
        }
    );
    assert!(service.has_active_session());
}

#[test]
fn udp_disconnect_with_wrong_session_id_is_ignored() {
    let mut service = SessionService::new();
    create_test_session(&mut service, "client-a", 10);

    let disposition = service.handle_udp_disconnect(
        test_ip(10),
        &SessionDisconnect {
            session_id: "wrong-session-id".to_string(),
        },
    );

    assert_eq!(disposition, DisconnectDisposition::IgnoredSessionIdMismatch);
    assert!(service.has_active_session());
}

#[test]
fn udp_disconnect_without_session_is_ignored() {
    let mut service = SessionService::new();
    let disposition = service.handle_udp_disconnect(
        test_ip(10),
        &SessionDisconnect {
            session_id: "any".to_string(),
        },
    );
    assert_eq!(disposition, DisconnectDisposition::IgnoredNoActiveSession);
}

#[test]
fn session_id_rejects_empty_value() {
    let error = SessionId::new(String::new()).expect_err("empty session id should be rejected");
    assert!(matches!(
        error,
        AppError::InvalidSessionId("session id must not be empty")
    ));
}

#[test]
fn session_id_rejects_oversized_value() {
    let error = SessionId::new("a".repeat(SESSION_ID_LEN + 1))
        .expect_err("oversized session id should be rejected");
    assert!(matches!(
        error,
        AppError::InvalidSessionId("session id exceeds protocol limit")
    ));
}

#[test]
fn session_id_keeps_its_text() {
    let id = SessionId::new("abc".to_string()).expect("short ids are valid");
    assert_eq!(id.as_str(), "abc");
}

#[test]
fn generated_session_ids_are_simple_uuids_and_differ() {
    let a = SessionId::generate().expect("generated");
    let b = SessionId::generate().expect("generated");
    assert_eq!(a.as_str().len(), 32);
    assert!(a.as_str().chars().all(|c| c.is_ascii_hexdigit()));
    assert_ne!(a.as_str(), b.as_str());
}

#[test]
fn local_disconnect_ends_the_session_once() {
    let mut service = SessionService::new();
    let session_id = create_test_session(&mut service, "client-a", 10);
    assert_eq!(
        service.disconnect_locally(),
        LocalDisconnectDisposition::Released {
            session_id,
            peer_ip: test_ip(10),
        }
    );
    assert!(!service.has_active_session());
    assert_eq!(
        service.disconnect_locally(),
        LocalDisconnectDisposition::AlreadyInactive
    );
}

#[test]
fn active_session_remembers_client_and_peer() {
    let mut service = SessionService::new();
    create_test_session(&mut service, "client-a", 10);
    let active = service.active().expect("session is active");
    assert_eq!(active.client_id(), "client-a");
    assert_eq!(active.peer_ip(), test_ip(10));
    assert_eq!(test_ip(10).octets(), [192, 168, 0, 10]);
}

// Handshakes.

#[test]
fn valid_handshake_request_returns_handshake_response() {
    let mut session = SessionService::new();
    let response_bytes =
        handle_request_bytes(&request_bytes(), &test_workspace(), &mut session, test_ip(10))
            .expect("response should encode");

    let packet = decode_packet(&response_bytes).expect("response should decode");
    let Packet::HandshakeResponse(response) = packet else {
        panic!("expected handshake response");
    };

    assert!(!response.session_id.is_empty());
    assert_eq!(response.desktop_width_px, 2560);
    assert_eq!(response.desktop_height_px, 1600);
    assert_eq!(response.desktop_unit, DesktopUnit::Pixel);
    assert_eq!(
        session.active().expect("session opened").session_id().as_str(),
        response.session_id
    );
}

#[test]
fn unsupported_protocol_version_returns_handshake_error() {
    let mut session = SessionService::new();
    let mut bytes = request_bytes();
    bytes[5] = 2;

    let response = decode_error_packet(
        handle_request_bytes(&bytes, &test_workspace(), &mut session, test_ip(10))
            .expect("response should encode"),
    );

    assert_eq!(response.error_code, HandshakeErrorCode::UnsupportedProtocol);
    assert_eq!(response.message, "unsupported protocol version");
}

#[test]
fn invalid_request_length_returns_handshake_error() {
    let mut session = SessionService::new();
    let mut bytes = request_bytes();
    bytes.pop();

    let response = decode_error_packet(
        handle_request_bytes(&bytes, &test_workspace(), &mut session, test_ip(10))
            .expect("response should encode"),
    );

    assert_eq!(response.error_code, HandshakeErrorCode::InvalidRequest);
}

#[test]
fn invalid_packet_type_returns_handshake_error() {
    let mut session = SessionService::new();
    let bytes = encode_packet(&Packet::SessionDisconnect(SessionDisconnect {
        session_id: "session-a".to_string(),
    }))
    .expect("request should encode");

    let response = decode_error_packet(
        handle_request_bytes(&bytes, &test_workspace(), &mut session, test_ip(10))
            .expect("response should encode"),
    );

    assert_eq!(response.error_code, HandshakeErrorCode::InvalidRequest);
    assert_eq!(response.message, "expected handshake request");
}

#[test]
fn empty_client_id_returns_handshake_error() {
    let mut session = SessionService::new();
    let mut bytes = [0_u8; HANDSHAKE_REQUEST_SIZE];
    bytes[0..4].copy_from_slice(&0x4153_4C54_u32.to_le_bytes());
    bytes[4] = 1;
    bytes[5] = 1;

    let response = decode_error_packet(
        handle_request_bytes(&bytes, &test_workspace(), &mut session, test_ip(10))
            .expect("response should encode"),
    );

    assert_eq!(response.error_code, HandshakeErrorCode::InvalidRequest);
    assert!(!session.has_active_session());
}

#[test]
fn active_session_returns_already_connected_error() {
    let mut session = SessionService::new();
    let first = decode_packet(
        &handle_request_bytes(&request_bytes(), &test_workspace(), &mut session, test_ip(10))
            .expect("first response should encode"),
    )
    .expect("first response should decode");
    assert!(matches!(first, Packet::HandshakeResponse(_)));

    let response = decode_error_packet(
        handle_request_bytes(&request_bytes(), &test_workspace(), &mut session, test_ip(10))
            .expect("second response should encode"),
    );

    assert_eq!(response.error_code, HandshakeErrorCode::AlreadyConnected);
    assert_eq!(response.message, "session already active");
}

#[test]
fn missing_workspace_returns_no_active_workspace_error() {
    let mut session = SessionService::new();
    let response = decode_error_packet(
        handle_request_bytes(&request_bytes(), &no_workspace(), &mut session, test_ip(10))
            .expect("response should encode"),
    );

    assert_eq!(response.error_code, HandshakeErrorCode::NoActiveWorkspace);
    assert!(!session.has_active_session());
}

#[test]
fn handshake_binds_the_session_to_the_peer_address() {
    let mut session = SessionService::new();
    let response = build_handshake_response(
        &request_bytes(),
        &test_workspace(),
        &mut session,
        test_ip(42),
    )
    .expect("handshake accepted");
    assert_eq!(
        session.accept_realtime_source(test_ip(42)),
        RealtimeFrameDisposition::Accepted {
            session_id: response.session_id
        }
    );
}

// Datagrams.

#[test]
fn stylus_packet_emits_event_with_active_session() {
    let mut session = SessionService::new();
    let session_id = create_test_session(&mut session, "client-a", 10);

    let event = ingest_datagram(&mut session, test_ip(10), &stylus_packet());

    assert!(matches!(
        event,
        Some(IncomingEvent::Stylus {
            session_id: ref actual_session_id,
            source_ip,
            ..
        }) if actual_session_id == &session_id && source_ip == test_ip(10)
    ));
}

#[test]
fn gesture_packet_emits_event_with_active_session() {
    let mut session = SessionService::new();
    let session_id = create_test_session(&mut session, "client-a", 10);

    let event = ingest_datagram(&mut session, test_ip(10), &gesture_packet());

    assert!(matches!(
        event,
        Some(IncomingEvent::Gesture {
            session_id: ref actual_session_id,
            source_ip,
            ..
        }) if actual_session_id == &session_id && source_ip == test_ip(10)
    ));
}

#[test]
fn realtime_packet_without_active_session_is_ignored() {
    let mut session = SessionService::new();
    let event = ingest_datagram(&mut session, test_ip(10), &stylus_packet());
    assert_eq!(event, None);
}

#[test]
fn realtime_packet_from_different_ip_is_ignored_after_binding() {
    let mut session = SessionService::new();
    create_test_session(&mut session, "client-a", 10);

    let first_event = ingest_datagram(&mut session, test_ip(10), &stylus_packet());
    let second_event = ingest_datagram(&mut session, test_ip(11), &gesture_packet());

    assert!(first_event.is_some());
    assert_eq!(second_event, None);
}

#[test]
fn same_ip_different_port_is_accepted() {
    let mut session = SessionService::new();
    create_test_session(&mut session, "client-a", 10);

    let first_event = ingest_datagram(&mut session, test_ip(10), &stylus_packet());
    let second_event = ingest_datagram(&mut session, test_ip(10), &gesture_packet());

    assert!(first_event.is_some());
    assert!(second_event.is_some());
}

#[test]
fn valid_session_disconnect_releases_session() {
    let mut session = SessionService::new();
    let session_id = create_test_session(&mut session, "client-a", 10);

    let _ = ingest_datagram(&mut session, test_ip(10), &stylus_packet());
    let packet = encode_packet(&Packet::SessionDisconnect(SessionDisconnect {
        session_id: session_id.clone(),
    }))
    .expect("disconnect packet should encode");

    let event = ingest_datagram(&mut session, test_ip(10), &packet);

    assert_eq!(
        event,
        Some(IncomingEvent::SessionEnded {
            session_id,
            source_ip: test_ip(10),
        })
    );
    assert!(!session.has_active_session());
}

#[test]
fn wrong_session_disconnect_is_ignored() {
    let mut session = SessionService::new();
    create_test_session(&mut session, "client-a", 10);

    let packet = encode_packet(&Packet::SessionDisconnect(SessionDisconnect {
        session_id: "wrong-session-id".to_string(),
    }))
    .expect("disconnect packet should encode");

    let event = ingest_datagram(&mut session, test_ip(10), &packet);

    assert_eq!(event, None);
    assert!(session.has_active_session());
}

#[test]
fn invalid_udp_packet_is_ignored() {
    let mut session = SessionService::new();
    let event = ingest_datagram(&mut session, test_ip(10), &[1, 2, 3, 4]);
    assert_eq!(event, None);
}

#[test]
fn handshake_packet_over_udp_is_ignored() {
    let mut session = SessionService::new();
    create_test_session(&mut session, "client-a", 10);

    let event = ingest_datagram(&mut session, test_ip(10), &request_bytes());

    assert_eq!(event, None);
    assert!(session.has_active_session());
}
