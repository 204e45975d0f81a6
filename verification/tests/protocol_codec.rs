use airslate_pc_server::protocol::codec::{decode_header, decode_packet, encode_packet};
use airslate_pc_server::protocol::constants::{
    GESTURE_FRAME_SIZE, HANDSHAKE_ERROR_SIZE, HANDSHAKE_REQUEST_SIZE, HANDSHAKE_RESPONSE_SIZE,
    PROTOCOL_MAGIC, PROTOCOL_VERSION, SESSION_DISCONNECT_SIZE, STYLUS_FRAME_SIZE,
};
use airslate_pc_server::protocol::fixed_str::{decode_fixed_utf8, encode_fixed_utf8};
use airslate_pc_server::protocol::model::{
    DesktopUnit, GestureFrame, GestureState, GestureType, HandshakeError, HandshakeErrorCode,
    HandshakeRequest, HandshakeResponse, Packet, PacketType, SessionDisconnect, StylusEventType,
    StylusFlags, StylusFrame,
};
use airslate_pc_server::protocol::ProtocolError;

fn stylus(pressure: f32, flags: u8, event_type: StylusEventType) -> StylusFrame {
    StylusFrame {
        seq: 1,
        timestamp: 1,
        x: 1,
        y: 1,
        pressure_bits: pressure.to_bits(),
        tilt_x: 0,
        tilt_y: 0,
        event_type,
        flags: StylusFlags(flags),
        reserved_ext: 0,
    }
}

fn gesture(
    gesture_type: GestureType,
    state: GestureState,
    values: [f32; 4],
) -> GestureFrame {
    GestureFrame {
        gesture_type,
        state,
        seq: 1,
        timestamp: 1,
        val1_bits: values[0].to_bits(),
        val2_bits: values[1].to_bits(),
        val3_bits: values[2].to_bits(),
        val4_bits: values[3].to_bits(),
    }
}

#[test]
fn fixed_length_constants_match_spec() {
    assert_eq!(HANDSHAKE_REQUEST_SIZE, 72);
    assert_eq!(HANDSHAKE_RESPONSE_SIZE, 81);
    assert_eq!(HANDSHAKE_ERROR_SIZE, 108);
    assert_eq!(SESSION_DISCONNECT_SIZE, 72);
    assert_eq!(STYLUS_FRAME_SIZE, 36);
    assert_eq!(GESTURE_FRAME_SIZE, 36);
}

#[test]
fn handshake_request_round_trip_and_layout() {
    let packet = HandshakeRequest {
        client_id: "device-01".to_string(),
    };

    let encoded = packet.encode().unwrap();
    assert_eq!(encoded.len(), HANDSHAKE_REQUEST_SIZE);
    assert_eq!(
        u32::from_le_bytes(encoded[0..4].try_into().unwrap()),
        PROTOCOL_MAGIC
    );
    assert_eq!(encoded[4], PacketType::HandshakeRequest.code());
    assert_eq!(encoded[5], PROTOCOL_VERSION);
    assert_eq!(u16::from_le_bytes(encoded[6..8].try_into().unwrap()), 0);

    let decoded = HandshakeRequest::decode(&encoded).unwrap();
    assert_eq!(decoded, packet);
}

#[test]
fn handshake_response_round_trip_and_layout() {
    let packet = HandshakeResponse {
        session_id: "session-01".to_string(),
        desktop_width_px: 3840,
        desktop_height_px: 2160,
        desktop_unit: DesktopUnit::Pixel,
    };

    let encoded = packet.encode().unwrap();
    assert_eq!(encoded.len(), HANDSHAKE_RESPONSE_SIZE);
    assert_eq!(
        u32::from_le_bytes(encoded[72..76].try_into().unwrap()),
        3840
    );
    assert_eq!(
        u32::from_le_bytes(encoded[76..80].try_into().unwrap()),
        2160
    );
    assert_eq!(encoded[80], DesktopUnit::Pixel.code());

    let decoded = HandshakeResponse::decode(&encoded).unwrap();
    assert_eq!(decoded, packet);
}

#[test]
fn handshake_error_round_trip_and_layout() {
    let packet = HandshakeError {
        error_code: HandshakeErrorCode::AlreadyConnected,
        message: "busy".to_string(),
    };

    let encoded = packet.encode().unwrap();
    assert_eq!(encoded.len(), HANDSHAKE_ERROR_SIZE);
    assert_eq!(u16::from_le_bytes(encoded[8..10].try_into().unwrap()), 3);
    assert_eq!(u16::from_le_bytes(encoded[10..12].try_into().unwrap()), 0);

    let decoded = HandshakeError::decode(&encoded).unwrap();
    assert_eq!(decoded, packet);
}

#[test]
fn session_disconnect_round_trip_and_layout() {
    let packet = SessionDisconnect {
        session_id: "session-02".to_string(),
    };

    let encoded = packet.encode().unwrap();
    assert_eq!(encoded.len(), SESSION_DISCONNECT_SIZE);

    let decoded = SessionDisconnect::decode(&encoded).unwrap();
    assert_eq!(decoded, packet);
}

#[test]
fn stylus_frame_round_trip_and_layout() {
    let packet = StylusFrame {
        seq: 7,
        timestamp: 123456,
        x: 32000,
        y: 123,
        pressure_bits: 0.75_f32.to_bits(),
        tilt_x: -45,
        tilt_y: 60,
        event_type: StylusEventType::Move,
        flags: StylusFlags(0b0000_0011),
        reserved_ext: 0,
    };

    let encoded = packet.encode().unwrap();
    assert_eq!(encoded.len(), STYLUS_FRAME_SIZE);
    assert_eq!(u32::from_le_bytes(encoded[8..12].try_into().unwrap()), 7);
    assert_eq!(
        u64::from_le_bytes(encoded[12..20].try_into().unwrap()),
        123456
    );
    assert_eq!(
        u16::from_le_bytes(encoded[20..22].try_into().unwrap()),
        32000
    );
    assert_eq!(u16::from_le_bytes(encoded[22..24].try_into().unwrap()), 123);
    assert_eq!(
        f32::from_le_bytes(encoded[24..28].try_into().unwrap()),
        0.75
    );
    assert_eq!(encoded[30], StylusEventType::Move.code());

    let decoded = StylusFrame::decode(&encoded).unwrap();
    assert_eq!(decoded, packet);
}

#[test]
fn gesture_frame_round_trip_and_layout() {
    let packet = GestureFrame {
        gesture_type: GestureType::TwoPan,
        state: GestureState::Update,
        seq: 9,
        timestamp: 654321,
        val1_bits: 1.0_f32.to_bits(),
        val2_bits: 2.0_f32.to_bits(),
        val3_bits: 3.0_f32.to_bits(),
        val4_bits: 4.0_f32.to_bits(),
    };

    let encoded = packet.encode().unwrap();
    assert_eq!(encoded.len(), GESTURE_FRAME_SIZE);
    assert_eq!(
        u32::from_le_bytes(encoded[0..4].try_into().unwrap()),
        PROTOCOL_MAGIC
    );
    assert_eq!(encoded[4], PacketType::GestureFrame.code());
    assert_eq!(encoded[5], GestureType::TwoPan.code());
    assert_eq!(encoded[6], GestureState::Update.code());
    assert_eq!(encoded[7], 0);

    let decoded = GestureFrame::decode(&encoded).unwrap();
    assert_eq!(decoded, packet);
}

#[test]
fn decode_packet_dispatches_all_types() {
    let request = Packet::HandshakeRequest(HandshakeRequest {
        client_id: "device-01".to_string(),
    });
    let response = Packet::HandshakeResponse(HandshakeResponse {
        session_id: "session-01".to_string(),
        desktop_width_px: 1920,
        desktop_height_px: 1080,
        desktop_unit: DesktopUnit::Pixel,
    });
    let error = Packet::HandshakeError(HandshakeError {
        error_code: HandshakeErrorCode::InternalError,
        message: "internal".to_string(),
    });
    let disconnect = Packet::SessionDisconnect(SessionDisconnect {
        session_id: "session-01".to_string(),
    });
    let stylus = Packet::StylusFrame(StylusFrame {
        seq: 1,
        timestamp: 1,
        x: 0,
        y: 0,
        pressure_bits: 0.0_f32.to_bits(),
        tilt_x: 0,
        tilt_y: 0,
        event_type: StylusEventType::Cancel,
        flags: StylusFlags(0),
        reserved_ext: 0,
    });
    let gesture = Packet::GestureFrame(GestureFrame {
        gesture_type: GestureType::OneSwipe,
        state: GestureState::Begin,
        seq: 2,
        timestamp: 2,
        val1_bits: 1.0_f32.to_bits(),
        val2_bits: 0.0_f32.to_bits(),
        val3_bits: 0.0_f32.to_bits(),
        val4_bits: 0.0_f32.to_bits(),
    });

    for packet in [request, response, error, disconnect, stylus, gesture] {
        let encoded = encode_packet(&packet).unwrap();
        let decoded = decode_packet(&encoded).unwrap();
        assert_eq!(decoded, packet);
    }
}

#[test]
fn rejects_invalid_magic() {
    let mut bytes = HandshakeRequest {
        client_id: "device-01".to_string(),
    }
    .encode()
    .unwrap();
    bytes[0] = 0;

    let error = HandshakeRequest::decode(&bytes).unwrap_err();
    assert_eq!(
        error,
        ProtocolError::InvalidMagic {
            actual: 0x4153_4C00
        }
    );
}

#[test]
fn rejects_invalid_header_version() {
    let mut bytes = HandshakeRequest {
        client_id: "device-01".to_string(),
    }
    .encode()
    .unwrap();
    bytes[5] = 9;

    let error = HandshakeRequest::decode(&bytes).unwrap_err();
    assert_eq!(error, ProtocolError::UnsupportedProtocolVersion(9));
}

#[test]
fn rejects_invalid_packet_length() {
    let bytes = [0_u8; HANDSHAKE_REQUEST_SIZE - 1];
    let error = HandshakeRequest::decode(&bytes).unwrap_err();
    assert_eq!(
        error,
        ProtocolError::InvalidPacketLength {
            packet: "HandshakeRequest",
            expected: HANDSHAKE_REQUEST_SIZE,
            actual: HANDSHAKE_REQUEST_SIZE - 1,
        }
    );
}

#[test]
fn rejects_invalid_fixed_string_padding() {
    let mut bytes = HandshakeRequest {
        client_id: "abc".to_string(),
    }
    .encode()
    .unwrap();
    bytes[12] = b'x';

    let error = HandshakeRequest::decode(&bytes).unwrap_err();
    assert_eq!(error, ProtocolError::InvalidPadding { field: "clientId" });
}

#[test]
fn truncates_fixed_utf8_without_splitting_code_point() {
    let value = "你你你你你你你你你你你你你你你你你你你你你你你";
    let encoded = encode_fixed_utf8(value, 10);
    let decoded = decode_fixed_utf8("field", &encoded).unwrap();
    assert_eq!(decoded.as_bytes().len(), 9);
    assert_eq!(decoded, "你你你");
}

#[test]
fn rejects_stylus_pressure_out_of_range() {
    let packet = stylus(1.5, 0, StylusEventType::Move);

    let error = packet.encode().unwrap_err();
    assert_eq!(
        error,
        ProtocolError::OutOfRange {
            field: "pressure",
            details: "must be in [0.0, 1.0]",
        }
    );
}

#[test]
fn rejects_stylus_reserved_bits() {
    let packet = stylus(0.5, 0b1000_0000, StylusEventType::Move);

    let error = packet.encode().unwrap_err();
    assert_eq!(
        error,
        ProtocolError::SemanticViolation("stylus flags bit7 must be zero")
    );
}

#[test]
fn rejects_gesture_swipe_non_begin_state() {
    let packet = gesture(
        GestureType::OneSwipe,
        GestureState::Update,
        [0.0, 0.0, 0.0, 0.0],
    );

    let error = packet.encode().unwrap_err();
    assert_eq!(
        error,
        ProtocolError::SemanticViolation("swipe gesture only allows Begin state")
    );
}

#[test]
fn rejects_gesture_swipe_non_zero_tail_values() {
    let packet = gesture(
        GestureType::OneSwipe,
        GestureState::Begin,
        [1.0, 1.0, 0.0, 0.0],
    );

    let error = packet.encode().unwrap_err();
    assert_eq!(
        error,
        ProtocolError::SemanticViolation("swipe val2..val4 must be zero")
    );
}

#[test]
fn rejects_removed_swipe_gesture_types() {
    for gesture_type_raw in [10_u8, 11_u8] {
        let mut bytes = gesture(
            GestureType::OneSwipe,
            GestureState::Begin,
            [0.0, 0.0, 0.0, 0.0],
        )
        .encode()
        .unwrap();
        bytes[5] = gesture_type_raw;

        let error = GestureFrame::decode(&bytes).unwrap_err();
        assert_eq!(
            error,
            ProtocolError::UnknownEnumValue {
                field: "gestureType",
                value: gesture_type_raw as u32,
            }
        );
    }
}

#[test]
fn rejects_gesture_rotate_non_zero_tail_values() {
    let packet = gesture(
        GestureType::TwoRotate,
        GestureState::Update,
        [90.0, 1.0, 0.0, 0.0],
    );

    let error = packet.encode().unwrap_err();
    assert_eq!(
        error,
        ProtocolError::SemanticViolation("rotate val2..val4 must be zero")
    );
}

#[test]
fn rejects_gesture_pinch_non_zero_val4() {
    let packet = gesture(
        GestureType::TwoPinch,
        GestureState::Update,
        [1.2, 10.0, 11.0, 1.0],
    );

    let error = packet.encode().unwrap_err();
    assert_eq!(
        error,
        ProtocolError::SemanticViolation("pinch val4 must be zero")
    );
}

#[test]
fn header_of_a_short_datagram_is_too_short() {
    let error = decode_header(&[0x54, 0x4C]).unwrap_err();
    assert_eq!(
        error,
        ProtocolError::PacketTooShort {
            expected: 8,
            actual: 2
        }
    );
}

#[test]
fn header_reports_packet_type_and_version() {
    let bytes = SessionDisconnect {
        session_id: "s".to_string(),
    }
    .encode()
    .unwrap();
    let header = decode_header(&bytes).unwrap();
    assert_eq!(header.packet_type, PacketType::SessionDisconnect);
    assert_eq!(header.protocol_version, PROTOCOL_VERSION);
    assert_eq!(header.magic, PROTOCOL_MAGIC);
}

#[test]
fn unknown_packet_type_is_rejected() {
    let mut bytes = SessionDisconnect {
        session_id: "s".to_string(),
    }
    .encode()
    .unwrap();
    bytes[4] = 0xEE;
    assert_eq!(
        decode_packet(&bytes).unwrap_err(),
        ProtocolError::UnknownPacketType(0xEE)
    );
}

#[test]
fn stylus_flag_bits_read_individually() {
    let flags = StylusFlags(0b0111_1111);
    assert!(flags.in_range());
    assert!(flags.is_contact());
    assert!(flags.squeeze());
    assert!(flags.double_tap());
    assert!(flags.two_tap());
    assert!(flags.three_tap());
    assert!(flags.four_tap());
    assert!(!flags.has_reserved_bits());
    assert!(StylusFlags(0x80).has_reserved_bits());
    assert!(!StylusFlags(0).in_range());
}

#[test]
fn gesture_type_families() {
    assert!(GestureType::OneSwipe.is_swipe());
    assert!(GestureType::TwoRotate.is_rotate());
    assert!(GestureType::TwoPinch.is_pinch());
    assert!(!GestureType::TwoPan.is_swipe());
}

#[test]
fn empty_client_id_is_a_semantic_violation() {
    let packet = HandshakeRequest {
        client_id: String::new(),
    };
    assert_eq!(
        packet.validate().unwrap_err(),
        ProtocolError::SemanticViolation("clientId must not be empty")
    );
}

#[test]
fn fixed_field_keeps_the_longest_prefix_of_whole_characters() {
    let value = "h\u{e9}llo";
    assert_eq!(decode_fixed_utf8("field", &encode_fixed_utf8(value, 1)).unwrap(), "h");
    assert_eq!(decode_fixed_utf8("field", &encode_fixed_utf8(value, 2)).unwrap(), "h");
    assert_eq!(decode_fixed_utf8("field", &encode_fixed_utf8(value, 3)).unwrap(), "h\u{e9}");
    assert_eq!(decode_fixed_utf8("field", &encode_fixed_utf8(value, 6)).unwrap(), value);
    assert_eq!(decode_fixed_utf8("field", &encode_fixed_utf8(value, 9)).unwrap(), value);
    assert_eq!(decode_fixed_utf8("field", &encode_fixed_utf8(value, 0)).unwrap(), "");
}
