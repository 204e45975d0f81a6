use vstd::prelude::*;

use crate::protocol::bytes::{
    f32_bits_finite, f32_bits_in_unit_interval, f32_bits_is_finite, f32_bits_is_one,
    f32_bits_is_zero, f32_bits_one, f32_bits_unit_interval, f32_bits_zero, le_u16, le_u32,
    le_u64, push_u16_le, push_u32_le, push_u64_le, read_u16_le, read_u32_le, read_u64_le,
    u16_le_bytes, u32_le_bytes, u64_le_bytes,
};
use crate::protocol::constants::{
    CLIENT_ID_LEN, ERROR_MESSAGE_LEN, GESTURE_FRAME_SIZE, HANDSHAKE_ERROR_SIZE,
    HANDSHAKE_REQUEST_SIZE, HANDSHAKE_RESPONSE_SIZE, PACKET_HEADER_SIZE, PROTOCOL_MAGIC,
    PROTOCOL_VERSION, SESSION_DISCONNECT_SIZE, SESSION_ID_LEN, STYLUS_FRAME_SIZE,
};
use crate::protocol::error::ProtocolError;
use crate::protocol::fixed_str::{
    decode_fixed_utf8, encode_fixed_utf8, spec_decode_fixed_utf8, spec_encode_fixed_utf8,
};
use crate::protocol::model::{
    DesktopUnit, GestureFrame, GestureState, GestureType, HandshakeError, HandshakeErrorCode,
    HandshakeErrorModel, HandshakeRequest, HandshakeRequestModel, HandshakeResponse,
    HandshakeResponseModel, Packet, PacketHeader, PacketModel, PacketType, SessionDisconnect,
    SessionDisconnectModel, StylusEventType, StylusFlags, StylusFrame,
};

verus! {

/* ------------------------------------------------------------------ */
/* The wire format, stated over byte sequences.                        */
/* ------------------------------------------------------------------ */

pub open spec fn spec_header_bytes(h: PacketHeader) -> Seq<u8> {
    u32_le_bytes(h.magic) + seq![h.packet_type.spec_code(), h.protocol_version] + u16_le_bytes(
        h.reserved,
    )
}

/// The header that every encoder writes for a packet type.
pub open spec fn header_bytes(t: PacketType) -> Seq<u8> {
    spec_header_bytes(
        PacketHeader {
            magic: PROTOCOL_MAGIC,
            packet_type: t,
            protocol_version: PROTOCOL_VERSION,
            reserved: 0,
        },
    )
}

pub open spec fn spec_decode_header(b: Seq<u8>) -> Result<PacketHeader, ProtocolError> {
    if b.len() < 8 {
        Err(ProtocolError::PacketTooShort { expected: 8, actual: b.len() as usize })
    } else if le_u32(b, 0) != PROTOCOL_MAGIC {
        Err(ProtocolError::InvalidMagic { actual: le_u32(b, 0) })
    } else if PacketType::spec_from_code(b[4]) is None {
        Err(ProtocolError::UnknownPacketType(b[4]))
    } else if b[5] != PROTOCOL_VERSION {
        Err(ProtocolError::UnsupportedProtocolVersion(b[5]))
    } else if le_u16(b, 6) != 0 {
        Err(ProtocolError::NonZeroReserved { field: "header.reserved", value: le_u16(b, 6) as u32 })
    } else {
        Ok(
            PacketHeader {
                magic: le_u32(b, 0),
                packet_type: PacketType::spec_from_code(b[4])->Some_0,
                protocol_version: b[5],
                reserved: 0,
            },
        )
    }
}

/* HandshakeRequest */

pub open spec fn spec_validate_request(m: HandshakeRequestModel) -> Result<(), ProtocolError> {
    if m.client_id.len() == 0 {
        Err(ProtocolError::SemanticViolation("clientId must not be empty"))
    } else {
        Ok(())
    }
}

pub open spec fn spec_encode_request(m: HandshakeRequestModel) -> Seq<u8> {
    header_bytes(PacketType::HandshakeRequest) + spec_encode_fixed_utf8(m.client_id, 64)
}

pub open spec fn spec_decode_request(b: Seq<u8>) -> Result<HandshakeRequestModel, ProtocolError> {
    if b.len() != 72 {
        Err(
            ProtocolError::InvalidPacketLength {
                packet: "HandshakeRequest",
                expected: 72,
                actual: b.len() as usize,
            },
        )
    } else if spec_decode_header(b) is Err {
        Err(spec_decode_header(b)->Err_0)
    } else if spec_decode_fixed_utf8("clientId", b.subrange(8, 72)) is Err {
        Err(spec_decode_fixed_utf8("clientId", b.subrange(8, 72))->Err_0)
    } else {
        let m = HandshakeRequestModel {
            client_id: spec_decode_fixed_utf8("clientId", b.subrange(8, 72))->Ok_0,
        };
        if spec_validate_request(m) is Err {
            Err(spec_validate_request(m)->Err_0)
        } else {
            Ok(m)
        }
    }
}

/* HandshakeResponse */

pub open spec fn spec_validate_response(m: HandshakeResponseModel) -> Result<(), ProtocolError> {
    if m.session_id.len() == 0 {
        Err(ProtocolError::SemanticViolation("sessionId must not be empty"))
    } else if m.desktop_width_px == 0 {
        Err(
            ProtocolError::OutOfRange {
                field: "desktopWidthPx",
                details: "must be greater than 0",
            },
        )
    } else if m.desktop_height_px == 0 {
        Err(
            ProtocolError::OutOfRange {
                field: "desktopHeightPx",
                details: "must be greater than 0",
            },
        )
    } else {
        Ok(())
    }
}

pub open spec fn spec_encode_response(m: HandshakeResponseModel) -> Seq<u8> {
    header_bytes(PacketType::HandshakeResponse) + spec_encode_fixed_utf8(m.session_id, 64)
        + u32_le_bytes(m.desktop_width_px) + u32_le_bytes(m.desktop_height_px) + seq![
        m.desktop_unit.spec_code(),
    ]
}

pub open spec fn spec_decode_response(b: Seq<u8>) -> Result<HandshakeResponseModel, ProtocolError> {
    if b.len() != 81 {
        Err(
            ProtocolError::InvalidPacketLength {
                packet: "HandshakeResponse",
                expected: 81,
                actual: b.len() as usize,
            },
        )
    } else if spec_decode_header(b) is Err {
        Err(spec_decode_header(b)->Err_0)
    } else if spec_decode_fixed_utf8("sessionId", b.subrange(8, 72)) is Err {
        Err(spec_decode_fixed_utf8("sessionId", b.subrange(8, 72))->Err_0)
    } else if DesktopUnit::spec_from_code(b[80]) is None {
        Err(ProtocolError::UnknownEnumValue { field: "desktopUnit", value: b[80] as u32 })
    } else {
        let m = HandshakeResponseModel {
            session_id: spec_decode_fixed_utf8("sessionId", b.subrange(8, 72))->Ok_0,
            desktop_width_px: le_u32(b, 72),
            desktop_height_px: le_u32(b, 76),
            desktop_unit: DesktopUnit::spec_from_code(b[80])->Some_0,
        };
        if spec_validate_response(m) is Err {
            Err(spec_validate_response(m)->Err_0)
        } else {
            Ok(m)
        }
    }
}

/* HandshakeError */

pub open spec fn spec_encode_error(m: HandshakeErrorModel) -> Seq<u8> {
    header_bytes(PacketType::HandshakeError) + u16_le_bytes(m.error_code.spec_code())
        + u16_le_bytes(0) + spec_encode_fixed_utf8(m.message, 96)
}

pub open spec fn spec_decode_error(b: Seq<u8>) -> Result<HandshakeErrorModel, ProtocolError> {
    if b.len() != 108 {
        Err(
            ProtocolError::InvalidPacketLength {
                packet: "HandshakeError",
                expected: 108,
                actual: b.len() as usize,
            },
        )
    } else if spec_decode_header(b) is Err {
        Err(spec_decode_header(b)->Err_0)
    } else if HandshakeErrorCode::spec_from_code(le_u16(b, 8)) is None {
        Err(ProtocolError::UnknownEnumValue { field: "errorCode", value: le_u16(b, 8) as u32 })
    } else if le_u16(b, 10) != 0 {
        Err(
            ProtocolError::NonZeroReserved {
                field: "handshakeError.reserved",
                value: le_u16(b, 10) as u32,
            },
        )
    } else if spec_decode_fixed_utf8("message", b.subrange(12, 108)) is Err {
        Err(spec_decode_fixed_utf8("message", b.subrange(12, 108))->Err_0)
    } else {
        Ok(
            HandshakeErrorModel {
                error_code: HandshakeErrorCode::spec_from_code(le_u16(b, 8))->Some_0,
                message: spec_decode_fixed_utf8("message", b.subrange(12, 108))->Ok_0,
            },
        )
    }
}

/* SessionDisconnect */

pub open spec fn spec_validate_disconnect(m: SessionDisconnectModel) -> Result<(), ProtocolError> {
    if m.session_id.len() == 0 {
        Err(ProtocolError::SemanticViolation("sessionId must not be empty"))
    } else {
        Ok(())
    }
}

pub open spec fn spec_encode_disconnect(m: SessionDisconnectModel) -> Seq<u8> {
    header_bytes(PacketType::SessionDisconnect) + spec_encode_fixed_utf8(m.session_id, 64)
}

pub open spec fn spec_decode_disconnect(b: Seq<u8>) -> Result<SessionDisconnectModel, ProtocolError> {
    if b.len() != 72 {
        Err(
            ProtocolError::InvalidPacketLength {
                packet: "SessionDisconnect",
                expected: 72,
                actual: b.len() as usize,
            },
        )
    } else if spec_decode_header(b) is Err {
        Err(spec_decode_header(b)->Err_0)
    } else if spec_decode_fixed_utf8("sessionId", b.subrange(8, 72)) is Err {
        Err(spec_decode_fixed_utf8("sessionId", b.subrange(8, 72))->Err_0)
    } else {
        let m = SessionDisconnectModel {
            session_id: spec_decode_fixed_utf8("sessionId", b.subrange(8, 72))->Ok_0,
        };
        if spec_validate_disconnect(m) is Err {
            Err(spec_validate_disconnect(m)->Err_0)
        } else {
            Ok(m)
        }
    }
}

/* StylusFrame */

pub open spec fn spec_validate_stylus(f: StylusFrame) -> Result<(), ProtocolError> {
    if f.x > 32_767 {
        Err(ProtocolError::OutOfRange { field: "x", details: "must be in 0..=32767" })
    } else if f.y > 32_767 {
        Err(ProtocolError::OutOfRange { field: "y", details: "must be in 0..=32767" })
    } else if !f32_bits_is_finite(f.pressure_bits) {
        Err(ProtocolError::InvalidFloat { field: "pressure" })
    } else if !f32_bits_in_unit_interval(f.pressure_bits) {
        Err(ProtocolError::OutOfRange { field: "pressure", details: "must be in [0.0, 1.0]" })
    } else if !(-90 <= f.tilt_x <= 90) {
        Err(ProtocolError::OutOfRange { field: "tiltX", details: "must be in [-90, 90]" })
    } else if !(-90 <= f.tilt_y <= 90) {
        Err(ProtocolError::OutOfRange { field: "tiltY", details: "must be in [-90, 90]" })
    } else if f.flags.bit(7) {
        Err(ProtocolError::SemanticViolation("stylus flags bit7 must be zero"))
    } else if f.reserved_ext != 0 {
        Err(ProtocolError::NonZeroReserved { field: "stylus.reservedExt", value: f.reserved_ext })
    } else {
        Ok(())
    }
}

pub open spec fn spec_encode_stylus(f: StylusFrame) -> Seq<u8> {
    header_bytes(PacketType::StylusFrame) + u32_le_bytes(f.seq) + u64_le_bytes(f.timestamp)
        + u16_le_bytes(f.x) + u16_le_bytes(f.y) + u32_le_bytes(f.pressure_bits) + seq![
        f.tilt_x as u8,
        f.tilt_y as u8,
        f.event_type.spec_code(),
        f.flags.0,
    ] + u32_le_bytes(f.reserved_ext)
}

/// The frame whose fields sit in the 36 bytes `b` (event type already known).
pub open spec fn spec_stylus_fields(b: Seq<u8>, event_type: StylusEventType) -> StylusFrame {
    StylusFrame {
        seq: le_u32(b, 8),
        timestamp: le_u64(b, 12),
        x: le_u16(b, 20),
        y: le_u16(b, 22),
        pressure_bits: le_u32(b, 24),
        tilt_x: b[28] as i8,
        tilt_y: b[29] as i8,
        event_type,
        flags: StylusFlags(b[31]),
        reserved_ext: le_u32(b, 32),
    }
}

pub open spec fn spec_decode_stylus(b: Seq<u8>) -> Result<StylusFrame, ProtocolError> {
    if b.len() != 36 {
        Err(
            ProtocolError::InvalidPacketLength {
                packet: "StylusFrame",
                expected: 36,
                actual: b.len() as usize,
            },
        )
    } else if spec_decode_header(b) is Err {
        Err(spec_decode_header(b)->Err_0)
    } else if StylusEventType::spec_from_code(b[30]) is None {
        Err(ProtocolError::UnknownEnumValue { field: "eventType", value: b[30] as u32 })
    } else {
        let f = spec_stylus_fields(b, StylusEventType::spec_from_code(b[30])->Some_0);
        if spec_validate_stylus(f) is Err {
            Err(spec_validate_stylus(f)->Err_0)
        } else {
            Ok(f)
        }
    }
}

/* GestureFrame */

pub open spec fn spec_validate_gesture(f: GestureFrame) -> Result<(), ProtocolError> {
    if !f32_bits_is_finite(f.val1_bits) {
        Err(ProtocolError::InvalidFloat { field: "val1" })
    } else if !f32_bits_is_finite(f.val2_bits) {
        Err(ProtocolError::InvalidFloat { field: "val2" })
    } else if !f32_bits_is_finite(f.val3_bits) {
        Err(ProtocolError::InvalidFloat { field: "val3" })
    } else if !f32_bits_is_finite(f.val4_bits) {
        Err(ProtocolError::InvalidFloat { field: "val4" })
    } else if f.gesture_type == GestureType::OneSwipe && f.state != GestureState::Begin {
        Err(ProtocolError::SemanticViolation("swipe gesture only allows Begin state"))
    } else if f.gesture_type == GestureType::OneSwipe && !f32_bits_is_zero(f.val1_bits)
        && !f32_bits_is_one(f.val1_bits) {
        Err(ProtocolError::OutOfRange { field: "val1", details: "swipe direction must be 0 or 1" })
    } else if f.gesture_type == GestureType::OneSwipe && (!f32_bits_is_zero(f.val2_bits)
        || !f32_bits_is_zero(f.val3_bits) || !f32_bits_is_zero(f.val4_bits)) {
        Err(ProtocolError::SemanticViolation("swipe val2..val4 must be zero"))
    } else if f.gesture_type == GestureType::TwoRotate && (!f32_bits_is_zero(f.val2_bits)
        || !f32_bits_is_zero(f.val3_bits) || !f32_bits_is_zero(f.val4_bits)) {
        Err(ProtocolError::SemanticViolation("rotate val2..val4 must be zero"))
    } else if f.gesture_type.spec_is_long_press() && (!f32_bits_is_zero(f.val3_bits)
        || !f32_bits_is_zero(f.val4_bits)) {
        Err(ProtocolError::SemanticViolation("long press val3..val4 must be zero"))
    } else if f.gesture_type == GestureType::TwoPinch && !f32_bits_is_zero(f.val4_bits) {
        Err(ProtocolError::SemanticViolation("pinch val4 must be zero"))
    } else {
        Ok(())
    }
}

pub open spec fn spec_encode_gesture(f: GestureFrame) -> Seq<u8> {
    u32_le_bytes(PROTOCOL_MAGIC) + seq![
        PacketType::GestureFrame.spec_code(),
        f.gesture_type.spec_code(),
        f.state.spec_code(),
        0u8,
    ] + u32_le_bytes(f.seq) + u64_le_bytes(f.timestamp) + u32_le_bytes(f.val1_bits)
        + u32_le_bytes(f.val2_bits) + u32_le_bytes(f.val3_bits) + u32_le_bytes(f.val4_bits)
}

pub open spec fn spec_gesture_fields(
    b: Seq<u8>,
    gesture_type: GestureType,
    state: GestureState,
) -> GestureFrame {
    GestureFrame {
        gesture_type,
        state,
        seq: le_u32(b, 8),
        timestamp: le_u64(b, 12),
        val1_bits: le_u32(b, 20),
        val2_bits: le_u32(b, 24),
        val3_bits: le_u32(b, 28),
        val4_bits: le_u32(b, 32),
    }
}

pub open spec fn spec_decode_gesture(b: Seq<u8>) -> Result<GestureFrame, ProtocolError> {
    if b.len() != 36 {
        Err(
            ProtocolError::InvalidPacketLength {
                packet: "GestureFrame",
                expected: 36,
                actual: b.len() as usize,
            },
        )
    } else if le_u32(b, 0) != PROTOCOL_MAGIC {
        Err(ProtocolError::InvalidMagic { actual: le_u32(b, 0) })
    } else if PacketType::spec_from_code(b[4]) is None {
        Err(ProtocolError::UnknownPacketType(b[4]))
    } else if PacketType::spec_from_code(b[4]) != Some(PacketType::GestureFrame) {
        Err(ProtocolError::SemanticViolation("packet type does not match GestureFrame"))
    } else if GestureType::spec_from_code(b[5]) is None {
        Err(ProtocolError::UnknownEnumValue { field: "gestureType", value: b[5] as u32 })
    } else if GestureState::spec_from_code(b[6]) is None {
        Err(ProtocolError::UnknownEnumValue { field: "state", value: b[6] as u32 })
    } else if b[7] != 0 {
        Err(ProtocolError::NonZeroReserved { field: "gesture.reserved", value: b[7] as u32 })
    } else {
        let f = spec_gesture_fields(
            b,
            GestureType::spec_from_code(b[5])->Some_0,
            GestureState::spec_from_code(b[6])->Some_0,
        );
        if spec_validate_gesture(f) is Err {
            Err(spec_validate_gesture(f)->Err_0)
        } else {
            Ok(f)
        }
    }
}

/* Packets */

pub open spec fn spec_decode_packet(b: Seq<u8>) -> Result<PacketModel, ProtocolError> {
    if b.len() < 5 {
        Err(ProtocolError::PacketTooShort { expected: 5, actual: b.len() as usize })
    } else if le_u32(b, 0) != PROTOCOL_MAGIC {
        Err(ProtocolError::InvalidMagic { actual: le_u32(b, 0) })
    } else {
        match PacketType::spec_from_code(b[4]) {
            None => Err(ProtocolError::UnknownPacketType(b[4])),
            Some(PacketType::HandshakeRequest) => match spec_decode_request(b) {
                Ok(m) => Ok(PacketModel::HandshakeRequest(m)),
                Err(e) => Err(e),
            },
            Some(PacketType::HandshakeResponse) => match spec_decode_response(b) {
                Ok(m) => Ok(PacketModel::HandshakeResponse(m)),
                Err(e) => Err(e),
            },
            Some(PacketType::HandshakeError) => match spec_decode_error(b) {
                Ok(m) => Ok(PacketModel::HandshakeError(m)),
                Err(e) => Err(e),
            },
            Some(PacketType::SessionDisconnect) => match spec_decode_disconnect(b) {
                Ok(m) => Ok(PacketModel::SessionDisconnect(m)),
                Err(e) => Err(e),
            },
            Some(PacketType::StylusFrame) => match spec_decode_stylus(b) {
                Ok(m) => Ok(PacketModel::StylusFrame(m)),
                Err(e) => Err(e),
            },
            Some(PacketType::GestureFrame) => match spec_decode_gesture(b) {
                Ok(m) => Ok(PacketModel::GestureFrame(m)),
                Err(e) => Err(e),
            },
        }
    }
}

/// The checks that encoding a packet performs before writing it.
pub open spec fn spec_validate_packet(p: PacketModel) -> Result<(), ProtocolError> {
    match p {
        PacketModel::HandshakeRequest(m) => spec_validate_request(m),
        PacketModel::HandshakeResponse(m) => spec_validate_response(m),
        PacketModel::HandshakeError(m) => Ok(()),
        PacketModel::SessionDisconnect(m) => spec_validate_disconnect(m),
        PacketModel::StylusFrame(f) => spec_validate_stylus(f),
        PacketModel::GestureFrame(f) => spec_validate_gesture(f),
    }
}

pub open spec fn spec_encode_packet(p: PacketModel) -> Seq<u8> {
    match p {
        PacketModel::HandshakeRequest(m) => spec_encode_request(m),
        PacketModel::HandshakeResponse(m) => spec_encode_response(m),
        PacketModel::HandshakeError(m) => spec_encode_error(m),
        PacketModel::SessionDisconnect(m) => spec_encode_disconnect(m),
        PacketModel::StylusFrame(f) => spec_encode_stylus(f),
        PacketModel::GestureFrame(f) => spec_encode_gesture(f),
    }
}

/* ------------------------------------------------------------------ */
/* Executable codec.                                                   */
/* ------------------------------------------------------------------ */

fn ensure_min_len(bytes: &[u8], expected: usize) -> (r: Result<(), ProtocolError>)
    ensures
        r == (if bytes@.len() < expected {
            Err(ProtocolError::PacketTooShort { expected, actual: bytes@.len() as usize })
        } else {
            Ok(())
        }),
{
    if bytes.len() < expected {
        return Err(ProtocolError::PacketTooShort { expected, actual: bytes.len() });
    }
    Ok(())
}

fn ensure_exact_len(packet: &'static str, bytes: &[u8], expected: usize) -> (r: Result<
    (),
    ProtocolError,
>)
    ensures
        r == (if bytes@.len() != expected {
            Err(ProtocolError::InvalidPacketLength { packet, expected, actual: bytes@.len() as usize })
        } else {
            Ok(())
        }),
{
    if bytes.len() != expected {
        return Err(ProtocolError::InvalidPacketLength { packet, expected, actual: bytes.len() });
    }
    Ok(())
}

/// Reads and checks the common eight-byte header.
pub fn decode_header(bytes: &[u8]) -> (r: Result<PacketHeader, ProtocolError>)
    ensures
        r == spec_decode_header(bytes@),
{
    if let Err(e) = ensure_min_len(bytes, PACKET_HEADER_SIZE) {
        return Err(e);
    }
    let magic = read_u32_le(bytes, 0);
    if magic != PROTOCOL_MAGIC {
        return Err(ProtocolError::InvalidMagic { actual: magic });
    }
    let packet_type_raw = bytes[4];
    let packet_type = match PacketType::from_code(packet_type_raw) {
        Some(t) => t,
        None => return Err(ProtocolError::UnknownPacketType(packet_type_raw)),
    };
    let protocol_version = bytes[5];
    if protocol_version != PROTOCOL_VERSION {
        return Err(ProtocolError::UnsupportedProtocolVersion(protocol_version));
    }
    let reserved = read_u16_le(bytes, 6);
    if reserved != 0 {
        return Err(
            ProtocolError::NonZeroReserved { field: "header.reserved", value: reserved as u32 },
        );
    }
    Ok(PacketHeader { magic, packet_type, protocol_version, reserved })
}

fn write_header(out: &mut Vec<u8>, header: PacketHeader)
    ensures
        final(out)@ == old(out)@ + spec_header_bytes(header),
{
    let ghost start = out@;
    push_u32_le(out, header.magic);
    out.push(header.packet_type.code());
    out.push(header.protocol_version);
    push_u16_le(out, header.reserved);
    assert(out@ =~= start + spec_header_bytes(header));
}

/// Reads the zero-padded text field of `n` bytes at `offset`.
fn decode_string(field: &'static str, bytes: &[u8], offset: usize, n: usize) -> (r: Result<
    String,
    ProtocolError,
>)
    requires
        offset + n <= bytes@.len(),
    ensures
        r matches Ok(s) ==> spec_decode_fixed_utf8(field, bytes@.subrange(offset as int, offset + n))
            == Ok::<Seq<char>, ProtocolError>(s@),
        r matches Err(e) ==> spec_decode_fixed_utf8(
            field,
            bytes@.subrange(offset as int, offset + n),
        ) == Err::<Seq<char>, ProtocolError>(e),
{
    let len = bytes.len();
    let mut field_bytes: Vec<u8> = Vec::new();
    let mut i: usize = 0;
    while i < n
        invariant
            len == bytes@.len(),
            offset + n <= bytes@.len(),
            i <= n,
            field_bytes@ == bytes@.subrange(offset as int, offset + i),
        decreases n - i,
    {
        field_bytes.push(bytes[offset + i]);
        i = i + 1;
        assert(field_bytes@ =~= bytes@.subrange(offset as int, offset + i));
    }
    decode_fixed_utf8(field, field_bytes.as_slice())
}

fn append_bytes(out: &mut Vec<u8>, more: Vec<u8>)
    ensures
        final(out)@ == old(out)@ + more@,
{
    let mut more = more;
    out.append(&mut more);
}

impl HandshakeRequest {
    pub fn decode(bytes: &[u8]) -> (r: Result<Self, ProtocolError>)
        ensures
            r matches Ok(p) ==> spec_decode_request(bytes@) == Ok::<_, ProtocolError>(p@),
            r matches Err(e) ==> spec_decode_request(bytes@) == Err::<HandshakeRequestModel, _>(e),
    {
        if let Err(e) = ensure_exact_len("HandshakeRequest", bytes, HANDSHAKE_REQUEST_SIZE) {
            return Err(e);
        }
        if let Err(e) = decode_header(bytes) {
            return Err(e);
        }
        let client_id = match decode_string("clientId", bytes, 8, CLIENT_ID_LEN) {
            Ok(s) => s,
            Err(e) => return Err(e),
        };
        let packet = HandshakeRequest { client_id };
        if let Err(e) = packet.validate() {
            return Err(e);
        }
        Ok(packet)
    }

    pub fn encode(&self) -> (r: Result<Vec<u8>, ProtocolError>)
        ensures
            r is Ok <==> spec_validate_request(self@) is Ok,
            r matches Ok(v) ==> v@ == spec_encode_request(self@),
            r matches Err(e) ==> spec_validate_request(self@) == Err::<(), _>(e),
    {
        if let Err(e) = self.validate() {
            return Err(e);
        }
        let mut out: Vec<u8> = Vec::new();
        write_header(&mut out, PacketHeader::new(PacketType::HandshakeRequest));
        append_bytes(&mut out, encode_fixed_utf8(self.client_id.as_str(), CLIENT_ID_LEN));
        Ok(out)
    }

    pub fn validate(&self) -> (r: Result<(), ProtocolError>)
        ensures
            r == spec_validate_request(self@),
    {
        if self.client_id.as_str().is_empty() {
            return Err(ProtocolError::SemanticViolation("clientId must not be empty"));
        }
        Ok(())
    }
}

impl HandshakeResponse {
    pub fn decode(bytes: &[u8]) -> (r: Result<Self, ProtocolError>)
        ensures
            r matches Ok(p) ==> spec_decode_response(bytes@) == Ok::<_, ProtocolError>(p@),
            r matches Err(e) ==> spec_decode_response(bytes@) == Err::<HandshakeResponseModel, _>(
                e,
            ),
    {
        if let Err(e) = ensure_exact_len("HandshakeResponse", bytes, HANDSHAKE_RESPONSE_SIZE) {
            return Err(e);
        }
        if let Err(e) = decode_header(bytes) {
            return Err(e);
        }
        let session_id = match decode_string("sessionId", bytes, 8, SESSION_ID_LEN) {
            Ok(s) => s,
            Err(e) => return Err(e),
        };
        let desktop_width_px = read_u32_le(bytes, 72);
        let desktop_height_px = read_u32_le(bytes, 76);
        let desktop_unit_raw = bytes[80];
        let desktop_unit = match DesktopUnit::from_code(desktop_unit_raw) {
            Some(u) => u,
            None => {
                return Err(
                    ProtocolError::UnknownEnumValue {
                        field: "desktopUnit",
                        value: desktop_unit_raw as u32,
                    },
                )
            },
        };
        let packet = HandshakeResponse {
            session_id,
            desktop_width_px,
            desktop_height_px,
            desktop_unit,
        };
        if let Err(e) = packet.validate() {
            return Err(e);
        }
        Ok(packet)
    }

    pub fn encode(&self) -> (r: Result<Vec<u8>, ProtocolError>)
        ensures
            r is Ok <==> spec_validate_response(self@) is Ok,
            r matches Ok(v) ==> v@ == spec_encode_response(self@),
            r matches Err(e) ==> spec_validate_response(self@) == Err::<(), _>(e),
    {
        if let Err(e) = self.validate() {
            return Err(e);
        }
        let mut out: Vec<u8> = Vec::new();
        write_header(&mut out, PacketHeader::new(PacketType::HandshakeResponse));
        append_bytes(&mut out, encode_fixed_utf8(self.session_id.as_str(), SESSION_ID_LEN));
        push_u32_le(&mut out, self.desktop_width_px);
        push_u32_le(&mut out, self.desktop_height_px);
        out.push(self.desktop_unit.code());
        Ok(out)
    }

    pub fn validate(&self) -> (r: Result<(), ProtocolError>)
        ensures
            r == spec_validate_response(self@),
    {
        if self.session_id.as_str().is_empty() {
            return Err(ProtocolError::SemanticViolation("sessionId must not be empty"));
        }
        if self.desktop_width_px == 0 {
            return Err(
                ProtocolError::OutOfRange {
                    field: "desktopWidthPx",
                    details: "must be greater than 0",
                },
            );
        }
        if self.desktop_height_px == 0 {
            return Err(
                ProtocolError::OutOfRange {
                    field: "desktopHeightPx",
                    details: "must be greater than 0",
                },
            );
        }
        Ok(())
    }
}

impl HandshakeError {
    pub fn decode(bytes: &[u8]) -> (r: Result<Self, ProtocolError>)
        ensures
            r matches Ok(p) ==> spec_decode_error(bytes@) == Ok::<_, ProtocolError>(p@),
            r matches Err(e) ==> spec_decode_error(bytes@) == Err::<HandshakeErrorModel, _>(e),
    {
        if let Err(e) = ensure_exact_len("HandshakeError", bytes, HANDSHAKE_ERROR_SIZE) {
            return Err(e);
        }
        if let Err(e) = decode_header(bytes) {
            return Err(e);
        }
        let error_code_raw = read_u16_le(bytes, 8);
        let error_code = match HandshakeErrorCode::from_code(error_code_raw) {
            Some(c) => c,
            None => {
                return Err(
                    ProtocolError::UnknownEnumValue {
                        field: "errorCode",
                        value: error_code_raw as u32,
                    },
                )
            },
        };
        let reserved = read_u16_le(bytes, 10);
        if reserved != 0 {
            return Err(
                ProtocolError::NonZeroReserved {
                    field: "handshakeError.reserved",
                    value: reserved as u32,
                },
            );
        }
        let message = match decode_string("message", bytes, 12, ERROR_MESSAGE_LEN) {
            Ok(s) => s,
            Err(e) => return Err(e),
        };
        let packet = HandshakeError { error_code, message };
        Ok(packet)
    }

    pub fn encode(&self) -> (r: Result<Vec<u8>, ProtocolError>)
        ensures
            r matches Ok(v) && v@ == spec_encode_error(self@),
    {
        let mut out: Vec<u8> = Vec::new();
        write_header(&mut out, PacketHeader::new(PacketType::HandshakeError));
        push_u16_le(&mut out, self.error_code.code());
        push_u16_le(&mut out, 0);
        append_bytes(&mut out, encode_fixed_utf8(self.message.as_str(), ERROR_MESSAGE_LEN));
        Ok(out)
    }

    /// An error packet carries no constraint beyond its layout.
    pub fn validate(&self) -> (r: Result<(), ProtocolError>)
        ensures
            r is Ok,
    {
        Ok(())
    }
}

impl SessionDisconnect {
    pub fn decode(bytes: &[u8]) -> (r: Result<Self, ProtocolError>)
        ensures
            r matches Ok(p) ==> spec_decode_disconnect(bytes@) == Ok::<_, ProtocolError>(p@),
            r matches Err(e) ==> spec_decode_disconnect(bytes@) == Err::<
                SessionDisconnectModel,
                _,
            >(e),
    {
        if let Err(e) = ensure_exact_len("SessionDisconnect", bytes, SESSION_DISCONNECT_SIZE) {
            return Err(e);
        }
        if let Err(e) = decode_header(bytes) {
            return Err(e);
        }
        let session_id = match decode_string("sessionId", bytes, 8, SESSION_ID_LEN) {
            Ok(s) => s,
            Err(e) => return Err(e),
        };
        let packet = SessionDisconnect { session_id };
        if let Err(e) = packet.validate() {
            return Err(e);
        }
        Ok(packet)
    }

    pub fn encode(&self) -> (r: Result<Vec<u8>, ProtocolError>)
        ensures
            r is Ok <==> spec_validate_disconnect(self@) is Ok,
            r matches Ok(v) ==> v@ == spec_encode_disconnect(self@),
            r matches Err(e) ==> spec_validate_disconnect(self@) == Err::<(), _>(e),
    {
        if let Err(e) = self.validate() {
            return Err(e);
        }
        let mut out: Vec<u8> = Vec::new();
        write_header(&mut out, PacketHeader::new(PacketType::SessionDisconnect));
        append_bytes(&mut out, encode_fixed_utf8(self.session_id.as_str(), SESSION_ID_LEN));
        Ok(out)
    }

    pub fn validate(&self) -> (r: Result<(), ProtocolError>)
        ensures
            r == spec_validate_disconnect(self@),
    {
        if self.session_id.as_str().is_empty() {
            return Err(ProtocolError::SemanticViolation("sessionId must not be empty"));
        }
        Ok(())
    }
}

impl StylusFrame {
    pub fn decode(bytes: &[u8]) -> (r: Result<Self, ProtocolError>)
        ensures
            r == spec_decode_stylus(bytes@),
    {
        if let Err(e) = ensure_exact_len("StylusFrame", bytes, STYLUS_FRAME_SIZE) {
            return Err(e);
        }
        if let Err(e) = decode_header(bytes) {
            return Err(e);
        }
        let event_type_raw = bytes[30];
        let event_type = match StylusEventType::from_code(event_type_raw) {
            Some(t) => t,
            None => {
                return Err(
                    ProtocolError::UnknownEnumValue {
                        field: "eventType",
                        value: event_type_raw as u32,
                    },
                )
            },
        };
        let packet = StylusFrame {
            seq: read_u32_le(bytes, 8),
            timestamp: read_u64_le(bytes, 12),
            x: read_u16_le(bytes, 20),
            y: read_u16_le(bytes, 22),
            pressure_bits: read_u32_le(bytes, 24),
            tilt_x: bytes[28] as i8,
            tilt_y: bytes[29] as i8,
            event_type,
            flags: StylusFlags(bytes[31]),
            reserved_ext: read_u32_le(bytes, 32),
        };
        if let Err(e) = packet.validate() {
            return Err(e);
        }
        Ok(packet)
    }

    pub fn encode(&self) -> (r: Result<Vec<u8>, ProtocolError>)
        ensures
            r is Ok <==> spec_validate_stylus(*self) is Ok,
            r matches Ok(v) ==> v@ == spec_encode_stylus(*self),
            r matches Err(e) ==> spec_validate_stylus(*self) == Err::<(), _>(e),
    {
        if let Err(e) = self.validate() {
            return Err(e);
        }
        let mut out: Vec<u8> = Vec::new();
        let ghost start = out@;
        write_header(&mut out, PacketHeader::new(PacketType::StylusFrame));
        push_u32_le(&mut out, self.seq);
        push_u64_le(&mut out, self.timestamp);
        push_u16_le(&mut out, self.x);
        push_u16_le(&mut out, self.y);
        push_u32_le(&mut out, self.pressure_bits);
        out.push(self.tilt_x as u8);
        out.push(self.tilt_y as u8);
        out.push(self.event_type.code());
        out.push(self.flags.0);
        push_u32_le(&mut out, self.reserved_ext);
        assert(out@ =~= spec_encode_stylus(*self));
        Ok(out)
    }

    pub fn validate(&self) -> (r: Result<(), ProtocolError>)
        ensures
            r == spec_validate_stylus(*self),
    {
        if self.x > 32_767 {
            return Err(ProtocolError::OutOfRange { field: "x", details: "must be in 0..=32767" });
        }
        if self.y > 32_767 {
            return Err(ProtocolError::OutOfRange { field: "y", details: "must be in 0..=32767" });
        }
        if !f32_bits_finite(self.pressure_bits) {
            return Err(ProtocolError::InvalidFloat { field: "pressure" });
        }
        if !f32_bits_unit_interval(self.pressure_bits) {
            return Err(
                ProtocolError::OutOfRange { field: "pressure", details: "must be in [0.0, 1.0]" },
            );
        }
        if !(-90 <= self.tilt_x && self.tilt_x <= 90) {
            return Err(
                ProtocolError::OutOfRange { field: "tiltX", details: "must be in [-90, 90]" },
            );
        }
        if !(-90 <= self.tilt_y && self.tilt_y <= 90) {
            return Err(
                ProtocolError::OutOfRange { field: "tiltY", details: "must be in [-90, 90]" },
            );
        }
        if self.flags.has_reserved_bits() {
            return Err(ProtocolError::SemanticViolation("stylus flags bit7 must be zero"));
        }
        if self.reserved_ext != 0 {
            return Err(
                ProtocolError::NonZeroReserved {
                    field: "stylus.reservedExt",
                    value: self.reserved_ext,
                },
            );
        }
        Ok(())
    }
}

impl GestureFrame {
    pub fn decode(bytes: &[u8]) -> (r: Result<Self, ProtocolError>)
        ensures
            r == spec_decode_gesture(bytes@),
    {
        if let Err(e) = ensure_exact_len("GestureFrame", bytes, GESTURE_FRAME_SIZE) {
            return Err(e);
        }
        let magic = read_u32_le(bytes, 0);
        if magic != PROTOCOL_MAGIC {
            return Err(ProtocolError::InvalidMagic { actual: magic });
        }
        let packet_type_raw = bytes[4];
        let packet_type = match PacketType::from_code(packet_type_raw) {
            Some(t) => t,
            None => return Err(ProtocolError::UnknownPacketType(packet_type_raw)),
        };
        match packet_type {
            PacketType::GestureFrame => {},
            _ => {
                return Err(
                    ProtocolError::SemanticViolation("packet type does not match GestureFrame"),
                )
            },
        }
        let gesture_type_raw = bytes[5];
        let gesture_type = match GestureType::from_code(gesture_type_raw) {
            Some(t) => t,
            None => {
                return Err(
                    ProtocolError::UnknownEnumValue {
                        field: "gestureType",
                        value: gesture_type_raw as u32,
                    },
                )
            },
        };
        let state_raw = bytes[6];
        let state = match GestureState::from_code(state_raw) {
            Some(t) => t,
            None => {
                return Err(ProtocolError::UnknownEnumValue { field: "state", value: state_raw as u32 })
            },
        };
        if bytes[7] != 0 {
            return Err(
                ProtocolError::NonZeroReserved { field: "gesture.reserved", value: bytes[7] as u32 },
            );
        }
        let packet = GestureFrame {
            gesture_type,
            state,
            seq: read_u32_le(bytes, 8),
            timestamp: read_u64_le(bytes, 12),
            val1_bits: read_u32_le(bytes, 20),
            val2_bits: read_u32_le(bytes, 24),
            val3_bits: read_u32_le(bytes, 28),
            val4_bits: read_u32_le(bytes, 32),
        };
        if let Err(e) = packet.validate() {
            return Err(e);
        }
        Ok(packet)
    }

    pub fn encode(&self) -> (r: Result<Vec<u8>, ProtocolError>)
        ensures
            r is Ok <==> spec_validate_gesture(*self) is Ok,
            r matches Ok(v) ==> v@ == spec_encode_gesture(*self),
            r matches Err(e) ==> spec_validate_gesture(*self) == Err::<(), _>(e),
    {
        if let Err(e) = self.validate() {
            return Err(e);
        }
        let mut out: Vec<u8> = Vec::new();
        push_u32_le(&mut out, PROTOCOL_MAGIC);
        out.push(PacketType::GestureFrame.code());
        out.push(self.gesture_type.code());
        out.push(self.state.code());
        out.push(0u8);
        push_u32_le(&mut out, self.seq);
        push_u64_le(&mut out, self.timestamp);
        push_u32_le(&mut out, self.val1_bits);
        push_u32_le(&mut out, self.val2_bits);
        push_u32_le(&mut out, self.val3_bits);
        push_u32_le(&mut out, self.val4_bits);
        assert(out@ =~= spec_encode_gesture(*self));
        Ok(out)
    }

    pub fn validate(&self) -> (r: Result<(), ProtocolError>)
        ensures
            r == spec_validate_gesture(*self),
    {
        if !f32_bits_finite(self.val1_bits) {
            return Err(ProtocolError::InvalidFloat { field: "val1" });
        }
        if !f32_bits_finite(self.val2_bits) {
            return Err(ProtocolError::InvalidFloat { field: "val2" });
        }
        if !f32_bits_finite(self.val3_bits) {
            return Err(ProtocolError::InvalidFloat { field: "val3" });
        }
        if !f32_bits_finite(self.val4_bits) {
            return Err(ProtocolError::InvalidFloat { field: "val4" });
        }
        let v1_zero = f32_bits_zero(self.val1_bits);
        let v2_zero = f32_bits_zero(self.val2_bits);
        let v3_zero = f32_bits_zero(self.val3_bits);
        let v4_zero = f32_bits_zero(self.val4_bits);
        if self.gesture_type.is_swipe() {
            if self.state != GestureState::Begin {
                return Err(ProtocolError::SemanticViolation("swipe gesture only allows Begin state"));
            }
            if !v1_zero && !f32_bits_one(self.val1_bits) {
                return Err(
                    ProtocolError::OutOfRange {
                        field: "val1",
                        details: "swipe direction must be 0 or 1",
                    },
                );
            }
            if !v2_zero || !v3_zero || !v4_zero {
                return Err(ProtocolError::SemanticViolation("swipe val2..val4 must be zero"));
            }
        }
        if self.gesture_type.is_rotate() && (!v2_zero || !v3_zero || !v4_zero) {
            return Err(ProtocolError::SemanticViolation("rotate val2..val4 must be zero"));
        }
        if self.gesture_type.is_long_press() && (!v3_zero || !v4_zero) {
            return Err(ProtocolError::SemanticViolation("long press val3..val4 must be zero"));
        }
        if self.gesture_type.is_pinch() && !v4_zero {
            return Err(ProtocolError::SemanticViolation("pinch val4 must be zero"));
        }
        Ok(())
    }
}

/// Decodes any packet, dispatching on its type byte.
pub fn decode_packet(bytes: &[u8]) -> (r: Result<Packet, ProtocolError>)
    ensures
        r matches Ok(p) ==> spec_decode_packet(bytes@) == Ok::<_, ProtocolError>(p@),
        r matches Err(e) ==> spec_decode_packet(bytes@) == Err::<PacketModel, _>(e),
{
    if let Err(e) = ensure_min_len(bytes, 5) {
        return Err(e);
    }
    let magic = read_u32_le(bytes, 0);
    if magic != PROTOCOL_MAGIC {
        return Err(ProtocolError::InvalidMagic { actual: magic });
    }
    let packet_type_raw = bytes[4];
    let packet_type = match PacketType::from_code(packet_type_raw) {
        Some(t) => t,
        None => return Err(ProtocolError::UnknownPacketType(packet_type_raw)),
    };
    match packet_type {
        PacketType::HandshakeRequest => match HandshakeRequest::decode(bytes) {
            Ok(p) => Ok(Packet::HandshakeRequest(p)),
            Err(e) => Err(e),
        },
        PacketType::HandshakeResponse => match HandshakeResponse::decode(bytes) {
            Ok(p) => Ok(Packet::HandshakeResponse(p)),
            Err(e) => Err(e),
        },
        PacketType::HandshakeError => match HandshakeError::decode(bytes) {
            Ok(p) => Ok(Packet::HandshakeError(p)),
            Err(e) => Err(e),
        },
        PacketType::SessionDisconnect => match SessionDisconnect::decode(bytes) {
            Ok(p) => Ok(Packet::SessionDisconnect(p)),
            Err(e) => Err(e),
        },
        PacketType::StylusFrame => match StylusFrame::decode(bytes) {
            Ok(p) => Ok(Packet::StylusFrame(p)),
            Err(e) => Err(e),
        },
        PacketType::GestureFrame => match GestureFrame::decode(bytes) {
            Ok(p) => Ok(Packet::GestureFrame(p)),
            Err(e) => Err(e),
        },
    }
}

/// Encodes any packet after checking its constraints.
pub fn encode_packet(packet: &Packet) -> (r: Result<Vec<u8>, ProtocolError>)
    ensures
        r is Ok <==> spec_validate_packet(packet@) is Ok,
        r matches Ok(v) ==> v@ == spec_encode_packet(packet@),
        r matches Err(e) ==> spec_validate_packet(packet@) == Err::<(), _>(e),
{
    match packet {
        Packet::HandshakeRequest(p) => p.encode(),
        Packet::HandshakeResponse(p) => p.encode(),
        Packet::HandshakeError(p) => p.encode(),
        Packet::SessionDisconnect(p) => p.encode(),
        Packet::StylusFrame(p) => p.encode(),
        Packet::GestureFrame(p) => p.encode(),
    }
}

} // verus!
