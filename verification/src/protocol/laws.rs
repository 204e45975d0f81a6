use vstd::prelude::*;

use crate::protocol::bytes::{
    le_u16, le_u32, le_u64, lemma_le_u16_bytes, lemma_le_u32_bytes, lemma_le_u64_bytes,
    lemma_u16_round_trip, lemma_u32_round_trip, lemma_u64_round_trip, u16_le_bytes,
    u32_le_bytes, u64_le_bytes,
};
use crate::protocol::codec::{
    header_bytes, spec_decode_disconnect, spec_decode_error, spec_decode_gesture,
    spec_decode_header, spec_decode_packet, spec_decode_request, spec_decode_response,
    spec_decode_stylus, spec_encode_disconnect, spec_encode_error, spec_encode_gesture,
    spec_encode_packet, spec_encode_request, spec_encode_response, spec_encode_stylus,
    spec_gesture_fields, spec_stylus_fields, spec_validate_disconnect, spec_validate_packet,
    spec_validate_request, spec_validate_response,
};
use crate::protocol::constants::{PROTOCOL_MAGIC, PROTOCOL_VERSION};
use crate::protocol::error::ProtocolError;
use crate::protocol::fixed_str::{
    fits_fixed_field, lemma_fixed_utf8_canonical, lemma_fixed_utf8_round_trip,
    spec_decode_fixed_utf8, spec_encode_fixed_utf8,
};
use crate::protocol::model::{
    DesktopUnit, GestureFrame, GestureState, GestureType, HandshakeErrorCode, HandshakeErrorModel,
    HandshakeRequestModel, HandshakeResponseModel, PacketModel, PacketType,
    SessionDisconnectModel, StylusEventType, StylusFrame,
};

verus! {

/* Reading a value back from the place it was written. */

proof fn lemma_read_u16_at(s: Seq<u8>, off: int, v: u16)
    requires
        0 <= off,
        off + 2 <= s.len(),
        s.subrange(off, off + 2) == u16_le_bytes(v),
    ensures
        le_u16(s, off) == v,
{
    lemma_u16_round_trip(v);
    assert(s[off] == u16_le_bytes(v)[0]);
    assert(s[off + 1] == u16_le_bytes(v)[1]);
}

proof fn lemma_read_u32_at(s: Seq<u8>, off: int, v: u32)
    requires
        0 <= off,
        off + 4 <= s.len(),
        s.subrange(off, off + 4) == u32_le_bytes(v),
    ensures
        le_u32(s, off) == v,
{
    lemma_u32_round_trip(v);
    assert(s[off] == u32_le_bytes(v)[0]);
    assert(s[off + 1] == u32_le_bytes(v)[1]);
    assert(s[off + 2] == u32_le_bytes(v)[2]);
    assert(s[off + 3] == u32_le_bytes(v)[3]);
}

proof fn lemma_read_u64_at(s: Seq<u8>, off: int, v: u64)
    requires
        0 <= off,
        off + 8 <= s.len(),
        s.subrange(off, off + 8) == u64_le_bytes(v),
    ensures
        le_u64(s, off) == v,
{
    lemma_u64_round_trip(v);
    let w = u64_le_bytes(v);
    assert forall|k: int| 0 <= k < 8 implies s[off + k] == w[k] by {
        assert(s.subrange(off, off + 8)[k] == s[off + k]);
    }
    assert(le_u32(s, off) == le_u32(w, 0));
    assert(le_u32(s, off + 4) == le_u32(w, 4));
}

proof fn lemma_i8_u8_round_trip(v: i8, b: u8)
    ensures
        (v as u8) as i8 == v,
        (b as i8) as u8 == b,
{
    assert((v as u8) as i8 == v) by (bit_vector);
    assert((b as i8) as u8 == b) by (bit_vector);
}

/// A correct header at the front of `s` decodes.
proof fn lemma_header_decodes(t: PacketType, s: Seq<u8>)
    requires
        s.len() >= 8,
        s.subrange(0, 8) == header_bytes(t),
    ensures
        spec_decode_header(s) is Ok,
        le_u32(s, 0) == PROTOCOL_MAGIC,
        s[4] == t.spec_code(),
{
    let h = header_bytes(t);
    assert(s.subrange(0, 4) =~= h.subrange(0, 4));
    assert(h.subrange(0, 4) =~= u32_le_bytes(PROTOCOL_MAGIC));
    lemma_read_u32_at(s, 0, PROTOCOL_MAGIC);
    assert(s[4] == h[4]);
    assert(s[5] == h[5]);
    assert(s.subrange(6, 8) =~= h.subrange(6, 8));
    assert(h.subrange(6, 8) =~= u16_le_bytes(0));
    lemma_read_u16_at(s, 6, 0);
    t.lemma_code_round_trip();
}

/// A decoded header is the one every encoder writes for its type.
proof fn lemma_header_canonical(s: Seq<u8>, t: PacketType)
    requires
        spec_decode_header(s) is Ok,
        s[4] == t.spec_code(),
    ensures
        s.subrange(0, 8) == header_bytes(t),
{
    lemma_le_u32_bytes(s, 0);
    lemma_le_u16_bytes(s, 6);
    assert(s.subrange(0, 8) =~= header_bytes(t));
}

/* HandshakeRequest */

proof fn lemma_request_round_trip(m: HandshakeRequestModel)
    requires
        spec_validate_request(m) is Ok,
        fits_fixed_field(m.client_id, 64),
    ensures
        spec_decode_request(spec_encode_request(m)) == Ok::<_, ProtocolError>(m),
{
    let h = header_bytes(PacketType::HandshakeRequest);
    let f = spec_encode_fixed_utf8(m.client_id, 64);
    let s = spec_encode_request(m);
    lemma_fixed_utf8_round_trip("clientId", m.client_id, 64);
    assert(s.subrange(0, 8) =~= h);
    assert(s.subrange(8, 72) =~= f);
    lemma_header_decodes(PacketType::HandshakeRequest, s);
}

proof fn lemma_request_canonical(b: Seq<u8>)
    requires
        spec_decode_request(b) is Ok,
        b.len() >= 5,
        b[4] == PacketType::HandshakeRequest.spec_code(),
    ensures
        spec_encode_request(spec_decode_request(b)->Ok_0) == b,
{
    let m = spec_decode_request(b)->Ok_0;
    lemma_header_canonical(b, PacketType::HandshakeRequest);
    lemma_fixed_utf8_canonical("clientId", b.subrange(8, 72), m.client_id);
    assert(spec_encode_request(m) =~= b.subrange(0, 8) + b.subrange(8, 72));
    assert(b.subrange(0, 8) + b.subrange(8, 72) =~= b);
}

/* HandshakeResponse */

proof fn lemma_response_round_trip(m: HandshakeResponseModel)
    requires
        spec_validate_response(m) is Ok,
        fits_fixed_field(m.session_id, 64),
    ensures
        spec_decode_response(spec_encode_response(m)) == Ok::<_, ProtocolError>(m),
{
    let s = spec_encode_response(m);
    lemma_fixed_utf8_round_trip("sessionId", m.session_id, 64);
    assert(s.subrange(0, 8) =~= header_bytes(PacketType::HandshakeResponse));
    assert(s.subrange(8, 72) =~= spec_encode_fixed_utf8(m.session_id, 64));
    assert(s.subrange(72, 76) =~= u32_le_bytes(m.desktop_width_px));
    assert(s.subrange(76, 80) =~= u32_le_bytes(m.desktop_height_px));
    lemma_read_u32_at(s, 72, m.desktop_width_px);
    lemma_read_u32_at(s, 76, m.desktop_height_px);
    lemma_header_decodes(PacketType::HandshakeResponse, s);
    assert(s[80] == m.desktop_unit.spec_code());
}

proof fn lemma_response_canonical(b: Seq<u8>)
    requires
        spec_decode_response(b) is Ok,
        b.len() >= 5,
        b[4] == PacketType::HandshakeResponse.spec_code(),
    ensures
        spec_encode_response(spec_decode_response(b)->Ok_0) == b,
{
    let m = spec_decode_response(b)->Ok_0;
    lemma_header_canonical(b, PacketType::HandshakeResponse);
    lemma_fixed_utf8_canonical("sessionId", b.subrange(8, 72), m.session_id);
    lemma_le_u32_bytes(b, 72);
    lemma_le_u32_bytes(b, 76);
    assert(spec_encode_response(m) =~= b);
}

/* HandshakeError */

proof fn lemma_error_round_trip(m: HandshakeErrorModel)
    requires
        fits_fixed_field(m.message, 96),
    ensures
        spec_decode_error(spec_encode_error(m)) == Ok::<_, ProtocolError>(m),
{
    let s = spec_encode_error(m);
    lemma_fixed_utf8_round_trip("message", m.message, 96);
    assert(s.subrange(0, 8) =~= header_bytes(PacketType::HandshakeError));
    assert(s.subrange(8, 10) =~= u16_le_bytes(m.error_code.spec_code()));
    assert(s.subrange(10, 12) =~= u16_le_bytes(0));
    assert(s.subrange(12, 108) =~= spec_encode_fixed_utf8(m.message, 96));
    lemma_read_u16_at(s, 8, m.error_code.spec_code());
    lemma_read_u16_at(s, 10, 0);
    lemma_header_decodes(PacketType::HandshakeError, s);
    assert(HandshakeErrorCode::spec_from_code(m.error_code.spec_code()) == Some(m.error_code));
}

proof fn lemma_error_canonical(b: Seq<u8>)
    requires
        spec_decode_error(b) is Ok,
        b.len() >= 5,
        b[4] == PacketType::HandshakeError.spec_code(),
    ensures
        spec_encode_error(spec_decode_error(b)->Ok_0) == b,
{
    let m = spec_decode_error(b)->Ok_0;
    lemma_header_canonical(b, PacketType::HandshakeError);
    lemma_fixed_utf8_canonical("message", b.subrange(12, 108), m.message);
    lemma_le_u16_bytes(b, 8);
    lemma_le_u16_bytes(b, 10);
    let code = le_u16(b, 8);
    assert(m.error_code.spec_code() == code);
    assert(spec_encode_error(m) =~= b);
}

/* SessionDisconnect */

proof fn lemma_disconnect_round_trip(m: SessionDisconnectModel)
    requires
        spec_validate_disconnect(m) is Ok,
        fits_fixed_field(m.session_id, 64),
    ensures
        spec_decode_disconnect(spec_encode_disconnect(m)) == Ok::<_, ProtocolError>(m),
{
    let s = spec_encode_disconnect(m);
    lemma_fixed_utf8_round_trip("sessionId", m.session_id, 64);
    assert(s.subrange(0, 8) =~= header_bytes(PacketType::SessionDisconnect));
    assert(s.subrange(8, 72) =~= spec_encode_fixed_utf8(m.session_id, 64));
    lemma_header_decodes(PacketType::SessionDisconnect, s);
}

proof fn lemma_disconnect_canonical(b: Seq<u8>)
    requires
        spec_decode_disconnect(b) is Ok,
        b.len() >= 5,
        b[4] == PacketType::SessionDisconnect.spec_code(),
    ensures
        spec_encode_disconnect(spec_decode_disconnect(b)->Ok_0) == b,
{
    let m = spec_decode_disconnect(b)->Ok_0;
    lemma_header_canonical(b, PacketType::SessionDisconnect);
    lemma_fixed_utf8_canonical("sessionId", b.subrange(8, 72), m.session_id);
    assert(spec_encode_disconnect(m) =~= b.subrange(0, 8) + b.subrange(8, 72));
    assert(b.subrange(0, 8) + b.subrange(8, 72) =~= b);
}

/* StylusFrame */

proof fn lemma_stylus_round_trip(f: StylusFrame)
    requires
        crate::protocol::codec::spec_validate_stylus(f) is Ok,
    ensures
        spec_decode_stylus(spec_encode_stylus(f)) == Ok::<_, ProtocolError>(f),
{
    let s = spec_encode_stylus(f);
    assert(s.subrange(0, 8) =~= header_bytes(PacketType::StylusFrame));
    assert(s.subrange(8, 12) =~= u32_le_bytes(f.seq));
    assert(s.subrange(12, 20) =~= u64_le_bytes(f.timestamp));
    assert(s.subrange(20, 22) =~= u16_le_bytes(f.x));
    assert(s.subrange(22, 24) =~= u16_le_bytes(f.y));
    assert(s.subrange(24, 28) =~= u32_le_bytes(f.pressure_bits));
    assert(s.subrange(32, 36) =~= u32_le_bytes(f.reserved_ext));
    lemma_read_u32_at(s, 8, f.seq);
    lemma_read_u64_at(s, 12, f.timestamp);
    lemma_read_u16_at(s, 20, f.x);
    lemma_read_u16_at(s, 22, f.y);
    lemma_read_u32_at(s, 24, f.pressure_bits);
    lemma_read_u32_at(s, 32, f.reserved_ext);
    lemma_header_decodes(PacketType::StylusFrame, s);
    lemma_i8_u8_round_trip(f.tilt_x, 0);
    lemma_i8_u8_round_trip(f.tilt_y, 0);
    assert(s[28] == f.tilt_x as u8);
    assert(s[29] == f.tilt_y as u8);
    assert(s[30] == f.event_type.spec_code());
    assert(s[31] == f.flags.0);
    assert(StylusEventType::spec_from_code(f.event_type.spec_code()) == Some(f.event_type));
    assert(spec_stylus_fields(s, f.event_type) == f);
}

proof fn lemma_stylus_canonical(b: Seq<u8>)
    requires
        spec_decode_stylus(b) is Ok,
        b.len() >= 5,
        b[4] == PacketType::StylusFrame.spec_code(),
    ensures
        spec_encode_stylus(spec_decode_stylus(b)->Ok_0) == b,
{
    let f = spec_decode_stylus(b)->Ok_0;
    lemma_header_canonical(b, PacketType::StylusFrame);
    lemma_le_u32_bytes(b, 8);
    lemma_le_u64_bytes(b, 12);
    lemma_le_u16_bytes(b, 20);
    lemma_le_u16_bytes(b, 22);
    lemma_le_u32_bytes(b, 24);
    lemma_le_u32_bytes(b, 32);
    lemma_i8_u8_round_trip(0, b[28]);
    lemma_i8_u8_round_trip(0, b[29]);
    assert(f.event_type.spec_code() == b[30]);
    assert(spec_encode_stylus(f) =~= b);
}

/* GestureFrame */

proof fn lemma_gesture_round_trip(f: GestureFrame)
    requires
        crate::protocol::codec::spec_validate_gesture(f) is Ok,
    ensures
        spec_decode_gesture(spec_encode_gesture(f)) == Ok::<_, ProtocolError>(f),
{
    let s = spec_encode_gesture(f);
    assert(s.subrange(0, 4) =~= u32_le_bytes(PROTOCOL_MAGIC));
    assert(s.subrange(8, 12) =~= u32_le_bytes(f.seq));
    assert(s.subrange(12, 20) =~= u64_le_bytes(f.timestamp));
    assert(s.subrange(20, 24) =~= u32_le_bytes(f.val1_bits));
    assert(s.subrange(24, 28) =~= u32_le_bytes(f.val2_bits));
    assert(s.subrange(28, 32) =~= u32_le_bytes(f.val3_bits));
    assert(s.subrange(32, 36) =~= u32_le_bytes(f.val4_bits));
    lemma_read_u32_at(s, 0, PROTOCOL_MAGIC);
    lemma_read_u32_at(s, 8, f.seq);
    lemma_read_u64_at(s, 12, f.timestamp);
    lemma_read_u32_at(s, 20, f.val1_bits);
    lemma_read_u32_at(s, 24, f.val2_bits);
    lemma_read_u32_at(s, 28, f.val3_bits);
    lemma_read_u32_at(s, 32, f.val4_bits);
    assert(s[4] == 6);
    assert(s[5] == f.gesture_type.spec_code());
    assert(s[6] == f.state.spec_code());
    assert(s[7] == 0);
    assert(GestureType::spec_from_code(f.gesture_type.spec_code()) == Some(f.gesture_type));
    assert(GestureState::spec_from_code(f.state.spec_code()) == Some(f.state));
    assert(spec_gesture_fields(s, f.gesture_type, f.state) == f);
}

proof fn lemma_gesture_canonical(b: Seq<u8>)
    requires
        spec_decode_gesture(b) is Ok,
    ensures
        spec_encode_gesture(spec_decode_gesture(b)->Ok_0) == b,
{
    let f = spec_decode_gesture(b)->Ok_0;
    lemma_le_u32_bytes(b, 0);
    lemma_le_u32_bytes(b, 8);
    lemma_le_u64_bytes(b, 12);
    lemma_le_u32_bytes(b, 20);
    lemma_le_u32_bytes(b, 24);
    lemma_le_u32_bytes(b, 28);
    lemma_le_u32_bytes(b, 32);
    assert(f.gesture_type.spec_code() == b[5]);
    assert(f.state.spec_code() == b[6]);
    assert(spec_encode_gesture(f) =~= b);
}

/* Packets */

/// Every text field of the packet holds no NUL character and fits its fixed
/// field, so the wire form keeps it exactly.
pub open spec fn packet_text_fits(p: PacketModel) -> bool {
    match p {
        PacketModel::HandshakeRequest(m) => fits_fixed_field(m.client_id, 64),
        PacketModel::HandshakeResponse(m) => fits_fixed_field(m.session_id, 64),
        PacketModel::HandshakeError(m) => fits_fixed_field(m.message, 96),
        PacketModel::SessionDisconnect(m) => fits_fixed_field(m.session_id, 64),
        PacketModel::StylusFrame(_) => true,
        PacketModel::GestureFrame(_) => true,
    }
}

proof fn lemma_packet_request(m: HandshakeRequestModel)
    requires
        spec_validate_request(m) is Ok,
        fits_fixed_field(m.client_id, 64),
    ensures
        spec_decode_packet(spec_encode_request(m)) == Ok::<_, ProtocolError>(
            PacketModel::HandshakeRequest(m),
        ),
{
    let s = spec_encode_request(m);
    lemma_request_round_trip(m);
    assert(s.subrange(0, 8) =~= header_bytes(PacketType::HandshakeRequest));
    lemma_header_decodes(PacketType::HandshakeRequest, s);
}

proof fn lemma_packet_response(m: HandshakeResponseModel)
    requires
        spec_validate_response(m) is Ok,
        fits_fixed_field(m.session_id, 64),
    ensures
        spec_decode_packet(spec_encode_response(m)) == Ok::<_, ProtocolError>(
            PacketModel::HandshakeResponse(m),
        ),
{
    let s = spec_encode_response(m);
    lemma_response_round_trip(m);
    assert(s.subrange(0, 8) =~= header_bytes(PacketType::HandshakeResponse));
    lemma_header_decodes(PacketType::HandshakeResponse, s);
}

proof fn lemma_packet_error(m: HandshakeErrorModel)
    requires
        fits_fixed_field(m.message, 96),
    ensures
        spec_decode_packet(spec_encode_error(m)) == Ok::<_, ProtocolError>(
            PacketModel::HandshakeError(m),
        ),
{
    let s = spec_encode_error(m);
    lemma_error_round_trip(m);
    assert(s.subrange(0, 8) =~= header_bytes(PacketType::HandshakeError));
    lemma_header_decodes(PacketType::HandshakeError, s);
}

proof fn lemma_packet_disconnect(m: SessionDisconnectModel)
    requires
        spec_validate_disconnect(m) is Ok,
        fits_fixed_field(m.session_id, 64),
    ensures
        spec_decode_packet(spec_encode_disconnect(m)) == Ok::<_, ProtocolError>(
            PacketModel::SessionDisconnect(m),
        ),
{
    let s = spec_encode_disconnect(m);
    lemma_disconnect_round_trip(m);
    assert(s.subrange(0, 8) =~= header_bytes(PacketType::SessionDisconnect));
    lemma_header_decodes(PacketType::SessionDisconnect, s);
}

proof fn lemma_packet_stylus(f: StylusFrame)
    requires
        crate::protocol::codec::spec_validate_stylus(f) is Ok,
    ensures
        spec_decode_packet(spec_encode_stylus(f)) == Ok::<_, ProtocolError>(
            PacketModel::StylusFrame(f),
        ),
{
    let s = spec_encode_stylus(f);
    lemma_stylus_round_trip(f);
    assert(s.subrange(0, 8) =~= header_bytes(PacketType::StylusFrame));
    lemma_header_decodes(PacketType::StylusFrame, s);
}

proof fn lemma_packet_gesture(f: GestureFrame)
    requires
        crate::protocol::codec::spec_validate_gesture(f) is Ok,
    ensures
        spec_decode_packet(spec_encode_gesture(f)) == Ok::<_, ProtocolError>(
            PacketModel::GestureFrame(f),
        ),
{
    let s = spec_encode_gesture(f);
    lemma_gesture_round_trip(f);
    assert(s.subrange(0, 4) =~= u32_le_bytes(PROTOCOL_MAGIC));
    lemma_read_u32_at(s, 0, PROTOCOL_MAGIC);
}

/// Decoding what `encode_packet` wrote gives back the packet: every packet
/// that passes its checks, and whose text fields fit their fixed fields
/// without NUL characters, survives the trip through the wire format.
pub proof fn law_packet_round_trip(p: PacketModel)
    requires
        spec_validate_packet(p) is Ok,
        packet_text_fits(p),
    ensures
        spec_decode_packet(spec_encode_packet(p)) == Ok::<_, ProtocolError>(p),
{
    match p {
        PacketModel::HandshakeRequest(m) => lemma_packet_request(m),
        PacketModel::HandshakeResponse(m) => lemma_packet_response(m),
        PacketModel::HandshakeError(m) => lemma_packet_error(m),
        PacketModel::SessionDisconnect(m) => lemma_packet_disconnect(m),
        PacketModel::StylusFrame(f) => lemma_packet_stylus(f),
        PacketModel::GestureFrame(f) => lemma_packet_gesture(f),
    }
}

/// Every byte string that decodes to a packet is exactly what encoding that
/// packet writes: the wire format has one spelling per packet.
pub proof fn law_packet_canonical(b: Seq<u8>)
    requires
        spec_decode_packet(b) is Ok,
    ensures
        spec_encode_packet(spec_decode_packet(b)->Ok_0) == b,
{
    match PacketType::spec_from_code(b[4]) {
        Some(PacketType::HandshakeRequest) => lemma_request_canonical(b),
        Some(PacketType::HandshakeResponse) => lemma_response_canonical(b),
        Some(PacketType::HandshakeError) => lemma_error_canonical(b),
        Some(PacketType::SessionDisconnect) => lemma_disconnect_canonical(b),
        Some(PacketType::StylusFrame) => lemma_stylus_canonical(b),
        Some(PacketType::GestureFrame) => lemma_gesture_canonical(b),
        None => {},
    }
}

/// A packet that decodes passes the checks that encoding performs, so it can
/// always be sent back out.
pub proof fn law_decoded_packet_is_valid(b: Seq<u8>)
    requires
        spec_decode_packet(b) is Ok,
    ensures
        spec_validate_packet(spec_decode_packet(b)->Ok_0) is Ok,
{
}

} // verus!
