use vstd::prelude::*;

use crate::error::{AppError, AppErrorModel};
use crate::protocol::codec::{decode_header, decode_packet, encode_packet, spec_decode_header, spec_decode_packet};
use crate::protocol::model::{
    DesktopUnit, HandshakeError, HandshakeErrorCode, HandshakeErrorModel, HandshakeRequestModel,
    HandshakeResponse, HandshakeResponseModel, Packet, PacketModel, PacketType,
};
use crate::protocol::ProtocolError;
use crate::session::{is_simple_uuid_text, ActiveSessionModel, Ipv4Address, SessionService};
use crate::text::string_of;
use crate::workspace::ActiveWorkspace;

verus! {

/// The TCP port the handshake is served on.
pub const HANDSHAKE_PORT: u16 = 48562;

/// A handshake error with a fixed message.
pub open spec fn spec_handshake_error(code: HandshakeErrorCode, message: Seq<char>) -> HandshakeErrorModel {
    HandshakeErrorModel { error_code: code, message }
}

/// What a handshake request turns into before any session is touched: the
/// request itself, or the error the client is answered with.
pub open spec fn spec_handshake_request(bytes: Seq<u8>) -> Result<HandshakeRequestModel, HandshakeErrorModel> {
    match spec_decode_header(bytes) {
        Ok(header) => if header.packet_type != PacketType::HandshakeRequest {
            Err(spec_handshake_error(HandshakeErrorCode::InvalidRequest, "expected handshake request"@))
        } else {
            match spec_decode_packet(bytes) {
                Ok(PacketModel::HandshakeRequest(request)) => Ok(request),
                Ok(_) => Err(
                    spec_handshake_error(HandshakeErrorCode::InvalidRequest, "expected handshake request"@),
                ),
                Err(ProtocolError::UnsupportedProtocolVersion(_)) => Err(
                    spec_handshake_error(
                        HandshakeErrorCode::UnsupportedProtocol,
                        "unsupported protocol version"@,
                    ),
                ),
                Err(_) => Err(
                    spec_handshake_error(HandshakeErrorCode::InvalidRequest, "invalid handshake request"@),
                ),
            }
        },
        Err(ProtocolError::UnsupportedProtocolVersion(_)) => Err(
            spec_handshake_error(HandshakeErrorCode::UnsupportedProtocol, "unsupported protocol version"@),
        ),
        Err(_) => Err(
            spec_handshake_error(HandshakeErrorCode::InvalidRequest, "invalid handshake header"@),
        ),
    }
}

/// How a server error is reported to the client.
pub open spec fn spec_error_to_handshake(error: AppErrorModel) -> HandshakeErrorModel {
    match error {
        AppErrorModel::SessionAlreadyActive => spec_handshake_error(
            HandshakeErrorCode::AlreadyConnected,
            "session already active"@,
        ),
        AppErrorModel::Workspace(_) => spec_handshake_error(
            HandshakeErrorCode::NoActiveWorkspace,
            "no active workspace is available"@,
        ),
        _ => spec_handshake_error(HandshakeErrorCode::InternalError, "internal server error"@),
    }
}

/// A handshake error with a fixed message.
pub fn handshake_error(code: HandshakeErrorCode, message: &'static str) -> (r: HandshakeError)
    ensures
        r@ == spec_handshake_error(code, message@),
{
    HandshakeError { error_code: code, message: string_of(message) }
}

/// How a server error is reported to the client.
pub fn map_app_error_to_handshake(error: &AppError) -> (r: HandshakeError)
    ensures
        r@ == spec_error_to_handshake(error@),
{
    match error {
        AppError::SessionAlreadyActive => handshake_error(
            HandshakeErrorCode::AlreadyConnected,
            "session already active",
        ),
        AppError::Workspace(_) => handshake_error(
            HandshakeErrorCode::NoActiveWorkspace,
            "no active workspace is available",
        ),
        _ => handshake_error(HandshakeErrorCode::InternalError, "internal server error"),
    }
}

/// Decodes a handshake request, or says what the client is answered with.
pub fn parse_handshake_request(request_bytes: &[u8]) -> (r: Result<
    crate::protocol::model::HandshakeRequest,
    HandshakeError,
>)
    ensures
        match r {
            Ok(request) => spec_handshake_request(request_bytes@) == Ok::<_, HandshakeErrorModel>(
                request@,
            ),
            Err(e) => spec_handshake_request(request_bytes@) == Err::<HandshakeRequestModel, _>(e@),
        },
{
    match decode_header(request_bytes) {
        Ok(header) => {
            if header.packet_type != PacketType::HandshakeRequest {
                return Err(handshake_error(HandshakeErrorCode::InvalidRequest, "expected handshake request"));
            }
        },
        Err(ProtocolError::UnsupportedProtocolVersion(_)) => {
            return Err(
                handshake_error(HandshakeErrorCode::UnsupportedProtocol, "unsupported protocol version"),
            );
        },
        Err(_) => {
            return Err(handshake_error(HandshakeErrorCode::InvalidRequest, "invalid handshake header"));
        },
    }
    match decode_packet(request_bytes) {
        Ok(Packet::HandshakeRequest(request)) => Ok(request),
        Ok(_) => Err(handshake_error(HandshakeErrorCode::InvalidRequest, "expected handshake request")),
        Err(ProtocolError::UnsupportedProtocolVersion(_)) => Err(
            handshake_error(HandshakeErrorCode::UnsupportedProtocol, "unsupported protocol version"),
        ),
        Err(_) => Err(handshake_error(HandshakeErrorCode::InvalidRequest, "invalid handshake request")),
    }
}

/// Answers a handshake request from `peer_ip`: a valid request, with a
/// workspace in use and no session in progress, opens a session under a fresh
/// identifier and is answered with the size of the monitor in pixels; anything
/// else is answered with an error and leaves the session as it was.
pub fn build_handshake_response(
    request_bytes: &[u8],
    workspace: &Result<ActiveWorkspace, AppError>,
    session: &mut SessionService,
    peer_ip: Ipv4Address,
) -> (r: Result<HandshakeResponse, HandshakeError>)
    ensures
        match spec_handshake_request(request_bytes@) {
            Err(e) => (r matches Err(x) && x@ == e) && final(session)@ == old(session)@,
            Ok(request) => match workspace {
                Err(w) => (r matches Err(e) && e@ == spec_error_to_handshake(w@)) && final(session)@
                    == old(session)@,
                Ok(active) => if old(session)@ is Some {
                    (r matches Err(e) && e@ == spec_error_to_handshake(AppErrorModel::SessionAlreadyActive))
                        && final(session)@ == old(session)@
                } else {
                    r matches Ok(response) && final(session)@ matches Some(s) && s.client_id
                        == request.client_id && s.peer_ip == peer_ip && is_simple_uuid_text(
                        s.session_id,
                    ) && response@ == (HandshakeResponseModel {
                        session_id: s.session_id,
                        desktop_width_px: active.monitor.pixel_width,
                        desktop_height_px: active.monitor.pixel_height,
                        desktop_unit: DesktopUnit::Pixel,
                    })
                },
            },
        },
{
    let request = match parse_handshake_request(request_bytes) {
        Ok(request) => request,
        Err(e) => {
            return Err(e);
        },
    };
    let (width, height) = match workspace {
        Ok(active) => (active.monitor.pixel_width, active.monitor.pixel_height),
        Err(e) => {
            return Err(map_app_error_to_handshake(e));
        },
    };
    let session_id = match session.create_session(request.client_id, peer_ip) {
        Ok(active) => string_of(active.session_id().as_str()),
        Err(e) => {
            return Err(map_app_error_to_handshake(&e));
        },
    };
    Ok(
        HandshakeResponse {
            session_id,
            desktop_width_px: width,
            desktop_height_px: height,
            desktop_unit: DesktopUnit::Pixel,
        },
    )
}

/// The packet a handshake is answered with.
pub open spec fn spec_reply_packet(reply: Result<HandshakeResponseModel, HandshakeErrorModel>) -> PacketModel {
    match reply {
        Ok(response) => PacketModel::HandshakeResponse(response),
        Err(error) => PacketModel::HandshakeError(error),
    }
}

/// Answers a handshake request with the bytes of the reply packet; see
/// [`build_handshake_response`]. A reply that cannot be encoded is an error.
pub fn handle_request_bytes(
    request_bytes: &[u8],
    workspace: &Result<ActiveWorkspace, AppError>,
    session: &mut SessionService,
    peer_ip: Ipv4Address,
) -> (r: Result<Vec<u8>, AppError>)
    ensures
        exists|reply: Result<HandshakeResponseModel, HandshakeErrorModel>|
            #![trigger spec_reply_packet(reply)]
            {
                &&& match r {
                    Ok(bytes) => crate::protocol::codec::spec_validate_packet(spec_reply_packet(reply))
                        is Ok && bytes@ == crate::protocol::codec::spec_encode_packet(
                        spec_reply_packet(reply),
                    ),
                    Err(e) => crate::protocol::codec::spec_validate_packet(spec_reply_packet(reply))
                        matches Err(pe) && e@ == AppErrorModel::Protocol(pe),
                }
                &&& match spec_handshake_request(request_bytes@) {
                    Err(e) => reply == Err::<HandshakeResponseModel, _>(e) && final(session)@ == old(
                        session,
                    )@,
                    Ok(request) => match workspace {
                        Err(w) => reply == Err::<HandshakeResponseModel, _>(
                            spec_error_to_handshake(w@),
                        ) && final(session)@ == old(session)@,
                        Ok(active) => if old(session)@ is Some {
                            reply == Err::<HandshakeResponseModel, _>(
                                spec_error_to_handshake(AppErrorModel::SessionAlreadyActive),
                            ) && final(session)@ == old(session)@
                        } else {
                            final(session)@ matches Some(s) && s.client_id == request.client_id
                                && s.peer_ip == peer_ip && is_simple_uuid_text(s.session_id)
                                && reply == Ok::<_, HandshakeErrorModel>(
                                HandshakeResponseModel {
                                    session_id: s.session_id,
                                    desktop_width_px: active.monitor.pixel_width,
                                    desktop_height_px: active.monitor.pixel_height,
                                    desktop_unit: DesktopUnit::Pixel,
                                },
                            )
                        },
                    },
                }
            },
{
    let reply = build_handshake_response(request_bytes, workspace, session, peer_ip);
    let ghost reply_model = match &reply {
        Ok(resp) => Ok::<HandshakeResponseModel, HandshakeErrorModel>(resp@),
        Err(e) => Err(e@),
    };
    let packet = match reply {
        Ok(response) => Packet::HandshakeResponse(response),
        Err(error) => Packet::HandshakeError(error),
    };
    assert(packet@ == spec_reply_packet(reply_model));
    match encode_packet(&packet) {
        Ok(bytes) => Ok(bytes),
        Err(e) => Err(AppError::Protocol(e)),
    }
}

} // verus!
