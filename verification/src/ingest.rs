use vstd::prelude::*;

use crate::protocol::codec::{decode_packet, spec_decode_packet};
use crate::protocol::model::{GestureFrame, Packet, PacketModel, StylusFrame};
use crate::session::{
    spec_accept_realtime, spec_udp_disconnect, ActiveSessionModel, DisconnectDisposition,
    DisconnectDispositionModel, Ipv4Address, RealtimeFrameDisposition,
    RealtimeFrameDispositionModel, SessionService,
};

verus! {

/// The UDP port realtime frames arrive on.
pub const STYLUS_DATA_PORT: u16 = 48563;

/// The largest datagram the server reads.
pub const MAX_PACKET_SIZE: usize = 256;

/// A realtime event accepted for the session in progress.
#[derive(Debug, Clone, PartialEq, Eq)]
pub enum IncomingEvent {
    Stylus { session_id: String, source_ip: Ipv4Address, frame: StylusFrame },
    Gesture { session_id: String, source_ip: Ipv4Address, frame: GestureFrame },
    SessionEnded { session_id: String, source_ip: Ipv4Address },
}

pub enum IncomingEventModel {
    Stylus { session_id: Seq<char>, source_ip: Ipv4Address, frame: StylusFrame },
    Gesture { session_id: Seq<char>, source_ip: Ipv4Address, frame: GestureFrame },
    SessionEnded { session_id: Seq<char>, source_ip: Ipv4Address },
}

impl View for IncomingEvent {
    type V = IncomingEventModel;

    open spec fn view(&self) -> IncomingEventModel {
        match self {
            IncomingEvent::Stylus { session_id, source_ip, frame } => IncomingEventModel::Stylus {
                session_id: session_id@,
                source_ip: *source_ip,
                frame: *frame,
            },
            IncomingEvent::Gesture { session_id, source_ip, frame } => IncomingEventModel::Gesture {
                session_id: session_id@,
                source_ip: *source_ip,
                frame: *frame,
            },
            IncomingEvent::SessionEnded { session_id, source_ip } => IncomingEventModel::SessionEnded {
                session_id: session_id@,
                source_ip: *source_ip,
            },
        }
    }
}

/// What a datagram from `source_ip` does to the session and which event it
/// yields: stylus and gesture frames pass when they come from the session's
/// address, a matching disconnect ends the session, and anything else,
/// undecodable bytes included, is dropped.
pub open spec fn spec_ingest(
    state: Option<ActiveSessionModel>,
    source_ip: Ipv4Address,
    bytes: Seq<u8>,
) -> (Option<ActiveSessionModel>, Option<IncomingEventModel>) {
    match spec_decode_packet(bytes) {
        Ok(PacketModel::StylusFrame(frame)) => match spec_accept_realtime(state, source_ip) {
            RealtimeFrameDispositionModel::Accepted { session_id } => (
                state,
                Some(IncomingEventModel::Stylus { session_id, source_ip, frame }),
            ),
            _ => (state, None),
        },
        Ok(PacketModel::GestureFrame(frame)) => match spec_accept_realtime(state, source_ip) {
            RealtimeFrameDispositionModel::Accepted { session_id } => (
                state,
                Some(IncomingEventModel::Gesture { session_id, source_ip, frame }),
            ),
            _ => (state, None),
        },
        Ok(PacketModel::SessionDisconnect(packet)) => {
            let (next, disposition) = spec_udp_disconnect(state, source_ip, packet.session_id);
            match disposition {
                DisconnectDispositionModel::Released { session_id, .. } => (
                    next,
                    Some(IncomingEventModel::SessionEnded { session_id, source_ip }),
                ),
                _ => (next, None),
            }
        },
        _ => (state, None),
    }
}

/// Handles one datagram; see [`spec_ingest`].
pub fn ingest_datagram(session: &mut SessionService, source_ip: Ipv4Address, bytes: &[u8]) -> (r:
    Option<IncomingEvent>)
    ensures
        ({
            let (next, event) = spec_ingest(old(session)@, source_ip, bytes@);
            &&& final(session)@ == next
            &&& match r {
                Some(e) => event == Some(e@),
                None => event is None,
            }
        }),
{
    let packet = match decode_packet(bytes) {
        Ok(packet) => packet,
        Err(_) => {
            return None;
        },
    };
    match packet {
        Packet::StylusFrame(frame) => match session.accept_realtime_source(source_ip) {
            RealtimeFrameDisposition::Accepted { session_id } => Some(
                IncomingEvent::Stylus { session_id, source_ip, frame },
            ),
            _ => None,
        },
        Packet::GestureFrame(frame) => match session.accept_realtime_source(source_ip) {
            RealtimeFrameDisposition::Accepted { session_id } => Some(
                IncomingEvent::Gesture { session_id, source_ip, frame },
            ),
            _ => None,
        },
        Packet::SessionDisconnect(packet) => match session.handle_udp_disconnect(source_ip, &packet) {
            DisconnectDisposition::Released { session_id, .. } => Some(
                IncomingEvent::SessionEnded { session_id, source_ip },
            ),
            _ => None,
        },
        _ => None,
    }
}

} // verus!
