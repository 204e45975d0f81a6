use vstd::prelude::*;

use crate::error::{AppError, AppErrorModel};
use crate::protocol::constants::SESSION_ID_LEN;
use crate::protocol::model::SessionDisconnect;
use crate::shortcut::profile::is_lower_hex;
use crate::text::str_eq;
use vstd::utf8::{encode_utf8, is_ascii_chars, is_ascii_chars_encode_utf8};

verus! {

/// An IPv4 address, by its four octets.
#[derive(Debug, Clone, Copy, PartialEq, Eq, Hash, Structural)]
pub struct Ipv4Address {
    pub a: u8,
    pub b: u8,
    pub c: u8,
    pub d: u8,
}

impl Ipv4Address {
    pub fn new(a: u8, b: u8, c: u8, d: u8) -> (r: Self)
        ensures
            r == (Ipv4Address { a, b, c, d }),
    {
        Ipv4Address { a, b, c, d }
    }

    pub fn octets(&self) -> (r: [u8; 4])
        ensures
            r@ == seq![self.a, self.b, self.c, self.d],
    {
        let r = [self.a, self.b, self.c, self.d];
        assert(r@ =~= seq![self.a, self.b, self.c, self.d]);
        r
    }
}

/// The number of bytes `s` takes in UTF-8.
pub open spec fn utf8_len(s: Seq<char>) -> nat {
    encode_utf8(s).len()
}

/// A session identifier: non-empty text of at most the protocol's 64 bytes.
#[derive(Debug, Clone, PartialEq, Eq)]
pub struct SessionId(String);

impl View for SessionId {
    type V = Seq<char>;

    closed spec fn view(&self) -> Seq<char> {
        self.0@
    }
}

/// The error for an empty session identifier.
pub open spec fn empty_session_id_error() -> AppErrorModel {
    AppErrorModel::InvalidSessionId("session id must not be empty"@)
}

/// The error for a session identifier longer than the protocol allows.
pub open spec fn oversized_session_id_error() -> AppErrorModel {
    AppErrorModel::InvalidSessionId("session id exceeds protocol limit"@)
}

/// The simple text form of a UUID: 32 lower-case hex digits.
pub open spec fn is_simple_uuid_text(s: Seq<char>) -> bool {
    s.len() == 32 && forall|i: int| 0 <= i < 32 ==> is_lower_hex(#[trigger] s[i])
}

/// `uuid::Uuid::new_v4` formatted by `simple().to_string()`: a fresh random
/// identifier of 32 lower-case hex digits. Which one comes back is left open.
#[verifier::external_body]
fn random_simple_uuid_text() -> (r: String)
    ensures
        is_simple_uuid_text(r@),
{
    uuid::Uuid::new_v4().simple().to_string()
}

impl SessionId {
    /// Accepts `value` as an identifier if it is not empty and fits the protocol field.
    pub fn new(value: String) -> (r: Result<SessionId, AppError>)
        ensures
            utf8_len(value@) == 0 ==> (r matches Err(e) && e@ == empty_session_id_error()),
            utf8_len(value@) > SESSION_ID_LEN ==> (r matches Err(e) && e@
                == oversized_session_id_error()),
            0 < utf8_len(value@) <= SESSION_ID_LEN ==> (r matches Ok(id) && id@ == value@),
    {
        if value.as_str().is_empty() {
            proof {
                vstd::utf8::encode_utf8_decode_utf8(value@);
            }
            return Err(AppError::InvalidSessionId("session id must not be empty"));
        }
        proof {
            if value@.len() > 0 {
                vstd::utf8::encode_utf8_first_scalar(value@);
            }
        }
        if value.as_str().as_bytes().len() > SESSION_ID_LEN {
            return Err(AppError::InvalidSessionId("session id exceeds protocol limit"));
        }
        Ok(SessionId(value))
    }

    /// A fresh random identifier of 32 lower-case hex digits.
    pub fn generate() -> (r: Result<SessionId, AppError>)
        ensures
            r matches Ok(id) && is_simple_uuid_text(id@),
    {
        let text = random_simple_uuid_text();
        proof {
            assert(is_ascii_chars(text@)) by {
                assert forall|i: int| 0 <= i < text@.len() implies '\0' <= #[trigger] text@[i]
                    <= '\u{7f}' by {
                    assert(is_lower_hex(text@[i]));
                }
            }
            is_ascii_chars_encode_utf8(text@);
        }
        SessionId::new(text)
    }

    pub fn as_str(&self) -> (r: &str)
        ensures
            r@ == self@,
    {
        self.0.as_str()
    }
}

/// The session in progress: its identifier, the client that opened it, and
/// the address its handshake came from.
#[derive(Debug, Clone, PartialEq, Eq)]
pub struct ActiveSession {
    session_id: SessionId,
    client_id: String,
    peer_ip: Ipv4Address,
}

pub struct ActiveSessionModel {
    pub session_id: Seq<char>,
    pub client_id: Seq<char>,
    pub peer_ip: Ipv4Address,
}

impl View for ActiveSession {
    type V = ActiveSessionModel;

    closed spec fn view(&self) -> ActiveSessionModel {
        ActiveSessionModel {
            session_id: self.session_id@,
            client_id: self.client_id@,
            peer_ip: self.peer_ip,
        }
    }
}

impl ActiveSession {
    pub fn session_id(&self) -> (r: &SessionId)
        ensures
            r@ == self@.session_id,
    {
        &self.session_id
    }

    pub fn client_id(&self) -> (r: &str)
        ensures
            r@ == self@.client_id,
    {
        self.client_id.as_str()
    }

    pub fn peer_ip(&self) -> (r: Ipv4Address)
        ensures
            r == self@.peer_ip,
    {
        self.peer_ip
    }

    pub fn duplicate(&self) -> (r: Self)
        ensures
            r@ == self@,
    {
        ActiveSession {
            session_id: SessionId(self.session_id.0.clone()),
            client_id: self.client_id.clone(),
            peer_ip: self.peer_ip,
        }
    }
}

/// What became of a realtime frame.
#[derive(Debug, Clone, PartialEq, Eq)]
pub enum RealtimeFrameDisposition {
    Accepted { session_id: String },
    IgnoredNoActiveSession,
    IgnoredSourceIpMismatch { bound_ip: Ipv4Address },
}

pub enum RealtimeFrameDispositionModel {
    Accepted { session_id: Seq<char> },
    IgnoredNoActiveSession,
    IgnoredSourceIpMismatch { bound_ip: Ipv4Address },
}

impl View for RealtimeFrameDisposition {
    type V = RealtimeFrameDispositionModel;

    open spec fn view(&self) -> RealtimeFrameDispositionModel {
        match self {
            RealtimeFrameDisposition::Accepted { session_id } => RealtimeFrameDispositionModel::Accepted {
                session_id: session_id@,
            },
            RealtimeFrameDisposition::IgnoredNoActiveSession => RealtimeFrameDispositionModel::IgnoredNoActiveSession,
            RealtimeFrameDisposition::IgnoredSourceIpMismatch { bound_ip } => RealtimeFrameDispositionModel::IgnoredSourceIpMismatch {
                bound_ip: *bound_ip,
            },
        }
    }
}

/// What became of a disconnect packet.
#[derive(Debug, Clone, PartialEq, Eq)]
pub enum DisconnectDisposition {
    Released { session_id: String, peer_ip: Ipv4Address },
    IgnoredNoActiveSession,
    IgnoredSessionIdMismatch,
    IgnoredSourceIpMismatch { bound_ip: Ipv4Address },
}

pub enum DisconnectDispositionModel {
    Released { session_id: Seq<char>, peer_ip: Ipv4Address },
    IgnoredNoActiveSession,
    IgnoredSessionIdMismatch,
    IgnoredSourceIpMismatch { bound_ip: Ipv4Address },
}

impl View for DisconnectDisposition {
    type V = DisconnectDispositionModel;

    open spec fn view(&self) -> DisconnectDispositionModel {
        match self {
            DisconnectDisposition::Released { session_id, peer_ip } => DisconnectDispositionModel::Released {
                session_id: session_id@,
                peer_ip: *peer_ip,
            },
            DisconnectDisposition::IgnoredNoActiveSession => DisconnectDispositionModel::IgnoredNoActiveSession,
            DisconnectDisposition::IgnoredSessionIdMismatch => DisconnectDispositionModel::IgnoredSessionIdMismatch,
            DisconnectDisposition::IgnoredSourceIpMismatch { bound_ip } => DisconnectDispositionModel::IgnoredSourceIpMismatch {
                bound_ip: *bound_ip,
            },
        }
    }
}

/// What became of a local request to end the session.
#[derive(Debug, Clone, PartialEq, Eq)]
pub enum LocalDisconnectDisposition {
    Released { session_id: String, peer_ip: Ipv4Address },
    AlreadyInactive,
}

pub enum LocalDisconnectDispositionModel {
    Released { session_id: Seq<char>, peer_ip: Ipv4Address },
    AlreadyInactive,
}

impl View for LocalDisconnectDisposition {
    type V = LocalDisconnectDispositionModel;

    open spec fn view(&self) -> LocalDisconnectDispositionModel {
        match self {
            LocalDisconnectDisposition::Released { session_id, peer_ip } => LocalDisconnectDispositionModel::Released {
                session_id: session_id@,
                peer_ip: *peer_ip,
            },
            LocalDisconnectDisposition::AlreadyInactive => LocalDisconnectDispositionModel::AlreadyInactive,
        }
    }
}

/// The one session the server holds at a time, if any.
#[derive(Debug, Default)]
pub struct SessionService {
    active: Option<ActiveSession>,
}

impl View for SessionService {
    type V = Option<ActiveSessionModel>;

    closed spec fn view(&self) -> Option<ActiveSessionModel> {
        match self.active {
            Some(a) => Some(a@),
            None => None,
        }
    }
}

/// A realtime frame from `source_ip`: accepted from the address of the
/// session's handshake, ignored otherwise. The session is left as it is.
pub open spec fn spec_accept_realtime(state: Option<ActiveSessionModel>, source_ip: Ipv4Address) -> RealtimeFrameDispositionModel {
    match state {
        None => RealtimeFrameDispositionModel::IgnoredNoActiveSession,
        Some(a) => if a.peer_ip != source_ip {
            RealtimeFrameDispositionModel::IgnoredSourceIpMismatch { bound_ip: a.peer_ip }
        } else {
            RealtimeFrameDispositionModel::Accepted { session_id: a.session_id }
        },
    }
}

/// A disconnect packet naming `session_id` from `source_ip`: it ends the
/// session only if both the identifier and the address match.
pub open spec fn spec_udp_disconnect(
    state: Option<ActiveSessionModel>,
    source_ip: Ipv4Address,
    session_id: Seq<char>,
) -> (Option<ActiveSessionModel>, DisconnectDispositionModel) {
    match state {
        None => (state, DisconnectDispositionModel::IgnoredNoActiveSession),
        Some(a) => if a.session_id != session_id {
            (state, DisconnectDispositionModel::IgnoredSessionIdMismatch)
        } else if a.peer_ip != source_ip {
            (state, DisconnectDispositionModel::IgnoredSourceIpMismatch { bound_ip: a.peer_ip })
        } else {
            (
                None,
                DisconnectDispositionModel::Released { session_id: a.session_id, peer_ip: a.peer_ip },
            )
        },
    }
}

/// Ending the session from the desktop side.
pub open spec fn spec_disconnect_locally(state: Option<ActiveSessionModel>) -> (
    Option<ActiveSessionModel>,
    LocalDisconnectDispositionModel,
) {
    match state {
        None => (None, LocalDisconnectDispositionModel::AlreadyInactive),
        Some(a) => (
            None,
            LocalDisconnectDispositionModel::Released { session_id: a.session_id, peer_ip: a.peer_ip },
        ),
    }
}

impl SessionService {
    pub fn new() -> (r: Self)
        ensures
            r@ is None,
    {
        SessionService { active: None }
    }

    pub fn has_active_session(&self) -> (r: bool)
        ensures
            r == (self@ is Some),
    {
        self.active.is_some()
    }

    /// The session in progress, if any.
    pub fn active(&self) -> (r: Option<&ActiveSession>)
        ensures
            match r {
                Some(a) => self@ == Some(a@),
                None => self@ is None,
            },
    {
        match &self.active {
            Some(a) => Some(a),
            None => None,
        }
    }

    /// Opens a session for `client_id` at `peer_ip` under a fresh random
    /// identifier; refused while another session is in progress.
    pub fn create_session(&mut self, client_id: String, peer_ip: Ipv4Address) -> (r: Result<
        &ActiveSession,
        AppError,
    >)
        ensures
            old(self)@ is Some ==> (r matches Err(e) && e@ == AppErrorModel::SessionAlreadyActive
                && final(self)@ == old(self)@),
            old(self)@ is None ==> (r matches Ok(a) && final(self)@ == Some(a@) && a@.client_id
                == client_id@ && a@.peer_ip == peer_ip && is_simple_uuid_text(a@.session_id)),
    {
        if self.active.is_some() {
            return Err(AppError::SessionAlreadyActive);
        }
        let session_id = match SessionId::generate() {
            Ok(id) => id,
            Err(e) => {
                return Err(e);
            },
        };
        self.active = Some(ActiveSession { session_id, client_id, peer_ip });
        match &self.active {
            Some(a) => Ok(a),
            None => Err(AppError::SessionAlreadyActive),
        }
    }

    /// Decides whether a realtime frame from `source_ip` belongs to the session.
    pub fn accept_realtime_source(&mut self, source_ip: Ipv4Address) -> (r: RealtimeFrameDisposition)
        ensures
            final(self)@ == old(self)@,
            r@ == spec_accept_realtime(old(self)@, source_ip),
    {
        match &self.active {
            None => RealtimeFrameDisposition::IgnoredNoActiveSession,
            Some(active) => {
                if active.peer_ip != source_ip {
                    RealtimeFrameDisposition::IgnoredSourceIpMismatch { bound_ip: active.peer_ip }
                } else {
                    RealtimeFrameDisposition::Accepted {
                        session_id: crate::text::string_of(active.session_id.as_str()),
                    }
                }
            },
        }
    }

    /// Ends the session if `packet` names it and comes from its address.
    pub fn handle_udp_disconnect(&mut self, source_ip: Ipv4Address, packet: &SessionDisconnect) -> (r:
        DisconnectDisposition)
        ensures
            (final(self)@, r@) == spec_udp_disconnect(old(self)@, source_ip, packet.session_id@),
    {
        let (session_id, peer_ip) = match &self.active {
            None => {
                return DisconnectDisposition::IgnoredNoActiveSession;
            },
            Some(active) => {
                if !str_eq(active.session_id.as_str(), packet.session_id.as_str()) {
                    return DisconnectDisposition::IgnoredSessionIdMismatch;
                }
                if active.peer_ip != source_ip {
                    return DisconnectDisposition::IgnoredSourceIpMismatch {
                        bound_ip: active.peer_ip,
                    };
                }
                (crate::text::string_of(active.session_id.as_str()), active.peer_ip)
            },
        };
        self.active = None;
        DisconnectDisposition::Released { session_id, peer_ip }
    }

    /// Ends the session, if one is in progress.
    pub fn disconnect_locally(&mut self) -> (r: LocalDisconnectDisposition)
        ensures
            (final(self)@, r@) == spec_disconnect_locally(old(self)@),
    {
        match self.active.take() {
            None => LocalDisconnectDisposition::AlreadyInactive,
            Some(active) => LocalDisconnectDisposition::Released {
                session_id: crate::text::string_of(active.session_id.as_str()),
                peer_ip: active.peer_ip,
            },
        }
    }
}

/// Realtime frames from the handshake address of a session are accepted, for
/// that session, as often as they come; frames from another address are not.
pub proof fn law_realtime_frames_follow_the_handshake_address(
    session: ActiveSessionModel,
    other_ip: Ipv4Address,
)
    ensures
        spec_accept_realtime(Some(session), session.peer_ip)
            == (RealtimeFrameDispositionModel::Accepted { session_id: session.session_id }),
        other_ip != session.peer_ip ==> spec_accept_realtime(Some(session), other_ip)
            == (RealtimeFrameDispositionModel::IgnoredSourceIpMismatch { bound_ip: session.peer_ip }),
{
}

/// A disconnect that names the session and comes from its address ends it,
/// and a new session can then be opened; any other disconnect leaves it in place.
pub proof fn law_only_a_matching_disconnect_ends_the_session(
    session: ActiveSessionModel,
    source_ip: Ipv4Address,
    session_id: Seq<char>,
)
    ensures
        spec_udp_disconnect(Some(session), session.peer_ip, session.session_id) == (
            None::<ActiveSessionModel>,
            DisconnectDispositionModel::Released {
                session_id: session.session_id,
                peer_ip: session.peer_ip,
            },
        ),
        (source_ip != session.peer_ip || session_id != session.session_id) ==> spec_udp_disconnect(
            Some(session),
            source_ip,
            session_id,
        ).0 == Some(session),
{
}

/// Ending the session locally always leaves no session, and a second request finds none.
pub proof fn law_local_disconnect_is_final(state: Option<ActiveSessionModel>)
    ensures
        spec_disconnect_locally(state).0 is None,
        spec_disconnect_locally(spec_disconnect_locally(state).0).1
            == LocalDisconnectDispositionModel::AlreadyInactive,
{
}

/// What the desktop shell is told when a session starts or ends.
#[derive(Debug, Clone, Copy, PartialEq, Eq, Structural)]
pub struct SessionStatusEvent {
    pub has_active_session: bool,
}

} // verus!
