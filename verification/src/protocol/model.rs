use vstd::prelude::*;

use crate::protocol::constants::{PROTOCOL_MAGIC, PROTOCOL_VERSION, STYLUS_FLAGS_RESERVED_MASK};

verus! {

/// The eight bytes that open every packet except the gesture frame.
#[derive(Debug, Clone, Copy, PartialEq, Eq, Structural)]
pub struct PacketHeader {
    pub magic: u32,
    pub packet_type: PacketType,
    pub protocol_version: u8,
    pub reserved: u16,
}

impl PacketHeader {
    pub fn new(packet_type: PacketType) -> (r: Self)
        ensures
            r == (PacketHeader {
                magic: PROTOCOL_MAGIC,
                packet_type,
                protocol_version: PROTOCOL_VERSION,
                reserved: 0,
            }),
    {
        PacketHeader { magic: PROTOCOL_MAGIC, packet_type, protocol_version: PROTOCOL_VERSION, reserved: 0 }
    }
}

#[derive(Debug, Clone, Copy, PartialEq, Eq, Structural)]
pub enum PacketType {
    HandshakeRequest,
    HandshakeResponse,
    HandshakeError,
    SessionDisconnect,
    StylusFrame,
    GestureFrame,
}

impl PacketType {
    /// The wire code of the packet type.
    pub open spec fn spec_code(self) -> u8 {
        match self {
            PacketType::HandshakeRequest => 1,
            PacketType::HandshakeResponse => 2,
            PacketType::HandshakeError => 3,
            PacketType::SessionDisconnect => 4,
            PacketType::StylusFrame => 5,
            PacketType::GestureFrame => 6,
        }
    }

    pub open spec fn spec_from_code(value: u8) -> Option<PacketType> {
        if value == 1 {
            Some(PacketType::HandshakeRequest)
        } else if value == 2 {
            Some(PacketType::HandshakeResponse)
        } else if value == 3 {
            Some(PacketType::HandshakeError)
        } else if value == 4 {
            Some(PacketType::SessionDisconnect)
        } else if value == 5 {
            Some(PacketType::StylusFrame)
        } else if value == 6 {
            Some(PacketType::GestureFrame)
        } else {
            None
        }
    }

    pub fn code(self) -> (r: u8)
        ensures
            r == self.spec_code(),
    {
        match self {
            PacketType::HandshakeRequest => 1,
            PacketType::HandshakeResponse => 2,
            PacketType::HandshakeError => 3,
            PacketType::SessionDisconnect => 4,
            PacketType::StylusFrame => 5,
            PacketType::GestureFrame => 6,
        }
    }

    pub fn from_code(value: u8) -> (r: Option<PacketType>)
        ensures
            r == Self::spec_from_code(value),
    {
        match value {
            1 => Some(PacketType::HandshakeRequest),
            2 => Some(PacketType::HandshakeResponse),
            3 => Some(PacketType::HandshakeError),
            4 => Some(PacketType::SessionDisconnect),
            5 => Some(PacketType::StylusFrame),
            6 => Some(PacketType::GestureFrame),
            _ => None,
        }
    }

    pub proof fn lemma_code_round_trip(self)
        ensures
            Self::spec_from_code(self.spec_code()) == Some(self),
    {
    }
}

#[derive(Debug, Clone, Copy, PartialEq, Eq, Structural)]
pub enum DesktopUnit {
    Pixel,
}

impl DesktopUnit {
    pub open spec fn spec_code(self) -> u8 {
        1
    }

    pub open spec fn spec_from_code(value: u8) -> Option<DesktopUnit> {
        if value == 1 {
            Some(DesktopUnit::Pixel)
        } else {
            None
        }
    }

    pub fn code(self) -> (r: u8)
        ensures
            r == self.spec_code(),
    {
        1
    }

    pub fn from_code(value: u8) -> (r: Option<DesktopUnit>)
        ensures
            r == Self::spec_from_code(value),
    {
        if value == 1 {
            Some(DesktopUnit::Pixel)
        } else {
            None
        }
    }
}

#[derive(Debug, Clone, Copy, PartialEq, Eq, Structural)]
pub enum HandshakeErrorCode {
    InvalidRequest,
    UnsupportedProtocol,
    AlreadyConnected,
    NoActiveWorkspace,
    InternalError,
}

impl HandshakeErrorCode {
    pub open spec fn spec_code(self) -> u16 {
        match self {
            HandshakeErrorCode::InvalidRequest => 1,
            HandshakeErrorCode::UnsupportedProtocol => 2,
            HandshakeErrorCode::AlreadyConnected => 3,
            HandshakeErrorCode::NoActiveWorkspace => 4,
            HandshakeErrorCode::InternalError => 5,
        }
    }

    pub open spec fn spec_from_code(value: u16) -> Option<HandshakeErrorCode> {
        if value == 1 {
            Some(HandshakeErrorCode::InvalidRequest)
        } else if value == 2 {
            Some(HandshakeErrorCode::UnsupportedProtocol)
        } else if value == 3 {
            Some(HandshakeErrorCode::AlreadyConnected)
        } else if value == 4 {
            Some(HandshakeErrorCode::NoActiveWorkspace)
        } else if value == 5 {
            Some(HandshakeErrorCode::InternalError)
        } else {
            None
        }
    }

    pub fn code(self) -> (r: u16)
        ensures
            r == self.spec_code(),
    {
        match self {
            HandshakeErrorCode::InvalidRequest => 1,
            HandshakeErrorCode::UnsupportedProtocol => 2,
            HandshakeErrorCode::AlreadyConnected => 3,
            HandshakeErrorCode::NoActiveWorkspace => 4,
            HandshakeErrorCode::InternalError => 5,
        }
    }

    pub fn from_code(value: u16) -> (r: Option<HandshakeErrorCode>)
        ensures
            r == Self::spec_from_code(value),
    {
        match value {
            1 => Some(HandshakeErrorCode::InvalidRequest),
            2 => Some(HandshakeErrorCode::UnsupportedProtocol),
            3 => Some(HandshakeErrorCode::AlreadyConnected),
            4 => Some(HandshakeErrorCode::NoActiveWorkspace),
            5 => Some(HandshakeErrorCode::InternalError),
            _ => None,
        }
    }
}

#[derive(Debug, Clone, Copy, PartialEq, Eq, Structural)]
pub enum StylusEventType {
    Cancel,
    Down,
    Move,
    Up,
}

impl StylusEventType {
    pub open spec fn spec_code(self) -> u8 {
        match self {
            StylusEventType::Cancel => 0,
            StylusEventType::Down => 1,
            StylusEventType::Move => 2,
            StylusEventType::Up => 3,
        }
    }

    pub open spec fn spec_from_code(value: u8) -> Option<StylusEventType> {
        if value == 0 {
            Some(StylusEventType::Cancel)
        } else if value == 1 {
            Some(StylusEventType::Down)
        } else if value == 2 {
            Some(StylusEventType::Move)
        } else if value == 3 {
            Some(StylusEventType::Up)
        } else {
            None
        }
    }

    pub fn code(self) -> (r: u8)
        ensures
            r == self.spec_code(),
    {
        match self {
            StylusEventType::Cancel => 0,
            StylusEventType::Down => 1,
            StylusEventType::Move => 2,
            StylusEventType::Up => 3,
        }
    }

    pub fn from_code(value: u8) -> (r: Option<StylusEventType>)
        ensures
            r == Self::spec_from_code(value),
    {
        match value {
            0 => Some(StylusEventType::Cancel),
            1 => Some(StylusEventType::Down),
            2 => Some(StylusEventType::Move),
            3 => Some(StylusEventType::Up),
            _ => None,
        }
    }
}

#[derive(Debug, Clone, Copy, PartialEq, Eq, Structural)]
pub enum GestureType {
    TwoPan,
    ThreePan,
    TwoPinch,
    TwoRotate,
    OneLongPress,
    TwoLongPress,
    ThreeLongPress,
    FourLongPress,
    OneSwipe,
}

impl GestureType {
    pub open spec fn spec_code(self) -> u8 {
        match self {
            GestureType::TwoPan => 1,
            GestureType::ThreePan => 2,
            GestureType::TwoPinch => 3,
            GestureType::TwoRotate => 4,
            GestureType::OneLongPress => 5,
            GestureType::TwoLongPress => 6,
            GestureType::ThreeLongPress => 7,
            GestureType::FourLongPress => 8,
            GestureType::OneSwipe => 9,
        }
    }

    pub open spec fn spec_from_code(value: u8) -> Option<GestureType> {
        if value == 1 {
            Some(GestureType::TwoPan)
        } else if value == 2 {
            Some(GestureType::ThreePan)
        } else if value == 3 {
            Some(GestureType::TwoPinch)
        } else if value == 4 {
            Some(GestureType::TwoRotate)
        } else if value == 5 {
            Some(GestureType::OneLongPress)
        } else if value == 6 {
            Some(GestureType::TwoLongPress)
        } else if value == 7 {
            Some(GestureType::ThreeLongPress)
        } else if value == 8 {
            Some(GestureType::FourLongPress)
        } else if value == 9 {
            Some(GestureType::OneSwipe)
        } else {
            None
        }
    }

    pub fn code(self) -> (r: u8)
        ensures
            r == self.spec_code(),
    {
        match self {
            GestureType::TwoPan => 1,
            GestureType::ThreePan => 2,
            GestureType::TwoPinch => 3,
            GestureType::TwoRotate => 4,
            GestureType::OneLongPress => 5,
            GestureType::TwoLongPress => 6,
            GestureType::ThreeLongPress => 7,
            GestureType::FourLongPress => 8,
            GestureType::OneSwipe => 9,
        }
    }

    pub fn from_code(value: u8) -> (r: Option<GestureType>)
        ensures
            r == Self::spec_from_code(value),
    {
        match value {
            1 => Some(GestureType::TwoPan),
            2 => Some(GestureType::ThreePan),
            3 => Some(GestureType::TwoPinch),
            4 => Some(GestureType::TwoRotate),
            5 => Some(GestureType::OneLongPress),
            6 => Some(GestureType::TwoLongPress),
            7 => Some(GestureType::ThreeLongPress),
            8 => Some(GestureType::FourLongPress),
            9 => Some(GestureType::OneSwipe),
            _ => None,
        }
    }

    pub fn is_swipe(self) -> (r: bool)
        ensures
            r == (self == GestureType::OneSwipe),
    {
        matches!(self, GestureType::OneSwipe)
    }

    pub fn is_rotate(self) -> (r: bool)
        ensures
            r == (self == GestureType::TwoRotate),
    {
        matches!(self, GestureType::TwoRotate)
    }

    pub open spec fn spec_is_long_press(self) -> bool {
        ||| self == GestureType::OneLongPress
        ||| self == GestureType::TwoLongPress
        ||| self == GestureType::ThreeLongPress
        ||| self == GestureType::FourLongPress
    }

    pub fn is_long_press(self) -> (r: bool)
        ensures
            r == self.spec_is_long_press(),
    {
        match self {
            GestureType::OneLongPress
            | GestureType::TwoLongPress
            | GestureType::ThreeLongPress
            | GestureType::FourLongPress => true,
            _ => false,
        }
    }

    pub fn is_pinch(self) -> (r: bool)
        ensures
            r == (self == GestureType::TwoPinch),
    {
        matches!(self, GestureType::TwoPinch)
    }
}

#[derive(Debug, Clone, Copy, PartialEq, Eq, Structural)]
pub enum GestureState {
    Begin,
    Update,
    End,
}

impl GestureState {
    pub open spec fn spec_code(self) -> u8 {
        match self {
            GestureState::Begin => 1,
            GestureState::Update => 2,
            GestureState::End => 3,
        }
    }

    pub open spec fn spec_from_code(value: u8) -> Option<GestureState> {
        if value == 1 {
            Some(GestureState::Begin)
        } else if value == 2 {
            Some(GestureState::Update)
        } else if value == 3 {
            Some(GestureState::End)
        } else {
            None
        }
    }

    pub fn code(self) -> (r: u8)
        ensures
            r == self.spec_code(),
    {
        match self {
            GestureState::Begin => 1,
            GestureState::Update => 2,
            GestureState::End => 3,
        }
    }

    pub fn from_code(value: u8) -> (r: Option<GestureState>)
        ensures
            r == Self::spec_from_code(value),
    {
        match value {
            1 => Some(GestureState::Begin),
            2 => Some(GestureState::Update),
            3 => Some(GestureState::End),
            _ => None,
        }
    }
}

/// The flag byte of a stylus frame; bit 7 is reserved and must be zero.
#[derive(Debug, Clone, Copy, PartialEq, Eq, Structural)]
pub struct StylusFlags(pub u8);

impl StylusFlags {
    /// Bit `bit` of the flag byte is set.
    pub open spec fn bit(self, bit: u8) -> bool {
        (self.0 >> bit) & 1u8 == 1u8
    }

    pub fn has_reserved_bits(self) -> (r: bool)
        ensures
            r == self.bit(7),
    {
        proof { lemma_flag_masks(self.0); }
        self.0 & STYLUS_FLAGS_RESERVED_MASK != 0
    }

    pub fn in_range(self) -> (r: bool)
        ensures
            r == self.bit(0),
    {
        proof { lemma_flag_masks(self.0); }
        self.0 & 0b0000_0001 != 0
    }

    pub fn is_contact(self) -> (r: bool)
        ensures
            r == self.bit(1),
    {
        proof { lemma_flag_masks(self.0); }
        self.0 & 0b0000_0010 != 0
    }

    pub fn squeeze(self) -> (r: bool)
        ensures
            r == self.bit(2),
    {
        proof { lemma_flag_masks(self.0); }
        self.0 & 0b0000_0100 != 0
    }

    pub fn double_tap(self) -> (r: bool)
        ensures
            r == self.bit(3),
    {
        proof { lemma_flag_masks(self.0); }
        self.0 & 0b0000_1000 != 0
    }

    pub fn two_tap(self) -> (r: bool)
        ensures
            r == self.bit(4),
    {
        proof { lemma_flag_masks(self.0); }
        self.0 & 0b0001_0000 != 0
    }

    pub fn three_tap(self) -> (r: bool)
        ensures
            r == self.bit(5),
    {
        proof { lemma_flag_masks(self.0); }
        self.0 & 0b0010_0000 != 0
    }

    pub fn four_tap(self) -> (r: bool)
        ensures
            r == self.bit(6),
    {
        proof { lemma_flag_masks(self.0); }
        self.0 & 0b0100_0000 != 0
    }
}

proof fn lemma_flag_masks(x: u8)
    by (bit_vector)
    ensures
        (x & 0b0000_0001 != 0) == ((x >> 0u8) & 1u8 == 1u8),
        (x & 0b0000_0010 != 0) == ((x >> 1u8) & 1u8 == 1u8),
        (x & 0b0000_0100 != 0) == ((x >> 2u8) & 1u8 == 1u8),
        (x & 0b0000_1000 != 0) == ((x >> 3u8) & 1u8 == 1u8),
        (x & 0b0001_0000 != 0) == ((x >> 4u8) & 1u8 == 1u8),
        (x & 0b0010_0000 != 0) == ((x >> 5u8) & 1u8 == 1u8),
        (x & 0b0100_0000 != 0) == ((x >> 6u8) & 1u8 == 1u8),
        (x & 0b1000_0000 != 0) == ((x >> 7u8) & 1u8 == 1u8),
{
}

/// What a client sends first over the handshake channel.
#[derive(Debug, Clone, PartialEq, Eq)]
pub struct HandshakeRequest {
    pub client_id: String,
}

#[derive(Debug, Clone, PartialEq, Eq)]
pub struct HandshakeResponse {
    pub session_id: String,
    pub desktop_width_px: u32,
    pub desktop_height_px: u32,
    pub desktop_unit: DesktopUnit,
}

#[derive(Debug, Clone, PartialEq, Eq)]
pub struct HandshakeError {
    pub error_code: HandshakeErrorCode,
    pub message: String,
}

#[derive(Debug, Clone, PartialEq, Eq)]
pub struct SessionDisconnect {
    pub session_id: String,
}

/// One stylus sample. The pressure is an IEEE-754 binary32 value held by its
/// bit pattern.
#[derive(Debug, Clone, Copy, PartialEq, Eq, Structural)]
pub struct StylusFrame {
    pub seq: u32,
    pub timestamp: u64,
    pub x: u16,
    pub y: u16,
    pub pressure_bits: u32,
    pub tilt_x: i8,
    pub tilt_y: i8,
    pub event_type: StylusEventType,
    pub flags: StylusFlags,
    pub reserved_ext: u32,
}

/// One touch gesture sample. The four values are IEEE-754 binary32 values
/// held by their bit patterns.
#[derive(Debug, Clone, Copy, PartialEq, Eq, Structural)]
pub struct GestureFrame {
    pub gesture_type: GestureType,
    pub state: GestureState,
    pub seq: u32,
    pub timestamp: u64,
    pub val1_bits: u32,
    pub val2_bits: u32,
    pub val3_bits: u32,
    pub val4_bits: u32,
}

#[derive(Debug, Clone, PartialEq, Eq)]
pub enum Packet {
    HandshakeRequest(HandshakeRequest),
    HandshakeResponse(HandshakeResponse),
    HandshakeError(HandshakeError),
    SessionDisconnect(SessionDisconnect),
    StylusFrame(StylusFrame),
    GestureFrame(GestureFrame),
}

/* Mathematical models of the packets: text fields by their characters. */

pub struct HandshakeRequestModel {
    pub client_id: Seq<char>,
}

pub struct HandshakeResponseModel {
    pub session_id: Seq<char>,
    pub desktop_width_px: u32,
    pub desktop_height_px: u32,
    pub desktop_unit: DesktopUnit,
}

pub struct HandshakeErrorModel {
    pub error_code: HandshakeErrorCode,
    pub message: Seq<char>,
}

pub struct SessionDisconnectModel {
    pub session_id: Seq<char>,
}

pub enum PacketModel {
    HandshakeRequest(HandshakeRequestModel),
    HandshakeResponse(HandshakeResponseModel),
    HandshakeError(HandshakeErrorModel),
    SessionDisconnect(SessionDisconnectModel),
    StylusFrame(StylusFrame),
    GestureFrame(GestureFrame),
}

impl View for HandshakeRequest {
    type V = HandshakeRequestModel;

    open spec fn view(&self) -> HandshakeRequestModel {
        HandshakeRequestModel { client_id: self.client_id@ }
    }
}

impl View for HandshakeResponse {
    type V = HandshakeResponseModel;

    open spec fn view(&self) -> HandshakeResponseModel {
        HandshakeResponseModel {
            session_id: self.session_id@,
            desktop_width_px: self.desktop_width_px,
            desktop_height_px: self.desktop_height_px,
            desktop_unit: self.desktop_unit,
        }
    }
}

impl View for HandshakeError {
    type V = HandshakeErrorModel;

    open spec fn view(&self) -> HandshakeErrorModel {
        HandshakeErrorModel { error_code: self.error_code, message: self.message@ }
    }
}

impl View for SessionDisconnect {
    type V = SessionDisconnectModel;

    open spec fn view(&self) -> SessionDisconnectModel {
        SessionDisconnectModel { session_id: self.session_id@ }
    }
}

impl View for Packet {
    type V = PacketModel;

    open spec fn view(&self) -> PacketModel {
        match self {
            Packet::HandshakeRequest(p) => PacketModel::HandshakeRequest(p@),
            Packet::HandshakeResponse(p) => PacketModel::HandshakeResponse(p@),
            Packet::HandshakeError(p) => PacketModel::HandshakeError(p@),
            Packet::SessionDisconnect(p) => PacketModel::SessionDisconnect(p@),
            Packet::StylusFrame(p) => PacketModel::StylusFrame(*p),
            Packet::GestureFrame(p) => PacketModel::GestureFrame(*p),
        }
    }
}

} // verus!
