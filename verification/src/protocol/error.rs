use vstd::prelude::*;

verus! {

/// Why a packet could not be decoded or encoded.
#[allow(inconsistent_fields)]
#[derive(Debug, Clone, Copy, PartialEq, Eq)]
pub enum ProtocolError {
    PacketTooShort { expected: usize, actual: usize },
    InvalidPacketLength { packet: &'static str, expected: usize, actual: usize },
    InvalidMagic { actual: u32 },
    UnknownPacketType(u8),
    UnsupportedProtocolVersion(u8),
    NonZeroReserved { field: &'static str, value: u32 },
    InvalidUtf8 { field: &'static str },
    InvalidPadding { field: &'static str },
    UnknownEnumValue { field: &'static str, value: u32 },
    OutOfRange { field: &'static str, details: &'static str },
    InvalidFloat { field: &'static str },
    SemanticViolation(&'static str),
}

} // verus!
