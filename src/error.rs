//! Failures of the decoders and of the handshake session.
use vstd::prelude::*;

verus! {

/// Why a run of bytes could not be decoded.
#[derive(Debug, Clone, Copy, PartialEq, Eq, Structural)]
pub enum WireError {
    /// Fewer bytes are left than the field needs.
    Truncated,
    /// A length field exceeds the bytes left by more than the cursor's ceiling.
    LengthOverflow,
    /// The padding length of a packet is under four.
    InvalidPadding,
    /// The packet length disagrees with the padding length or with the bytes given.
    InvalidFraming,
    /// A name-list is not well-formed UTF-8.
    InvalidUtf8,
    /// The payload does not start with the negotiation message's tag.
    UnexpectedMessageType,
    /// Bytes are left after the last field of the negotiation message.
    TrailingData,
}

/// The part of a received negotiation packet that was being read when decoding failed.
#[derive(Debug, Clone, Copy, PartialEq, Eq, Structural)]
pub enum KexField {
    /// The binary packet around the payload.
    Packet,
    MessageType,
    Cookie,
    KexAlgorithms,
    ServerHostKeyAlgorithms,
    EncryptionAlgorithmsClientToServer,
    EncryptionAlgorithmsServerToClient,
    MacAlgorithmsClientToServer,
    MacAlgorithmsServerToClient,
    CompressionAlgorithmsClientToServer,
    CompressionAlgorithmsServerToClient,
    LanguagesClientToServer,
    LanguagesServerToClient,
    FirstKexPacketFollows,
    Reserved,
    /// The end of the payload, where nothing may be left.
    End,
}

/// A decoding failure of the negotiation message, with the field it happened in.
#[derive(Debug, Clone, Copy, PartialEq, Eq, Structural)]
pub struct KexInitError {
    pub field: KexField,
    pub kind: WireError,
}

/// Why a handshake session failed or refused a step.
#[derive(Debug, Clone, PartialEq, Eq)]
pub enum HandshakeError {
    /// Connecting, reading or writing failed.
    ConnectionError,
    /// A blocking step ran past its deadline.
    Timeout,
    /// The peer's banner does not advertise protocol 2.0; it holds the banner
    /// line without its line end.
    UnsupportedVersion(Vec<u8>),
    /// The negotiation packet could not be decoded.
    Decode(KexInitError),
    /// The step was asked for in a state that does not allow it.
    InvalidState,
}

/// The field of the name-list at `index` in protocol order.
pub open spec fn name_list_field(index: int) -> KexField {
    if index == 0 {
        KexField::KexAlgorithms
    } else if index == 1 {
        KexField::ServerHostKeyAlgorithms
    } else if index == 2 {
        KexField::EncryptionAlgorithmsClientToServer
    } else if index == 3 {
        KexField::EncryptionAlgorithmsServerToClient
    } else if index == 4 {
        KexField::MacAlgorithmsClientToServer
    } else if index == 5 {
        KexField::MacAlgorithmsServerToClient
    } else if index == 6 {
        KexField::CompressionAlgorithmsClientToServer
    } else if index == 7 {
        KexField::CompressionAlgorithmsServerToClient
    } else if index == 8 {
        KexField::LanguagesClientToServer
    } else {
        KexField::LanguagesServerToClient
    }
}

/// The field of the name-list at `index` in protocol order.
pub fn name_list_field_at(index: usize) -> (r: KexField)
    ensures
        r == name_list_field(index as int),
{
    match index {
        0 => KexField::KexAlgorithms,
        1 => KexField::ServerHostKeyAlgorithms,
        2 => KexField::EncryptionAlgorithmsClientToServer,
        3 => KexField::EncryptionAlgorithmsServerToClient,
        4 => KexField::MacAlgorithmsClientToServer,
        5 => KexField::MacAlgorithmsServerToClient,
        6 => KexField::CompressionAlgorithmsClientToServer,
        7 => KexField::CompressionAlgorithmsServerToClient,
        8 => KexField::LanguagesClientToServer,
        _ => KexField::LanguagesServerToClient,
    }
}

} // verus!
