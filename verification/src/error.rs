//! The error type shared by every decoder in the library.
use vstd::prelude::*;

verus! {

/// Why a packet, a configuration or a protocol message was rejected.
#[derive(Debug, Clone, Copy, PartialEq, Eq, Structural)]
pub enum TelemetryError {
    /// The buffer holds fewer bytes than the layout requires.
    TooShort { needed: usize, actual: usize },
    /// The buffer is empty.
    EmptyPacket,
    /// The magic marker at the start of the packet does not match.
    BadMagic,
    /// A version word other than the supported one.
    UnexpectedVersion(u32),
    /// A packet-format year other than the supported ones.
    UnexpectedFormat(u16),
    /// A packet identifier that the operation does not accept.
    UnsupportedPacketId(u8),
    /// A packet that cannot produce telemetry on its own.
    IncompletePacket(u8),
    /// A player index past the last car slot.
    PlayerIndexOutOfRange(usize),
    /// A read of `len` bytes at `offset` past the end of the buffer.
    OutOfBounds { offset: usize, len: usize },
    /// A read whose end offset does not fit in a machine word.
    OffsetOverflow,
    /// A string field whose bytes are not valid UTF-8.
    InvalidUtf8,
    /// A string longer than a 16-bit length prefix can describe.
    StringTooLong(usize),
    /// An update interval that is not strictly positive.
    NonPositiveInterval(i32),
    /// A protocol message of another type than the one expected.
    UnexpectedMessageType(u8),
    /// A packet length that matches no known layout.
    UnknownPacketLength(usize),
    /// The XML document is malformed.
    XmlSyntax,
    /// A field definition without a channel name.
    MissingChannel,
    /// A field definition without a value type.
    MissingFieldType,
    /// The document defines no usable field.
    NoFields,
    /// A configured channel definition could not be read.
    SpecUnavailable,
}

} // verus!
