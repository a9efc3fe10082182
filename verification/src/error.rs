use vstd::prelude::*;

verus! {

/// Why a byte buffer is not a BGP message.
#[derive(Debug, Clone, Copy, Hash, PartialEq, Eq, Structural)]
pub enum DecodeError {
    /// The buffer is shorter than the 19 bytes of a header.
    TooShort,
    /// The header's type byte, carried here, names no known message type.
    UnrecognizedType(u8),
    /// The body is malformed, or the declared length is not the buffer's.
    MalformedBody,
}

/// Why a piece of configuration text is not a network.
#[derive(Debug, Clone, Copy, Hash, PartialEq, Eq, Structural)]
pub enum ConfigParseError {
    /// The text is not an IPv4 network in CIDR notation.
    InvalidNetwork,
    /// The prefix length is over 32.
    InvalidPrefix,
}

} // verus!
