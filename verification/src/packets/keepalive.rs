use vstd::prelude::*;
use crate::error::DecodeError;
use crate::packets::header::{header_bytes, parse_header, Header, MessageType, HEADER_LENGTH};

verus! {

/// A Keepalive message: a header and nothing else.
#[derive(Debug, Clone, Copy, Hash, PartialEq, Eq, Structural)]
pub struct KeepaliveMessage;

/// The header that a Keepalive message carries.
pub open spec fn keepalive_header() -> Header {
    Header { length: 19, type_: MessageType::Keepalive }
}

/// The 19 bytes of a Keepalive message on the wire.
pub open spec fn keepalive_bytes() -> Seq<u8> {
    header_bytes(keepalive_header())
}

/// What a byte sequence is read as by the Keepalive decoder: a header
/// error first; then the message, where the header is that of a Keepalive
/// and the buffer holds nothing else.
pub open spec fn parse_keepalive(b: Seq<u8>) -> Result<KeepaliveMessage, DecodeError> {
    match parse_header(b) {
        Err(e) => Err(e),
        Ok(h) => if h.type_ == MessageType::Keepalive && h.length == 19 && b.len() == 19 {
            Ok(KeepaliveMessage)
        } else {
            Err(DecodeError::MalformedBody)
        },
    }
}

impl KeepaliveMessage {
    pub fn new() -> (r: KeepaliveMessage)
        ensures
            r == KeepaliveMessage,
    {
        KeepaliveMessage
    }

    /// Reads a whole buffer, header included, as a Keepalive message.
    pub fn decode(bytes: &[u8]) -> (r: Result<KeepaliveMessage, DecodeError>)
        ensures
            r == parse_keepalive(bytes@),
    {
        match Header::decode(bytes) {
            Err(e) => Err(e),
            Ok(h) => {
                let is_keepalive = match h.type_ {
                    MessageType::Keepalive => true,
                    _ => false,
                };
                if is_keepalive && h.length == 19 && bytes.len() == HEADER_LENGTH {
                    Ok(KeepaliveMessage)
                } else {
                    Err(DecodeError::MalformedBody)
                }
            },
        }
    }

    /// The message on the wire.
    pub fn encode(&self) -> (r: Vec<u8>)
        ensures
            r@ == keepalive_bytes(),
    {
        Header::new(19, MessageType::Keepalive).encode()
    }
}

} // verus!
