use vstd::prelude::*;
use crate::packets::wire::{be16, from_be16, get_u16, lemma_be16_round_trip, put_u16};
use crate::error::DecodeError;

verus! {

/// The length of a header on the wire, and so the least length of a message.
pub const HEADER_LENGTH: usize = 19;

/// The length of the marker that opens a header.
pub const MARKER_LENGTH: usize = 16;

/// The kind of a message, as the header's last byte names it.
#[derive(Debug, Clone, Copy, Hash, PartialEq, Eq, Structural)]
pub enum MessageType {
    Open,
    Update,
    Keepalive,
}

impl MessageType {
    /// The byte that stands for this type on the wire.
    pub open spec fn code(self) -> u8 {
        match self {
            MessageType::Open => 1,
            MessageType::Update => 2,
            MessageType::Keepalive => 4,
        }
    }

    /// The type that a byte stands for, if any.
    pub open spec fn of_code(code: u8) -> Option<MessageType> {
        if code == 1 {
            Some(MessageType::Open)
        } else if code == 2 {
            Some(MessageType::Update)
        } else if code == 4 {
            Some(MessageType::Keepalive)
        } else {
            None
        }
    }

    pub fn to_byte(self) -> (r: u8)
        ensures
            r == self.code(),
    {
        match self {
            MessageType::Open => 1,
            MessageType::Update => 2,
            MessageType::Keepalive => 4,
        }
    }

    pub fn from_byte(code: u8) -> (r: Result<MessageType, DecodeError>)
        ensures
            r == match MessageType::of_code(code) {
                Some(t) => Ok::<MessageType, DecodeError>(t),
                None => Err(DecodeError::UnrecognizedType(code)),
            },
    {
        if code == 1 {
            Ok(MessageType::Open)
        } else if code == 2 {
            Ok(MessageType::Update)
        } else if code == 4 {
            Ok(MessageType::Keepalive)
        } else {
            Err(DecodeError::UnrecognizedType(code))
        }
    }
}

/// The envelope of every message: the declared total length and the type.
/// The marker holds no information. It is written as sixteen bytes of ones
/// and skipped on reading.
#[derive(Debug, Clone, Copy, Hash, PartialEq, Eq, Structural)]
pub struct Header {
    pub length: u16,
    pub type_: MessageType,
}

/// The marker: sixteen bytes with every bit set.
pub open spec fn marker() -> Seq<u8> {
    Seq::new(16, |i: int| 255u8)
}

/// The 19 bytes of a header on the wire.
pub open spec fn header_bytes(h: Header) -> Seq<u8> {
    marker() + be16(h.length) + seq![h.type_.code()]
}

/// What a byte sequence is read as: the header that its first 19 bytes
/// hold, or the reason why they hold none.
pub open spec fn parse_header(b: Seq<u8>) -> Result<Header, DecodeError> {
    if b.len() < 19 {
        Err(DecodeError::TooShort)
    } else {
        match MessageType::of_code(b[18]) {
            Some(t) => Ok(Header { length: from_be16(b[16], b[17]), type_: t }),
            None => Err(DecodeError::UnrecognizedType(b[18])),
        }
    }
}

impl Header {
    pub fn new(length: u16, type_: MessageType) -> (r: Header)
        ensures
            r == (Header { length, type_ }),
    {
        Header { length, type_ }
    }

    /// Reads the header at the start of `bytes`.
    pub fn decode(bytes: &[u8]) -> (r: Result<Header, DecodeError>)
        ensures
            r == parse_header(bytes@),
    {
        if bytes.len() < HEADER_LENGTH {
            return Err(DecodeError::TooShort);
        }
        let length = get_u16(bytes, MARKER_LENGTH);
        match MessageType::from_byte(bytes[18]) {
            Ok(type_) => Ok(Header { length, type_ }),
            Err(e) => Err(e),
        }
    }

    /// Appends the header's 19 bytes to `out`.
    pub fn write_to(&self, out: &mut Vec<u8>)
        ensures
            final(out)@ == old(out)@ + header_bytes(*self),
    {
        let mut i: usize = 0;
        while i < MARKER_LENGTH
            invariant
                i <= 16,
                out@ == old(out)@ + Seq::new(i as nat, |k: int| 255u8),
            decreases 16 - i,
        {
            out.push(255u8);
            i += 1;
            assert(out@ =~= old(out)@ + Seq::new(i as nat, |k: int| 255u8));
        }
        put_u16(out, self.length);
        out.push(self.type_.to_byte());
        assert(out@ =~= old(out)@ + header_bytes(*self));
    }

    /// The header's 19 bytes.
    pub fn encode(&self) -> (r: Vec<u8>)
        ensures
            r@ == header_bytes(*self),
    {
        let mut out: Vec<u8> = Vec::new();
        self.write_to(&mut out);
        assert(out@ =~= header_bytes(*self));
        out
    }
}

/// A header on the wire is 19 bytes long.
pub proof fn lemma_header_length(h: Header)
    ensures
        header_bytes(h).len() == 19,
{
}

/// Reading what was written gives the header back, whatever follows it in
/// the buffer.
pub proof fn lemma_header_round_trip(h: Header, rest: Seq<u8>)
    ensures
        parse_header(header_bytes(h) + rest) == Ok::<Header, DecodeError>(h),
{
    lemma_be16_round_trip(h.length);
    let b = header_bytes(h) + rest;
    assert(b[16] == be16(h.length)[0]);
    assert(b[17] == be16(h.length)[1]);
    assert(b[18] == h.type_.code());
}

} // verus!
