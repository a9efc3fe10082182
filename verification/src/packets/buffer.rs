use vstd::prelude::*;
use bytes::BytesMut;
use crate::error::DecodeError;
use crate::packets::message::{message_bytes, parse_message, Message, MessageView};

verus! {

/// The byte buffer in which the transport hands messages over.
#[verifier::external_type_specification]
#[verifier::external_body]
pub struct ExBytesMut(bytes::BytesMut);

/// The bytes that a buffer holds, first to last.
pub uninterp spec fn buffer_bytes(buffer: BytesMut) -> Seq<u8>;

/// Copies a buffer's bytes out. Rests on `BytesMut`'s `Deref` to a byte
/// slice: the slice is the buffer's contents, in order.
#[verifier::external_body]
fn buffer_to_vec(buffer: &BytesMut) -> (r: Vec<u8>)
    ensures
        r@ == buffer_bytes(*buffer),
{
    buffer.to_vec()
}

/// Makes a buffer of the given bytes. Rests on `BytesMut::from` for a byte
/// slice: the new buffer holds a copy of the slice.
#[verifier::external_body]
fn buffer_from_slice(bytes: &[u8]) -> (r: BytesMut)
    ensures
        buffer_bytes(r) == bytes@,
{
    BytesMut::from(bytes)
}

impl Message {
    /// Reads a whole buffer as one message.
    pub fn try_from_bytes(bytes: BytesMut) -> (r: Result<Message, DecodeError>)
        ensures
            match r {
                Ok(m) => parse_message(buffer_bytes(bytes)) == Ok::<MessageView, DecodeError>(m@)
                    && m@.wf(),
                Err(e) => parse_message(buffer_bytes(bytes)) == Err::<MessageView, DecodeError>(e),
            },
    {
        let raw = buffer_to_vec(&bytes);
        Message::decode(raw.as_slice())
    }

    /// The message on the wire, in a buffer.
    pub fn into_bytes(self) -> (r: BytesMut)
        ensures
            buffer_bytes(r) == message_bytes(self@),
    {
        let raw = self.encode();
        buffer_from_slice(raw.as_slice())
    }
}

} // verus!
