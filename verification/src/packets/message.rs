use vstd::prelude::*;
use crate::bgp_type::AutonomousSystemNumber;
use crate::error::DecodeError;
use crate::packets::header::{lemma_header_round_trip, parse_header, Header, MessageType};
use crate::packets::keepalive::{
    keepalive_bytes, keepalive_header, parse_keepalive, KeepaliveMessage,
};
use crate::packets::open::{lemma_open_round_trip, open_bytes, parse_open, OpenMessage, OpenView};
use crate::packets::wire::from_be16;

verus! {

/// A message of the session handshake.
#[derive(PartialEq, Eq, Debug, Clone, Hash)]
pub enum Message {
    Open(OpenMessage),
    Keepalive(KeepaliveMessage),
}

/// What a message holds.
pub enum MessageView {
    Open(OpenView),
    Keepalive,
}

impl MessageView {
    pub open spec fn wf(self) -> bool {
        match self {
            MessageView::Open(o) => o.wf(),
            MessageView::Keepalive => true,
        }
    }
}

impl View for Message {
    type V = MessageView;

    open spec fn view(&self) -> MessageView {
        match self {
            Message::Open(o) => MessageView::Open(o@),
            Message::Keepalive(_) => MessageView::Keepalive,
        }
    }
}

/// A message on the wire: the bytes of its variant, header included.
pub open spec fn message_bytes(m: MessageView) -> Seq<u8> {
    match m {
        MessageView::Open(o) => open_bytes(o),
        MessageView::Keepalive => keepalive_bytes(),
    }
}

/// The outcome of the Open decoder as an outcome of the message decoder.
pub open spec fn as_open(r: Result<OpenView, DecodeError>) -> Result<MessageView, DecodeError> {
    match r {
        Ok(o) => Ok(MessageView::Open(o)),
        Err(e) => Err(e),
    }
}

/// The outcome of the Keepalive decoder as an outcome of the message
/// decoder.
pub open spec fn as_keepalive(r: Result<KeepaliveMessage, DecodeError>) -> Result<
    MessageView,
    DecodeError,
> {
    match r {
        Ok(_) => Ok(MessageView::Keepalive),
        Err(e) => Err(e),
    }
}

/// What a byte sequence is read as: a header error first; then, by the
/// header's type, what the decoder of that type makes of the whole
/// sequence. A type that is no variant of the message counts as
/// unrecognized.
pub open spec fn parse_message(b: Seq<u8>) -> Result<MessageView, DecodeError> {
    match parse_header(b) {
        Err(e) => Err(e),
        Ok(h) => match h.type_ {
            MessageType::Open => as_open(parse_open(b)),
            MessageType::Keepalive => as_keepalive(parse_keepalive(b)),
            MessageType::Update => Err(DecodeError::UnrecognizedType(b[18])),
        },
    }
}

impl Message {
    /// The Open message of a speaker with this AS number and identifier.
    pub fn new_open(my_as_number: AutonomousSystemNumber, my_ip_addr: u32) -> (r: Message)
        ensures
            r@ == MessageView::Open(
                OpenView {
                    version: 4,
                    my_as_number: my_as_number.0,
                    hold_time: 0,
                    bgp_identifier: my_ip_addr,
                    optional_parameters: Seq::empty(),
                },
            ),
    {
        Message::Open(OpenMessage::new(my_as_number, my_ip_addr))
    }

    pub fn new_keepalive() -> (r: Message)
        ensures
            r@ == MessageView::Keepalive,
    {
        Message::Keepalive(KeepaliveMessage::new())
    }

    /// Reads a whole buffer as one message.
    pub fn decode(bytes: &[u8]) -> (r: Result<Message, DecodeError>)
        ensures
            match r {
                Ok(m) => parse_message(bytes@) == Ok::<MessageView, DecodeError>(m@) && m@.wf(),
                Err(e) => parse_message(bytes@) == Err::<MessageView, DecodeError>(e),
            },
    {
        let header = match Header::decode(bytes) {
            Err(e) => {
                return Err(e);
            },
            Ok(h) => h,
        };
        match header.type_ {
            MessageType::Open => match OpenMessage::decode(bytes) {
                Ok(open) => Ok(Message::Open(open)),
                Err(e) => Err(e),
            },
            MessageType::Keepalive => match KeepaliveMessage::decode(bytes) {
                Ok(keepalive) => Ok(Message::Keepalive(keepalive)),
                Err(e) => Err(e),
            },
            MessageType::Update => Err(DecodeError::UnrecognizedType(bytes[18])),
        }
    }

    /// The message on the wire.
    pub fn encode(&self) -> (r: Vec<u8>)
        ensures
            r@ == message_bytes(self@),
            self@.wf(),
    {
        match self {
            Message::Open(open) => open.encode(),
            Message::Keepalive(keepalive) => keepalive.encode(),
        }
    }
}

/// Decoding the encoding of a Keepalive message gives the message back.
pub proof fn lemma_keepalive_round_trip()
    ensures
        parse_keepalive(keepalive_bytes()) == Ok::<KeepaliveMessage, DecodeError>(
            KeepaliveMessage,
        ),
{
    lemma_header_round_trip(keepalive_header(), Seq::empty());
    assert(keepalive_bytes() + Seq::<u8>::empty() =~= keepalive_bytes());
}

/// Decoding the encoding of a message gives the message back.
pub proof fn lemma_message_round_trip(m: MessageView)
    requires
        m.wf(),
    ensures
        parse_message(message_bytes(m)) == Ok::<MessageView, DecodeError>(m),
{
    match m {
        MessageView::Open(o) => {
            lemma_open_round_trip(o);
        },
        MessageView::Keepalive => {
            lemma_keepalive_round_trip();
        },
    }
}

/// A buffer of fewer than 19 bytes is rejected for its length.
pub proof fn lemma_short_buffer_rejected(b: Seq<u8>)
    requires
        b.len() < 19,
    ensures
        parse_header(b) == Err::<Header, DecodeError>(DecodeError::TooShort),
        parse_message(b) == Err::<MessageView, DecodeError>(DecodeError::TooShort),
        parse_open(b) == Err::<OpenView, DecodeError>(DecodeError::TooShort),
        parse_keepalive(b) == Err::<KeepaliveMessage, DecodeError>(DecodeError::TooShort),
{
}

/// A buffer that holds the header of an Open or a Keepalive message, and
/// whose declared length is not its own, is rejected as malformed.
pub proof fn lemma_length_mismatch_rejected(b: Seq<u8>)
    requires
        b.len() >= 19,
        b[18] == 1 || b[18] == 4,
        from_be16(b[16], b[17]) as int != b.len(),
    ensures
        parse_message(b) == Err::<MessageView, DecodeError>(DecodeError::MalformedBody),
{
}

/// The header's type byte decides which decoder reads the buffer: 1 the
/// Open decoder, 4 the Keepalive decoder; any other byte is unrecognized.
pub proof fn lemma_type_dispatch(b: Seq<u8>)
    requires
        b.len() >= 19,
    ensures
        b[18] == 1 ==> parse_message(b) == as_open(parse_open(b)),
        b[18] == 4 ==> parse_message(b) == as_keepalive(parse_keepalive(b)),
        b[18] != 1 && b[18] != 4 ==> parse_message(b) == Err::<MessageView, DecodeError>(
            DecodeError::UnrecognizedType(b[18]),
        ),
{
}

} // verus!
