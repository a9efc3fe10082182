use vstd::prelude::*;
use crate::error::DecodeError;
use crate::packets::header::{parse_header, Header, MessageType};
use crate::packets::keepalive::{parse_keepalive, KeepaliveMessage};
use crate::packets::open::{parse_open, OpenMessage, OpenView};
use crate::packets::update::{parse_update, UpdateMessage, UpdateView};
use crate::packets::wire::from_be16;

verus! {

/// What a peer session reacts to. Only the events of a session that goes
/// well exist.
#[derive(PartialEq, Eq, Debug, Clone, Hash)]
pub enum Event {
    /// The operator starts the session.
    ManualStart,
    /// The transport connection stands, whichever side opened it.
    TcpConnectionConfirmed,
    /// An Open message arrived.
    BgpOpen(OpenMessage),
    /// A Keepalive message arrived.
    KeepAliveMsg(KeepaliveMessage),
    /// An Update message arrived.
    UpdateMsg(UpdateMessage),
    /// The session has just reached the state Established.
    Established,
    /// The local routing table changed.
    LocRibChanged,
    /// The table of routes advertised to the peer changed.
    AdjRibOutChanged,
    /// The table of routes received from the peer changed.
    AdjRibInChanged,
}

/// What an event holds.
pub enum EventView {
    ManualStart,
    TcpConnectionConfirmed,
    BgpOpen(OpenView),
    KeepAliveMsg,
    UpdateMsg(UpdateView),
    Established,
    LocRibChanged,
    AdjRibOutChanged,
    AdjRibInChanged,
}

impl View for Event {
    type V = EventView;

    open spec fn view(&self) -> EventView {
        match self {
            Event::ManualStart => EventView::ManualStart,
            Event::TcpConnectionConfirmed => EventView::TcpConnectionConfirmed,
            Event::BgpOpen(m) => EventView::BgpOpen(m@),
            Event::KeepAliveMsg(_) => EventView::KeepAliveMsg,
            Event::UpdateMsg(m) => EventView::UpdateMsg(m@),
            Event::Established => EventView::Established,
            Event::LocRibChanged => EventView::LocRibChanged,
            Event::AdjRibOutChanged => EventView::AdjRibOutChanged,
            Event::AdjRibInChanged => EventView::AdjRibInChanged,
        }
    }
}

/// The event that the arrival of a byte sequence is: a header error
/// first; then, by the header's type, the event that carries what the
/// decoder of that type makes of the whole sequence.
pub open spec fn parse_event(b: Seq<u8>) -> Result<EventView, DecodeError> {
    match parse_header(b) {
        Err(e) => Err(e),
        Ok(h) => match h.type_ {
            MessageType::Open => match parse_open(b) {
                Ok(m) => Ok(EventView::BgpOpen(m)),
                Err(e) => Err(e),
            },
            MessageType::Keepalive => match parse_keepalive(b) {
                Ok(_) => Ok(EventView::KeepAliveMsg),
                Err(e) => Err(e),
            },
            MessageType::Update => match parse_update(b) {
                Ok(m) => Ok(EventView::UpdateMsg(m)),
                Err(e) => Err(e),
            },
        },
    }
}

impl Event {
    /// Reads a whole buffer that arrived from the peer as the event that
    /// it is for the session.
    pub fn decode(bytes: &[u8]) -> (r: Result<Event, DecodeError>)
        ensures
            match r {
                Ok(event) => parse_event(bytes@) == Ok::<EventView, DecodeError>(event@),
                Err(e) => parse_event(bytes@) == Err::<EventView, DecodeError>(e),
            },
    {
        let header = match Header::decode(bytes) {
            Err(e) => {
                return Err(e);
            },
            Ok(h) => h,
        };
        match header.type_ {
            MessageType::Open => match OpenMessage::decode(bytes) {
                Ok(open) => Ok(Event::BgpOpen(open)),
                Err(e) => Err(e),
            },
            MessageType::Keepalive => match KeepaliveMessage::decode(bytes) {
                Ok(keepalive) => Ok(Event::KeepAliveMsg(keepalive)),
                Err(e) => Err(e),
            },
            MessageType::Update => match UpdateMessage::decode(bytes) {
                Ok(update) => Ok(Event::UpdateMsg(update)),
                Err(e) => Err(e),
            },
        }
    }
}

/// Only the three events that carry a message come off the wire.
pub proof fn lemma_decoded_events(b: Seq<u8>)
    ensures
        parse_event(b) matches Ok(event) ==> event is BgpOpen || event is KeepAliveMsg
            || event is UpdateMsg,
{
}

/// A buffer of fewer than 19 bytes is rejected for its length.
pub proof fn lemma_short_buffer_rejected(b: Seq<u8>)
    requires
        b.len() < 19,
    ensures
        parse_event(b) == Err::<EventView, DecodeError>(DecodeError::TooShort),
{
}

/// A buffer whose type byte names no message type is rejected for its
/// type, whatever else it holds.
pub proof fn lemma_unknown_type_rejected(b: Seq<u8>)
    requires
        b.len() >= 19,
        MessageType::of_code(b[18]) is None,
    ensures
        parse_event(b) == Err::<EventView, DecodeError>(DecodeError::UnrecognizedType(b[18])),
{
}

/// A buffer of a known type whose declared length is not its own is
/// rejected as malformed.
pub proof fn lemma_length_mismatch_rejected(b: Seq<u8>)
    requires
        b.len() >= 19,
        MessageType::of_code(b[18]) is Some,
        from_be16(b[16], b[17]) as int != b.len(),
    ensures
        parse_event(b) == Err::<EventView, DecodeError>(DecodeError::MalformedBody),
{
}

} // verus!
