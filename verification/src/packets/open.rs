use vstd::prelude::*;
use crate::bgp_type::AutonomousSystemNumber;
use crate::packets::wire::{
    be16, be32, copy_range, from_be16, from_be32, get_u16, get_u32, lemma_be16_round_trip,
    lemma_be32_round_trip, put_u16, put_u32,
};
use crate::error::DecodeError;
use crate::packets::header::{
    header_bytes, lemma_header_round_trip, parse_header, Header, MessageType,
};

verus! {

/// The protocol version that this speaker announces.
pub const BGP_VERSION: u8 = 4;

/// The length of an Open message without optional parameters.
pub const OPEN_MIN_LENGTH: usize = 29;

/// An Open message. The optional parameters are carried as they stand on
/// the wire; there are at most 255 bytes of them.
#[derive(Debug, Hash, PartialEq, Eq)]
pub struct OpenMessage {
    version: u8,
    my_as_number: AutonomousSystemNumber,
    hold_time: u16,
    bgp_identifier: u32,
    optional_parameters: Vec<u8>,
}

/// What an Open message holds.
pub struct OpenView {
    pub version: u8,
    pub my_as_number: u16,
    pub hold_time: u16,
    pub bgp_identifier: u32,
    pub optional_parameters: Seq<u8>,
}

impl OpenView {
    /// The optional parameters fit the one byte that gives their length.
    pub open spec fn wf(self) -> bool {
        self.optional_parameters.len() <= 255
    }
}

impl View for OpenMessage {
    type V = OpenView;

    closed spec fn view(&self) -> OpenView {
        OpenView {
            version: self.version,
            my_as_number: self.my_as_number.0,
            hold_time: self.hold_time,
            bgp_identifier: self.bgp_identifier,
            optional_parameters: self.optional_parameters@,
        }
    }
}

impl Clone for OpenMessage {
    fn clone(&self) -> (r: OpenMessage)
        ensures
            r@ == self@,
    {
        proof {
            use_type_invariant(self);
        }
        let optional_parameters = copy_range(
            self.optional_parameters.as_slice(),
            0,
            self.optional_parameters.len(),
        );
        assert(optional_parameters@ =~= self.optional_parameters@);
        OpenMessage {
            version: self.version,
            my_as_number: self.my_as_number,
            hold_time: self.hold_time,
            bgp_identifier: self.bgp_identifier,
            optional_parameters,
        }
    }
}

/// The header that an Open message carries: its computed total length.
pub open spec fn open_header(m: OpenView) -> Header {
    Header { length: (29 + m.optional_parameters.len()) as u16, type_: MessageType::Open }
}

/// What follows the header in an Open message.
pub open spec fn open_body(m: OpenView) -> Seq<u8> {
    seq![m.version] + be16(m.my_as_number) + be16(m.hold_time) + be32(m.bgp_identifier)
        + seq![m.optional_parameters.len() as u8] + m.optional_parameters
}

/// An Open message on the wire.
pub open spec fn open_bytes(m: OpenView) -> Seq<u8> {
    header_bytes(open_header(m)) + open_body(m)
}

/// What a byte sequence is read as by the Open decoder: a header error
/// first; then the message, where the header is that of an Open message,
/// the declared length is the buffer's and the optional parameters fill
/// the buffer to its end.
pub open spec fn parse_open(b: Seq<u8>) -> Result<OpenView, DecodeError> {
    match parse_header(b) {
        Err(e) => Err(e),
        Ok(h) => if h.type_ == MessageType::Open && h.length as int == b.len() && b.len() >= 29
            && b[28] as int == b.len() - 29 {
            Ok(
                OpenView {
                    version: b[19],
                    my_as_number: from_be16(b[20], b[21]),
                    hold_time: from_be16(b[22], b[23]),
                    bgp_identifier: from_be32(b[24], b[25], b[26], b[27]),
                    optional_parameters: b.subrange(29, b.len() as int),
                },
            )
        } else {
            Err(DecodeError::MalformedBody)
        },
    }
}

impl OpenMessage {
    #[verifier::type_invariant]
    spec fn inv(self) -> bool {
        self.optional_parameters@.len() <= 255
    }

    /// The Open message that a speaker sends first: version 4, no hold
    /// timer, no optional parameters.
    pub fn new(my_as_number: AutonomousSystemNumber, my_ip_addr: u32) -> (r: OpenMessage)
        ensures
            r@ == (OpenView {
                version: 4,
                my_as_number: my_as_number.0,
                hold_time: 0,
                bgp_identifier: my_ip_addr,
                optional_parameters: Seq::empty(),
            }),
    {
        OpenMessage {
            version: BGP_VERSION,
            my_as_number,
            hold_time: 0,
            bgp_identifier: my_ip_addr,
            optional_parameters: Vec::new(),
        }
    }

    /// An Open message of the given fields; none where the optional
    /// parameters are longer than 255 bytes.
    pub fn from_parts(
        version: u8,
        my_as_number: AutonomousSystemNumber,
        hold_time: u16,
        bgp_identifier: u32,
        optional_parameters: Vec<u8>,
    ) -> (r: Option<OpenMessage>)
        ensures
            r is Some <==> optional_parameters@.len() <= 255,
            r matches Some(m) ==> m@ == (OpenView {
                version,
                my_as_number: my_as_number.0,
                hold_time,
                bgp_identifier,
                optional_parameters: optional_parameters@,
            }),
    {
        if optional_parameters.len() <= 255 {
            Some(
                OpenMessage { version, my_as_number, hold_time, bgp_identifier, optional_parameters },
            )
        } else {
            None
        }
    }

    pub fn version(&self) -> (r: u8)
        ensures
            r == self@.version,
    {
        self.version
    }

    pub fn my_as_number(&self) -> (r: AutonomousSystemNumber)
        ensures
            r.0 == self@.my_as_number,
    {
        self.my_as_number
    }

    pub fn hold_time(&self) -> (r: u16)
        ensures
            r == self@.hold_time,
    {
        self.hold_time
    }

    pub fn bgp_identifier(&self) -> (r: u32)
        ensures
            r == self@.bgp_identifier,
    {
        self.bgp_identifier
    }

    pub fn optional_parameters(&self) -> (r: &Vec<u8>)
        ensures
            r@ == self@.optional_parameters,
            self@.wf(),
    {
        proof {
            use_type_invariant(self);
        }
        &self.optional_parameters
    }

    /// Reads a whole buffer, header included, as an Open message.
    pub fn decode(bytes: &[u8]) -> (r: Result<OpenMessage, DecodeError>)
        ensures
            match r {
                Ok(m) => parse_open(bytes@) == Ok::<OpenView, DecodeError>(m@) && m@.wf(),
                Err(e) => parse_open(bytes@) == Err::<OpenView, DecodeError>(e),
            },
    {
        let h = match Header::decode(bytes) {
            Err(e) => {
                return Err(e);
            },
            Ok(h) => h,
        };
        let is_open = match h.type_ {
            MessageType::Open => true,
            _ => false,
        };
        let n: usize = bytes.len();
        if !is_open || h.length as usize != n || n < OPEN_MIN_LENGTH {
            return Err(DecodeError::MalformedBody);
        }
        if bytes[28] as usize != n - OPEN_MIN_LENGTH {
            return Err(DecodeError::MalformedBody);
        }
        let version = bytes[19];
        let my_as_number = AutonomousSystemNumber(get_u16(bytes, 20));
        let hold_time = get_u16(bytes, 22);
        let bgp_identifier = get_u32(bytes, 24);
        let optional_parameters = copy_range(bytes, OPEN_MIN_LENGTH, n);
        Ok(OpenMessage { version, my_as_number, hold_time, bgp_identifier, optional_parameters })
    }

    /// The message on the wire, header included.
    pub fn encode(&self) -> (r: Vec<u8>)
        ensures
            r@ == open_bytes(self@),
            self@.wf(),
    {
        proof {
            use_type_invariant(self);
        }
        let n: usize = self.optional_parameters.len();
        let mut out: Vec<u8> = Vec::new();
        Header::new((OPEN_MIN_LENGTH + n) as u16, MessageType::Open).write_to(&mut out);
        out.push(self.version);
        put_u16(&mut out, self.my_as_number.0);
        put_u16(&mut out, self.hold_time);
        put_u32(&mut out, self.bgp_identifier);
        out.push(n as u8);
        out.extend_from_slice(self.optional_parameters.as_slice());
        assert(out@ =~= open_bytes(self@));
        out
    }
}

/// An Open message on the wire is 29 bytes and its optional parameters.
pub proof fn lemma_open_length(m: OpenView)
    ensures
        open_bytes(m).len() == 29 + m.optional_parameters.len(),
{
}

/// Decoding the encoding of an Open message gives the message back.
pub proof fn lemma_open_round_trip(m: OpenView)
    requires
        m.wf(),
    ensures
        parse_open(open_bytes(m)) == Ok::<OpenView, DecodeError>(m),
{
    let b = open_bytes(m);
    let body = open_body(m);
    lemma_header_round_trip(open_header(m), body);
    lemma_be16_round_trip(m.my_as_number);
    lemma_be16_round_trip(m.hold_time);
    lemma_be32_round_trip(m.bgp_identifier);
    assert(b.len() == 29 + m.optional_parameters.len());
    assert forall|k: int| 0 <= k < body.len() implies b[19 + k] == body[k] by {}
    assert(b[19] == body[0]);
    assert(b[20] == body[1] && b[21] == body[2]);
    assert(b[22] == body[3] && b[23] == body[4]);
    assert(b[24] == body[5] && b[25] == body[6] && b[26] == body[7] && b[27] == body[8]);
    assert(b[28] == body[9]);
    assert(body[1] == be16(m.my_as_number)[0] && body[2] == be16(m.my_as_number)[1]);
    assert(body[3] == be16(m.hold_time)[0] && body[4] == be16(m.hold_time)[1]);
    assert(body[5] == be32(m.bgp_identifier)[0] && body[6] == be32(m.bgp_identifier)[1]);
    assert(body[7] == be32(m.bgp_identifier)[2] && body[8] == be32(m.bgp_identifier)[3]);
    assert(b.subrange(29, b.len() as int) =~= m.optional_parameters);
}

} // verus!
