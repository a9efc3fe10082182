use vstd::prelude::*;
use crate::packets::wire::{be16, copy_range, from_be16, get_u16, lemma_be16_round_trip, put_u16};
use crate::error::DecodeError;
use crate::packets::header::{
    header_bytes, lemma_header_round_trip, parse_header, Header, MessageType,
};

verus! {

/// The length of an Update message whose three sections are empty.
pub const UPDATE_MIN_LENGTH: usize = 23;

/// The greatest total length that the header's length field can declare.
pub const MAX_MESSAGE_LENGTH: usize = 65535;

/// An Update message: withdrawn routes, path attributes and reachable
/// prefixes, each section carried as it stands on the wire. The whole
/// message fits the header's two-byte length.
#[derive(Debug, Hash, PartialEq, Eq)]
pub struct UpdateMessage {
    withdrawn_routes: Vec<u8>,
    path_attributes: Vec<u8>,
    nlri: Vec<u8>,
}

/// What an Update message holds.
pub struct UpdateView {
    pub withdrawn_routes: Seq<u8>,
    pub path_attributes: Seq<u8>,
    pub nlri: Seq<u8>,
}

impl UpdateView {
    /// The total length of the message on the wire.
    pub open spec fn total_length(self) -> int {
        (23 + self.withdrawn_routes.len() + self.path_attributes.len() + self.nlri.len()) as int
    }

    /// The message fits the header's two-byte length.
    pub open spec fn wf(self) -> bool {
        self.total_length() <= 65535
    }
}

impl View for UpdateMessage {
    type V = UpdateView;

    closed spec fn view(&self) -> UpdateView {
        UpdateView {
            withdrawn_routes: self.withdrawn_routes@,
            path_attributes: self.path_attributes@,
            nlri: self.nlri@,
        }
    }
}

impl Clone for UpdateMessage {
    fn clone(&self) -> (r: UpdateMessage)
        ensures
            r@ == self@,
    {
        proof {
            use_type_invariant(self);
        }
        let withdrawn_routes = copy_range(
            self.withdrawn_routes.as_slice(),
            0,
            self.withdrawn_routes.len(),
        );
        let path_attributes = copy_range(
            self.path_attributes.as_slice(),
            0,
            self.path_attributes.len(),
        );
        let nlri = copy_range(self.nlri.as_slice(), 0, self.nlri.len());
        assert(withdrawn_routes@ =~= self.withdrawn_routes@);
        assert(path_attributes@ =~= self.path_attributes@);
        assert(nlri@ =~= self.nlri@);
        UpdateMessage { withdrawn_routes, path_attributes, nlri }
    }
}

/// The header that an Update message carries: its computed total length.
pub open spec fn update_header(m: UpdateView) -> Header {
    Header { length: m.total_length() as u16, type_: MessageType::Update }
}

/// What follows the header in an Update message: the withdrawn routes and
/// the path attributes, each behind its two-byte length, then the
/// reachable prefixes to the end.
pub open spec fn update_body(m: UpdateView) -> Seq<u8> {
    be16(m.withdrawn_routes.len() as u16) + m.withdrawn_routes + be16(
        m.path_attributes.len() as u16,
    ) + m.path_attributes + m.nlri
}

/// An Update message on the wire.
pub open spec fn update_bytes(m: UpdateView) -> Seq<u8> {
    header_bytes(update_header(m)) + update_body(m)
}

/// The declared length of the withdrawn routes in `b`.
pub open spec fn withdrawn_length(b: Seq<u8>) -> int {
    from_be16(b[19], b[20]) as int
}

/// The declared length of the path attributes in `b`.
pub open spec fn attributes_length(b: Seq<u8>) -> int {
    from_be16(b[21 + withdrawn_length(b)], b[22 + withdrawn_length(b)]) as int
}

/// What a byte sequence is read as by the Update decoder: a header error
/// first; then the message, where the header is that of an Update, the
/// declared length is the buffer's and both declared sections lie within
/// the buffer.
pub open spec fn parse_update(b: Seq<u8>) -> Result<UpdateView, DecodeError> {
    match parse_header(b) {
        Err(e) => Err(e),
        Ok(h) => if h.type_ == MessageType::Update && h.length as int == b.len() && b.len() >= 23
            && 23 + withdrawn_length(b) <= b.len() && 23 + withdrawn_length(b) + attributes_length(
            b,
        ) <= b.len() {
            let w = withdrawn_length(b);
            let p = attributes_length(b);
            Ok(
                UpdateView {
                    withdrawn_routes: b.subrange(21, 21 + w),
                    path_attributes: b.subrange(23 + w, 23 + w + p),
                    nlri: b.subrange(23 + w + p, b.len() as int),
                },
            )
        } else {
            Err(DecodeError::MalformedBody)
        },
    }
}

impl UpdateMessage {
    #[verifier::type_invariant]
    spec fn inv(self) -> bool {
        23 + self.withdrawn_routes@.len() + self.path_attributes@.len() + self.nlri@.len() <= 65535
    }

    /// An Update message of the given sections; none where the message
    /// would be longer than 65535 bytes.
    pub fn new(withdrawn_routes: Vec<u8>, path_attributes: Vec<u8>, nlri: Vec<u8>) -> (r: Option<
        UpdateMessage,
    >)
        ensures
            r is Some <==> 23 + withdrawn_routes@.len() + path_attributes@.len() + nlri@.len()
                <= 65535,
            r matches Some(m) ==> m@ == (UpdateView {
                withdrawn_routes: withdrawn_routes@,
                path_attributes: path_attributes@,
                nlri: nlri@,
            }),
    {
        let w: usize = withdrawn_routes.len();
        let p: usize = path_attributes.len();
        let n: usize = nlri.len();
        let room: usize = MAX_MESSAGE_LENGTH - UPDATE_MIN_LENGTH;
        if w <= room && p <= room - w && n <= room - w - p {
            Some(UpdateMessage { withdrawn_routes, path_attributes, nlri })
        } else {
            None
        }
    }

    pub fn withdrawn_routes(&self) -> (r: &Vec<u8>)
        ensures
            r@ == self@.withdrawn_routes,
    {
        &self.withdrawn_routes
    }

    pub fn path_attributes(&self) -> (r: &Vec<u8>)
        ensures
            r@ == self@.path_attributes,
    {
        &self.path_attributes
    }

    pub fn nlri(&self) -> (r: &Vec<u8>)
        ensures
            r@ == self@.nlri,
    {
        &self.nlri
    }

    /// Reads a whole buffer, header included, as an Update message.
    pub fn decode(bytes: &[u8]) -> (r: Result<UpdateMessage, DecodeError>)
        ensures
            match r {
                Ok(m) => parse_update(bytes@) == Ok::<UpdateView, DecodeError>(m@) && m@.wf(),
                Err(e) => parse_update(bytes@) == Err::<UpdateView, DecodeError>(e),
            },
    {
        let h = match Header::decode(bytes) {
            Err(e) => {
                return Err(e);
            },
            Ok(h) => h,
        };
        let is_update = match h.type_ {
            MessageType::Update => true,
            _ => false,
        };
        let n: usize = bytes.len();
        if !is_update || h.length as usize != n || n < UPDATE_MIN_LENGTH {
            return Err(DecodeError::MalformedBody);
        }
        let w: usize = get_u16(bytes, 19) as usize;
        if w > n - UPDATE_MIN_LENGTH {
            return Err(DecodeError::MalformedBody);
        }
        let p: usize = get_u16(bytes, 21 + w) as usize;
        if p > n - UPDATE_MIN_LENGTH - w {
            return Err(DecodeError::MalformedBody);
        }
        let withdrawn_routes = copy_range(bytes, 21, 21 + w);
        let path_attributes = copy_range(bytes, 23 + w, 23 + w + p);
        let nlri = copy_range(bytes, 23 + w + p, n);
        Ok(UpdateMessage { withdrawn_routes, path_attributes, nlri })
    }

    /// The message on the wire, header included.
    pub fn encode(&self) -> (r: Vec<u8>)
        ensures
            r@ == update_bytes(self@),
            self@.wf(),
    {
        proof {
            use_type_invariant(self);
        }
        let w: usize = self.withdrawn_routes.len();
        let p: usize = self.path_attributes.len();
        let n: usize = self.nlri.len();
        let mut out: Vec<u8> = Vec::new();
        Header::new((UPDATE_MIN_LENGTH + w + p + n) as u16, MessageType::Update).write_to(&mut out);
        put_u16(&mut out, w as u16);
        out.extend_from_slice(self.withdrawn_routes.as_slice());
        put_u16(&mut out, p as u16);
        out.extend_from_slice(self.path_attributes.as_slice());
        out.extend_from_slice(self.nlri.as_slice());
        assert(out@ =~= update_bytes(self@));
        out
    }
}

/// Decoding the encoding of an Update message gives the message back.
pub proof fn lemma_update_round_trip(m: UpdateView)
    requires
        m.wf(),
    ensures
        parse_update(update_bytes(m)) == Ok::<UpdateView, DecodeError>(m),
{
    let b = update_bytes(m);
    let body = update_body(m);
    let w = m.withdrawn_routes.len() as int;
    let p = m.path_attributes.len() as int;
    lemma_header_round_trip(update_header(m), body);
    lemma_be16_round_trip(w as u16);
    lemma_be16_round_trip(p as u16);
    assert(b.len() == m.total_length());
    assert forall|k: int| 0 <= k < body.len() implies b[19 + k] == body[k] by {}
    assert(b[19] == body[0] && b[20] == body[1]);
    assert(body[0] == be16(w as u16)[0] && body[1] == be16(w as u16)[1]);
    assert(withdrawn_length(b) == w);
    assert(b[21 + w] == body[2 + w] && b[22 + w] == body[3 + w]);
    assert(body[2 + w] == be16(p as u16)[0] && body[3 + w] == be16(p as u16)[1]);
    assert(attributes_length(b) == p);
    assert(b.subrange(21, 21 + w) =~= m.withdrawn_routes);
    assert(b.subrange(23 + w, 23 + w + p) =~= m.path_attributes);
    assert(b.subrange(23 + w + p, b.len() as int) =~= m.nlri);
}

} // verus!
