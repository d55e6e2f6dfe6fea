//! Netlink messages: the payload and the message codec, and the modules
//! around them.

use vstd::prelude::*;
use vstd::slice::slice_to_vec;

pub mod address;
pub mod datagram;
pub mod error;
pub mod msg;
pub mod wire;

pub use self::address::{sockaddr_to_netlinkaddr, NetlinkAddr, SockAddr};
pub use self::datagram::{assemble, encode_datagram, receive, Termination};
pub use self::error::{AddressError, DecodeError};
pub use self::msg::{Flags, GetFlags, MsgType, NewFlags, NlMsgHeader};

use self::msg::{
    header_len, lemma_header_bytes_len, lemma_header_round_trip, parse_header, HeaderView,
};
use self::wire::{get_u32, lemma_u32_native_round_trip, put_u32, u32_from_native, u32_native_bytes};

verus! {

/// The boundary, in bytes, to which Netlink aligns lengths.
pub const NLMSG_ALIGNTO: usize = 4;

/// The size of the header structure, in bytes.
pub const NLMSG_HDRSIZE: usize = 16;

/// `len` rounded up to the next multiple of 4.
pub open spec fn align_up(len: nat) -> nat {
    ((len + 3) / 4 * 4) as nat
}

/// Round the length of a netlink message up to align it properly.
pub fn nlmsg_align(len: usize) -> (aligned: usize)
    requires
        len + 3 <= usize::MAX,
    ensures
        aligned == align_up(len as nat),
        aligned % 4 == 0,
        len <= aligned < len + 4,
{
    let padded: usize = len + (NLMSG_ALIGNTO - 1);
    assert(padded & !3usize == padded / 4 * 4) by (bit_vector);
    padded & !(NLMSG_ALIGNTO - 1)
}

/// The aligned size of the header.
pub fn nlmsg_header_length() -> (n: usize)
    ensures
        n == header_len(),
{
    nlmsg_align(NLMSG_HDRSIZE)
}

/// Given the payload length, `len`, this returns the length to store in the
/// length field of the header.
pub fn nlmsg_length(len: usize) -> (n: usize)
    requires
        len + header_len() <= usize::MAX,
    ensures
        n == len + header_len(),
{
    len + nlmsg_align(nlmsg_header_length())
}

/// Ghost model of a payload: the bytes or the embedded header that it holds.
pub enum PayloadView {
    /// No payload at all.
    Empty,
    /// Opaque bytes.
    Data(Seq<u8>),
    /// An acknowledgement of the request with this header.
    Ack(HeaderView),
    /// A rejection of the request with this header.
    Error(HeaderView),
}

impl PayloadView {
    /// The wire form. A control record starts with a 4-byte status code, 0
    /// for an acknowledgement and 1 for a rejection, and goes on with the
    /// embedded header.
    pub open spec fn to_bytes(self) -> Seq<u8> {
        match self {
            PayloadView::Empty => Seq::empty(),
            PayloadView::Data(d) => d,
            PayloadView::Ack(h) => u32_native_bytes(0) + h.to_bytes(),
            PayloadView::Error(h) => u32_native_bytes(1) + h.to_bytes(),
        }
    }
}

/// What decoding `len` bytes of opaque data from `s` gives: the first `len`
/// bytes, or `PayloadTooShort` where `s` has fewer.
pub open spec fn parse_data(s: Seq<u8>, len: nat) -> Result<(PayloadView, nat), DecodeError> {
    if s.len() < len {
        Err(DecodeError::PayloadTooShort)
    } else {
        Ok((PayloadView::Data(s.subrange(0, len as int)), len))
    }
}

/// What decoding a control record from `s` gives: a status code of 4 bytes,
/// then an embedded header. Code 0 makes it an acknowledgement, any other
/// code a rejection.
pub open spec fn parse_error_record(s: Seq<u8>) -> Result<(PayloadView, nat), DecodeError> {
    if s.len() < 4 {
        Err(DecodeError::UnexpectedEof)
    } else {
        match parse_header(s.skip(4)) {
            Err(e) => Err(e),
            Ok((h, n)) => if u32_from_native(s.subrange(0, 4)) == 0 {
                Ok((PayloadView::Ack(h), 4 + n))
            } else {
                Ok((PayloadView::Error(h), 4 + n))
            },
        }
    }
}

/// What a message carries after its header.
#[derive(Clone, Copy, Eq, PartialEq, Debug)]
pub enum Payload<'a> {
    /// No payload at all.
    Empty,
    /// Opaque bytes, borrowed from the buffer they were decoded from.
    Data(&'a [u8]),
    /// An acknowledgement of the request with this header.
    Ack(NlMsgHeader),
    /// A rejection of the request with this header.
    Error(NlMsgHeader),
}

impl<'a> View for Payload<'a> {
    type V = PayloadView;

    open spec fn view(&self) -> PayloadView {
        match *self {
            Payload::Empty => PayloadView::Empty,
            Payload::Data(b) => PayloadView::Data(b@),
            Payload::Ack(h) => PayloadView::Ack(h@),
            Payload::Error(h) => PayloadView::Error(h@),
        }
    }
}

impl<'a> Payload<'a> {
    /// Decodes `len` bytes of opaque data from the front of `bytes`.
    pub fn data(bytes: &'a [u8], len: usize) -> (r: Result<(Payload<'a>, usize), DecodeError>)
        ensures
            match r {
                Ok((p, n)) => parse_data(bytes@, len as nat) == Ok::<(PayloadView, nat), DecodeError>(
                    (p@, n as nat),
                ),
                Err(e) => parse_data(bytes@, len as nat) == Err::<(PayloadView, nat), DecodeError>(e),
            },
    {
        let l = bytes.len();
        if l < len {
            Err(DecodeError::PayloadTooShort)
        } else {
            Ok((Payload::Data(&bytes[0..len]), len))
        }
    }

    /// Decodes a control record, an acknowledgement or a rejection, from the
    /// front of `bytes`.
    pub fn nlmsg_error(bytes: &'a [u8]) -> (r: Result<(Payload<'a>, usize), DecodeError>)
        ensures
            match r {
                Ok((p, n)) => parse_error_record(bytes@) == Ok::<(PayloadView, nat), DecodeError>(
                    (p@, n as nat),
                ),
                Err(e) => parse_error_record(bytes@) == Err::<(PayloadView, nat), DecodeError>(e),
            },
    {
        if bytes.len() < 4 {
            return Err(DecodeError::UnexpectedEof);
        }
        let err = get_u32(bytes, 0);
        let n: usize = 4;
        let (hdr, n2) = match NlMsgHeader::from_bytes(&bytes[n..bytes.len()]) {
            Ok(decoded) => decoded,
            Err(e) => {
                return Err(e);
            },
        };
        let num = n + n2;
        if err == 0 {
            Ok((Payload::Ack(hdr), num))
        } else {
            Ok((Payload::Error(hdr), num))
        }
    }

    /// The bytes of the payload on the wire.
    pub fn bytes(&self) -> (out: Vec<u8>)
        ensures
            out@ == self@.to_bytes(),
    {
        match self {
            Payload::Empty => Vec::new(),
            Payload::Data(b) => slice_to_vec(b),
            Payload::Ack(h) => {
                let mut vec = Vec::new();
                put_u32(&mut vec, 0);
                let mut embedded = h.bytes();
                vec.append(&mut embedded);
                vec
            },
            Payload::Error(h) => {
                let mut vec = Vec::new();
                put_u32(&mut vec, 1);
                let mut embedded = h.bytes();
                vec.append(&mut embedded);
                vec
            },
        }
    }
}

/// Ghost model of a message: its header and its payload.
pub struct MsgView {
    pub header: HeaderView,
    pub payload: PayloadView,
}

impl MsgView {
    /// The wire form: the header, then the payload, with no padding.
    pub open spec fn to_bytes(self) -> Seq<u8> {
        self.header.to_bytes() + self.payload.to_bytes()
    }

    /// The payload is of the kind that the header's type announces.
    pub open spec fn payload_agrees(self) -> bool {
        if self.header.kind == MsgType::Done.code() {
            self.payload is Empty
        } else if self.header.kind == MsgType::Error.code() {
            self.payload is Ack || self.payload is Error
        } else {
            self.payload is Data
        }
    }

    /// The payload is of the kind that the header's type announces, and
    /// where it is opaque data, the header's length field counts the header
    /// and exactly those bytes.
    pub open spec fn well_formed(self) -> bool {
        &&& self.payload_agrees()
        &&& self.payload matches PayloadView::Data(d) ==> self.header.length == header_len()
            + d.len()
    }
}

/// What decoding a message from `s` gives. A header comes first. Its type
/// decides what follows: nothing after `Done`, a control record after
/// `Error`, and after any other type as many bytes of data as the header's
/// length field counts beyond the header itself.
pub open spec fn parse_msg(s: Seq<u8>) -> Result<(MsgView, nat), DecodeError> {
    match parse_header(s) {
        Err(e) => Err(e),
        Ok((h, n)) => if h.kind == MsgType::Done.code() {
            Ok((MsgView { header: h, payload: PayloadView::Empty }, n))
        } else if h.kind == MsgType::Error.code() {
            match parse_error_record(s.skip(n as int)) {
                Err(e) => Err(e),
                Ok((p, n2)) => Ok((MsgView { header: h, payload: p }, n + n2)),
            }
        } else if h.length < header_len() {
            Err(DecodeError::LengthUnderflow)
        } else {
            match parse_data(s.skip(n as int), (h.length - header_len()) as nat) {
                Err(e) => Err(e),
                Ok((p, n2)) => Ok((MsgView { header: h, payload: p }, n + n2)),
            }
        },
    }
}

/// One Netlink message: a header and the payload that it announces.
#[derive(Clone, Copy, Eq, PartialEq, Debug)]
pub struct Msg<'a> {
    header: NlMsgHeader,
    payload: Payload<'a>,
}

impl<'a> View for Msg<'a> {
    type V = MsgView;

    closed spec fn view(&self) -> MsgView {
        MsgView { header: self.header@, payload: self.payload@ }
    }
}

impl<'a> Msg<'a> {
    /// Decodes one message from the front of `bytes`. What it gives is well
    /// formed and took at least the 16 bytes of a header.
    pub fn from_bytes(bytes: &'a [u8]) -> (r: Result<(Msg<'a>, usize), DecodeError>)
        ensures
            match r {
                Ok((m, n)) => {
                    &&& parse_msg(bytes@) == Ok::<(MsgView, nat), DecodeError>((m@, n as nat))
                    &&& m@.well_formed()
                    &&& header_len() <= n <= bytes@.len()
                },
                Err(e) => parse_msg(bytes@) == Err::<(MsgView, nat), DecodeError>(e),
            },
    {
        proof {
            lemma_parse_msg_bounds(bytes@);
        }
        let (hdr, n) = match NlMsgHeader::from_bytes(bytes) {
            Ok(decoded) => decoded,
            Err(e) => {
                return Err(e);
            },
        };
        let rest = &bytes[n..bytes.len()];
        let (payload, n2) = match hdr.msg_type() {
            MsgType::Done => (Payload::Empty, 0),
            MsgType::Error => {
                match Payload::nlmsg_error(rest) {
                    Ok(decoded) => decoded,
                    Err(e) => {
                        return Err(e);
                    },
                }
            },
            _ => {
                if hdr.msg_length() < nlmsg_header_length() as u32 {
                    return Err(DecodeError::LengthUnderflow);
                }
                let msg_len = hdr.msg_length() as usize - nlmsg_header_length();
                match Payload::data(rest, msg_len) {
                    Ok(decoded) => decoded,
                    Err(e) => {
                        return Err(e);
                    },
                }
            },
        };

        Ok((Msg { header: hdr, payload: payload }, n + n2))
    }

    /// A message made of `hdr` and `payload` as they are. Whether they go
    /// together is for the caller to see to: see [`MsgView::well_formed`].
    pub fn new(hdr: NlMsgHeader, payload: Payload<'a>) -> (m: Msg<'a>)
        ensures
            m@ == (MsgView { header: hdr@, payload: payload@ }),
    {
        Msg { header: hdr, payload: payload }
    }

    /// The bytes of the message on the wire: the header's, then the
    /// payload's. Decoding them gives a well-formed message back.
    pub fn bytes(&self) -> (out: Vec<u8>)
        ensures
            out@ == self@.to_bytes(),
            self@.well_formed() ==> parse_msg(out@) == Ok::<(MsgView, nat), DecodeError>(
                (self@, out@.len()),
            ),
    {
        let mut bytes: Vec<u8> = self.header.bytes();
        let mut payload = self.payload.bytes();
        bytes.append(&mut payload);
        proof {
            if self@.well_formed() {
                lemma_msg_round_trip(self@, Seq::empty());
                assert(self@.to_bytes() + Seq::<u8>::empty() =~= self@.to_bytes());
            }
        }
        bytes
    }

    /// The header of the message.
    pub fn header(&self) -> (h: NlMsgHeader)
        ensures
            h@ == self@.header,
    {
        self.header
    }

    /// The payload of the message.
    pub fn payload(&self) -> (p: &Payload<'a>)
        ensures
            p@ == self@.payload,
    {
        &self.payload
    }
}

/// A message that decodes takes at least its header and at most the whole
/// buffer, and its payload is of the kind that its header announces.
pub proof fn lemma_parse_msg_bounds(s: Seq<u8>)
    ensures
        parse_msg(s) matches Ok((m, n)) ==> header_len() <= n <= s.len() && m.well_formed(),
{
}

/// A control record made of the status code `code`, the wire form of the
/// header `h` and any bytes after it decodes to an acknowledgement of `h`
/// where the code is 0 and to a rejection of `h` otherwise, and takes 20
/// bytes.
pub proof fn lemma_error_record_round_trip(code: u32, h: HeaderView, tail: Seq<u8>)
    ensures
        parse_error_record(u32_native_bytes(code) + h.to_bytes() + tail) == Ok::<
            (PayloadView, nat),
            DecodeError,
        >((if code == 0 { PayloadView::Ack(h) } else { PayloadView::Error(h) }, 20)),
{
    let s = u32_native_bytes(code) + h.to_bytes() + tail;
    lemma_u32_native_round_trip(code);
    lemma_header_bytes_len(h);
    lemma_header_round_trip(h, tail);
    assert(s.subrange(0, 4) =~= u32_native_bytes(code));
    assert(s.skip(4) =~= h.to_bytes() + tail);
}

/// Encoding a well-formed message and decoding the result, whatever bytes
/// follow it, gives the same message and consumes exactly the bytes of its
/// wire form: 16 for a `Done` message, 36 for a control record, and 16 plus
/// the length of the data for any other.
pub proof fn lemma_msg_round_trip(m: MsgView, tail: Seq<u8>)
    requires
        m.well_formed(),
    ensures
        parse_msg(m.to_bytes() + tail) == Ok::<(MsgView, nat), DecodeError>(
            (m, m.to_bytes().len()),
        ),
        m.to_bytes().len() == header_len() + m.payload.to_bytes().len(),
        m.payload matches PayloadView::Data(d) ==> m.payload.to_bytes().len() == d.len(),
        m.payload is Empty ==> m.payload.to_bytes().len() == 0,
        m.payload is Ack || m.payload is Error ==> m.payload.to_bytes().len() == 20,
{
    let body = m.payload.to_bytes();
    let s = m.to_bytes() + tail;
    lemma_header_bytes_len(m.header);
    assert(s =~= m.header.to_bytes() + (body + tail));
    lemma_header_round_trip(m.header, body + tail);
    assert(s.skip(16) =~= body + tail);
    match m.payload {
        PayloadView::Empty => {},
        PayloadView::Data(d) => {
            assert((d + tail).subrange(0, d.len() as int) =~= d);
        },
        PayloadView::Ack(h) => {
            lemma_header_bytes_len(h);
            lemma_u32_native_round_trip(0);
            lemma_error_record_round_trip(0, h, tail);
        },
        PayloadView::Error(h) => {
            lemma_header_bytes_len(h);
            lemma_u32_native_round_trip(1);
            lemma_error_record_round_trip(1, h, tail);
        },
    }
}

} // verus!
