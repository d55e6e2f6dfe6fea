//! The fixed-size Netlink message header and its vocabulary of types and flags.

use super::error::DecodeError;
use super::wire::{
    get_u16, get_u32, lemma_u16_native_round_trip, lemma_u32_native_round_trip, put_u16, put_u32,
    u16_from_native, u16_native_bytes, u32_from_native, u32_native_bytes,
};
use super::{nlmsg_header_length, nlmsg_length};
use vstd::prelude::*;
use vstd::std_specs::convert::FromSpecImpl;

verus! {

/// What a message is about, as told by the 16-bit type field of its header.
#[derive(Clone, Copy, PartialEq, Eq, Debug, Structural)]
pub enum MsgType {
    /// Request
    Request,
    /// No op
    Noop,
    /// Error
    Error,
    /// End of a dump
    Done,
    /// Data lost
    Overrun,
    /// minimum type, below 10 for reserved control messages
    MinType,
    /// User defined type, passed to the user
    UserDefined(u16),
}

impl MsgType {
    /// The code that stands for this type on the wire.
    pub open spec fn code(self) -> u16 {
        match self {
            MsgType::Request => 0,
            MsgType::Noop => 1,
            MsgType::Error => 2,
            MsgType::Done => 3,
            MsgType::Overrun => 4,
            MsgType::MinType => 10,
            MsgType::UserDefined(i) => i,
        }
    }

    /// The type that a code on the wire stands for. Every code that has a
    /// name gets it; the others are user defined.
    pub open spec fn of_code(t: u16) -> MsgType {
        if t == 0 {
            MsgType::Request
        } else if t == 1 {
            MsgType::Noop
        } else if t == 2 {
            MsgType::Error
        } else if t == 3 {
            MsgType::Done
        } else if t == 4 {
            MsgType::Overrun
        } else if t == 10 {
            MsgType::MinType
        } else {
            MsgType::UserDefined(t)
        }
    }

    /// No `UserDefined` hides a code that has a name of its own.
    pub open spec fn is_canonical(self) -> bool {
        self matches MsgType::UserDefined(i) ==> MsgType::of_code(i) == self
    }

    /// A code survives the way through its type and back.
    pub proof fn lemma_code_of_code(t: u16)
        ensures
            MsgType::of_code(t).code() == t,
            MsgType::of_code(t).is_canonical(),
    {
    }

    /// A canonical type survives the way through its code and back.
    pub proof fn lemma_of_code_code(t: MsgType)
        requires
            t.is_canonical(),
        ensures
            MsgType::of_code(t.code()) == t,
    {
    }
}

impl From<MsgType> for u16 {
    fn from(t: MsgType) -> (code: u16) {
        match t {
            MsgType::Request => 0,
            MsgType::Noop => 1,
            MsgType::Error => 2,
            MsgType::Done => 3,
            MsgType::Overrun => 4,
            MsgType::MinType => 10,
            MsgType::UserDefined(i) => i,
        }
    }
}

impl FromSpecImpl<MsgType> for u16 {
    open spec fn obeys_from_spec() -> bool {
        true
    }

    open spec fn from_spec(t: MsgType) -> u16 {
        t.code()
    }
}

impl From<u16> for MsgType {
    fn from(t: u16) -> (kind: MsgType) {
        match t {
            0 => MsgType::Request,
            1 => MsgType::Noop,
            2 => MsgType::Error,
            3 => MsgType::Done,
            4 => MsgType::Overrun,
            10 => MsgType::MinType,
            i => MsgType::UserDefined(i),
        }
    }
}

impl FromSpecImpl<u16> for MsgType {
    open spec fn obeys_from_spec() -> bool {
        true
    }

    open spec fn from_spec(t: u16) -> MsgType {
        MsgType::of_code(t)
    }
}

/// Flags that any message may carry.
#[derive(Clone, Copy, PartialEq, Eq, Debug, Structural)]
pub enum Flags {
    /// It is request message.
    Request,
    /// Multipart message, terminated by a `Done` message
    Multi,
    /// Reply with ack, with zero or error code
    Ack,
    /// Echo this request
    Echo,
}

impl Flags {
    /// The bit that stands for this flag in a header.
    pub open spec fn bits(self) -> u16 {
        match self {
            Flags::Request => 1,
            Flags::Multi => 2,
            Flags::Ack => 4,
            Flags::Echo => 8,
        }
    }
}

impl From<Flags> for u16 {
    fn from(f: Flags) -> (bits: u16) {
        match f {
            Flags::Request => 1,
            Flags::Multi => 2,
            Flags::Ack => 4,
            Flags::Echo => 8,
        }
    }
}

impl FromSpecImpl<Flags> for u16 {
    open spec fn obeys_from_spec() -> bool {
        true
    }

    open spec fn from_spec(f: Flags) -> u16 {
        f.bits()
    }
}

/// Modifiers to GET request
#[derive(Clone, Copy, PartialEq, Eq, Debug, Structural)]
pub enum GetFlags {
    /// specify tree root
    Root,
    /// return all matching
    Match,
    /// atomic GET
    Atomic,
    /// (Root|Match)
    Dump,
}

impl GetFlags {
    /// The bits that stand for this modifier in a header.
    pub open spec fn bits(self) -> u16 {
        match self {
            GetFlags::Root => 0x100,
            GetFlags::Match => 0x200,
            GetFlags::Atomic => 0x400,
            GetFlags::Dump => 0x300,
        }
    }
}

impl From<GetFlags> for u16 {
    fn from(f: GetFlags) -> (bits: u16) {
        match f {
            GetFlags::Root => 0x100,
            GetFlags::Match => 0x200,
            GetFlags::Atomic => 0x400,
            GetFlags::Dump => {
                assert(0x100u16 | 0x200u16 == 0x300u16) by (bit_vector);
                0x100 | 0x200
            },
        }
    }
}

impl FromSpecImpl<GetFlags> for u16 {
    open spec fn obeys_from_spec() -> bool {
        true
    }

    open spec fn from_spec(f: GetFlags) -> u16 {
        f.bits()
    }
}

/// Modifiers to NEW request
#[derive(Clone, Copy, PartialEq, Eq, Debug, Structural)]
pub enum NewFlags {
    /// Override existing
    Replace,
    /// Do not touch, if it exists
    Excl,
    /// Create, if it does not exist
    Create,
    /// Add to end of list
    Append,
}

impl NewFlags {
    /// The bit that stands for this modifier in a header.
    pub open spec fn bits(self) -> u16 {
        match self {
            NewFlags::Replace => 0x100,
            NewFlags::Excl => 0x200,
            NewFlags::Create => 0x400,
            NewFlags::Append => 0x800,
        }
    }
}

impl From<NewFlags> for u16 {
    fn from(f: NewFlags) -> (bits: u16) {
        match f {
            NewFlags::Replace => 0x100,
            NewFlags::Excl => 0x200,
            NewFlags::Create => 0x400,
            NewFlags::Append => 0x800,
        }
    }
}

impl FromSpecImpl<NewFlags> for u16 {
    open spec fn obeys_from_spec() -> bool {
        true
    }

    open spec fn from_spec(f: NewFlags) -> u16 {
        f.bits()
    }
}

/// The number of bytes that a header takes on the wire.
pub open spec fn header_len() -> nat {
    16
}

/// Ghost model of a header: the five wire fields as plain integers.
pub struct HeaderView {
    /// Length of message including header.
    pub length: u32,
    /// Type of message content, as a code of [`MsgType`].
    pub kind: u16,
    /// Additional flags.
    pub flags: u16,
    /// Sequence number.
    pub seq: u32,
    /// Sender port ID.
    pub pid: u32,
}

impl HeaderView {
    /// This header with the bits of `bits` set in its flags as well.
    pub open spec fn with_flags(self, bits: u16) -> HeaderView {
        HeaderView { flags: self.flags | bits, ..self }
    }

    /// The wire form: length, type, flags, sequence number and sender, each
    /// in the host's byte order, 16 bytes in all.
    pub open spec fn to_bytes(self) -> Seq<u8> {
        u32_native_bytes(self.length) + u16_native_bytes(self.kind) + u16_native_bytes(self.flags)
            + u32_native_bytes(self.seq) + u32_native_bytes(self.pid)
    }

    /// The header that the first 16 bytes of `s` spell.
    pub open spec fn of_bytes(s: Seq<u8>) -> HeaderView
        recommends
            s.len() >= header_len(),
    {
        HeaderView {
            length: u32_from_native(s.subrange(0, 4)),
            kind: u16_from_native(s.subrange(4, 6)),
            flags: u16_from_native(s.subrange(6, 8)),
            seq: u32_from_native(s.subrange(8, 12)),
            pid: u32_from_native(s.subrange(12, 16)),
        }
    }
}

/// What decoding a header from `s` gives: the header spelled by the first 16
/// bytes and the count 16, or `UnexpectedEof` where `s` is shorter.
pub open spec fn parse_header(s: Seq<u8>) -> Result<(HeaderView, nat), DecodeError> {
    if s.len() < header_len() {
        Err(DecodeError::UnexpectedEof)
    } else {
        Ok((HeaderView::of_bytes(s), header_len()))
    }
}

/// A header's wire form is 16 bytes long.
pub proof fn lemma_header_bytes_len(h: HeaderView)
    ensures
        h.to_bytes().len() == header_len(),
{
    lemma_u32_native_round_trip(h.length);
    lemma_u16_native_round_trip(h.kind);
    lemma_u16_native_round_trip(h.flags);
    lemma_u32_native_round_trip(h.seq);
    lemma_u32_native_round_trip(h.pid);
}

/// Encoding a header and decoding the result, whatever bytes follow it,
/// gives the same header and consumes exactly 16 bytes.
pub proof fn lemma_header_round_trip(h: HeaderView, tail: Seq<u8>)
    ensures
        parse_header(h.to_bytes() + tail) == Ok::<(HeaderView, nat), DecodeError>((h, 16)),
{
    lemma_header_bytes_len(h);
    lemma_u32_native_round_trip(h.length);
    lemma_u16_native_round_trip(h.kind);
    lemma_u16_native_round_trip(h.flags);
    lemma_u32_native_round_trip(h.seq);
    lemma_u32_native_round_trip(h.pid);
    let s = h.to_bytes() + tail;
    assert(s.subrange(0, 4) =~= u32_native_bytes(h.length));
    assert(s.subrange(4, 6) =~= u16_native_bytes(h.kind));
    assert(s.subrange(6, 8) =~= u16_native_bytes(h.flags));
    assert(s.subrange(8, 12) =~= u32_native_bytes(h.seq));
    assert(s.subrange(12, 16) =~= u32_native_bytes(h.pid));
}

/// `Dump` is the bits of `Root` and of `Match` together. Setting the `Root`
/// bit and then the `Match` bit leaves the same flags as `Dump` does in one
/// step, and both bits are set after it.
pub proof fn lemma_dump_is_root_then_match(h: HeaderView)
    ensures
        GetFlags::Dump.bits() == GetFlags::Root.bits() | GetFlags::Match.bits(),
        h.with_flags(GetFlags::Root.bits()).with_flags(GetFlags::Match.bits()) == h.with_flags(
            GetFlags::Dump.bits(),
        ),
        h.with_flags(GetFlags::Dump.bits()).flags & 0x300 == 0x300,
{
    let f = h.flags;
    assert(0x100u16 | 0x200u16 == 0x300u16) by (bit_vector);
    assert((f | 0x100u16) | 0x200u16 == f | 0x300u16) by (bit_vector);
    assert((f | 0x300u16) & 0x300u16 == 0x300u16) by (bit_vector);
}

/// The header that starts every message, 16 bytes on the wire:
///
/// ```text
/// __u32 nlmsg_len;    /* Length of message including header. */
/// __u16 nlmsg_type;   /* Type of message content. */
/// __u16 nlmsg_flags;  /* Additional flags. */
/// __u32 nlmsg_seq;    /* Sequence number. */
/// __u32 nlmsg_pid;    /* Sender port ID. */
/// ```
#[derive(Clone, Copy, PartialEq, Eq, Debug, Structural)]
pub struct NlMsgHeader {
    msg_length: u32,
    nl_type: u16,
    flags: u16,
    seq: u32,
    pid: u32,
}

impl View for NlMsgHeader {
    type V = HeaderView;

    closed spec fn view(&self) -> HeaderView {
        HeaderView {
            length: self.msg_length,
            kind: self.nl_type,
            flags: self.flags,
            seq: self.seq,
            pid: self.pid,
        }
    }
}

impl NlMsgHeader {
    /// Two headers with the same five fields are the same header.
    pub proof fn lemma_view_injective(a: NlMsgHeader, b: NlMsgHeader)
        requires
            a@ == b@,
        ensures
            a == b,
    {
    }

    /// A header of the user-defined type `t`, with the `Request` flag set
    /// and the length of a bare header.
    pub fn user_defined(t: u16) -> (h: NlMsgHeader)
        ensures
            h@ == (HeaderView { length: 16, kind: t, flags: Flags::Request.bits(), seq: 0, pid: 0 }),
    {
        NlMsgHeader {
            msg_length: nlmsg_header_length() as u32,
            nl_type: t,
            flags: u16::from(Flags::Request),
            seq: 0,
            pid: 0,
        }
    }

    /// A header of type `Request`, with the `Request` flag set and the
    /// length of a bare header.
    pub fn request() -> (h: NlMsgHeader)
        ensures
            h@ == (HeaderView {
                length: 16,
                kind: MsgType::Request.code(),
                flags: Flags::Request.bits(),
                seq: 0,
                pid: 0,
            }),
    {
        NlMsgHeader {
            msg_length: nlmsg_header_length() as u32,
            nl_type: u16::from(MsgType::Request),
            flags: u16::from(Flags::Request),
            seq: 0,
            pid: 0,
        }
    }

    /// A header of type `Done`, which ends a multipart sequence, with the
    /// `Multi` flag set and the length of a bare header.
    pub fn done() -> (h: NlMsgHeader)
        ensures
            h@ == (HeaderView {
                length: 16,
                kind: MsgType::Done.code(),
                flags: Flags::Multi.bits(),
                seq: 0,
                pid: 0,
            }),
    {
        NlMsgHeader {
            msg_length: nlmsg_header_length() as u32,
            nl_type: u16::from(MsgType::Done),
            flags: u16::from(Flags::Multi),
            seq: 0,
            pid: 0,
        }
    }

    /// A header of type `Error`, with no flag set and the length of a
    /// control record: the header, a status code of 4 bytes and the header
    /// of the request.
    pub fn error() -> (h: NlMsgHeader)
        ensures
            h@ == (HeaderView {
                length: 36,
                kind: MsgType::Error.code(),
                flags: 0,
                seq: 0,
                pid: 0,
            }),
    {
        NlMsgHeader {
            msg_length: nlmsg_length(nlmsg_header_length() + 4) as u32,  // nlmsgerr
            nl_type: u16::from(MsgType::Error),
            flags: 0,
            seq: 0,
            pid: 0,
        }
    }

    /// Decodes a header from the first 16 bytes of `bytes`.
    pub fn from_bytes(bytes: &[u8]) -> (r: Result<(NlMsgHeader, usize), DecodeError>)
        ensures
            match r {
                Ok((h, n)) => parse_header(bytes@) == Ok::<(HeaderView, nat), DecodeError>(
                    (h@, n as nat),
                ),
                Err(e) => parse_header(bytes@) == Err::<(HeaderView, nat), DecodeError>(e),
            },
    {
        if bytes.len() < 16 {
            return Err(DecodeError::UnexpectedEof);
        }
        let len = get_u32(bytes, 0);
        let nl_type = get_u16(bytes, 4);
        let flags = get_u16(bytes, 6);
        let seq = get_u32(bytes, 8);
        let pid = get_u32(bytes, 12);

        Ok((NlMsgHeader { msg_length: len, nl_type: nl_type, flags: flags, seq: seq, pid: pid }, 16))
    }

    /// The 16 bytes of the header on the wire. Decoding them gives the
    /// header back.
    pub fn bytes(&self) -> (out: Vec<u8>)
        ensures
            out@ == self@.to_bytes(),
            out@.len() == header_len(),
            parse_header(out@) == Ok::<(HeaderView, nat), DecodeError>((self@, 16)),
    {
        let mut out = Vec::with_capacity(16);
        put_u32(&mut out, self.msg_length);
        put_u16(&mut out, self.nl_type);
        put_u16(&mut out, self.flags);
        put_u32(&mut out, self.seq);
        put_u32(&mut out, self.pid);
        proof {
            lemma_header_bytes_len(self@);
            lemma_header_round_trip(self@, Seq::empty());
            assert(self@.to_bytes() + Seq::<u8>::empty() =~= self@.to_bytes());
        }
        out
    }

    /// The type of the message.
    pub fn msg_type(&self) -> (t: MsgType)
        ensures
            t == MsgType::of_code(self@.kind),
    {
        MsgType::from(self.nl_type)
    }

    /// The length of the message, header included, as the header declares
    /// it.
    pub fn msg_length(&self) -> (n: u32)
        ensures
            n == self@.length,
    {
        self.msg_length
    }

    /// The flags that are set, as the bits of the wire field.
    pub fn msg_flags(&self) -> (bits: u16)
        ensures
            bits == self@.flags,
    {
        self.flags
    }

    /// The sequence number.
    pub fn msg_seq(&self) -> (n: u32)
        ensures
            n == self@.seq,
    {
        self.seq
    }

    /// The sender's port ID.
    pub fn msg_pid(&self) -> (n: u32)
        ensures
            n == self@.pid,
    {
        self.pid
    }

    /// Set message length to that of the header and `len` bytes of payload
    pub fn data_length(&mut self, len: u32) -> (r: &mut NlMsgHeader)
        requires
            len + header_len() <= u32::MAX,
        ensures
            r@ == (HeaderView { length: (len + header_len()) as u32, ..old(self)@ }),
            *final(self) == *final(r),
    {
        self.msg_length = nlmsg_length(len as usize) as u32;
        self
    }

    /// Multipart message
    pub fn multipart(&mut self) -> (r: &mut NlMsgHeader)
        ensures
            r@ == old(self)@.with_flags(Flags::Multi.bits()),
            *final(self) == *final(r),
    {
        self.flags |= u16::from(Flags::Multi);
        self
    }

    /// Request acknowledgement
    pub fn ack(&mut self) -> (r: &mut NlMsgHeader)
        ensures
            r@ == old(self)@.with_flags(Flags::Ack.bits()),
            *final(self) == *final(r),
    {
        self.flags |= u16::from(Flags::Ack);
        self
    }

    /// Echo message
    pub fn echo(&mut self) -> (r: &mut NlMsgHeader)
        ensures
            r@ == old(self)@.with_flags(Flags::Echo.bits()),
            *final(self) == *final(r),
    {
        self.flags |= u16::from(Flags::Echo);
        self
    }

    /// Set sequence number
    pub fn seq(&mut self, n: u32) -> (r: &mut NlMsgHeader)
        ensures
            r@ == (HeaderView { seq: n, ..old(self)@ }),
            *final(self) == *final(r),
    {
        self.seq = n;
        self
    }

    /// Set PID number
    pub fn pid(&mut self, n: u32) -> (r: &mut NlMsgHeader)
        ensures
            r@ == (HeaderView { pid: n, ..old(self)@ }),
            *final(self) == *final(r),
    {
        self.pid = n;
        self
    }

    /// Override existing
    pub fn replace(&mut self) -> (r: &mut NlMsgHeader)
        ensures
            r@ == old(self)@.with_flags(NewFlags::Replace.bits()),
            *final(self) == *final(r),
    {
        self.flags |= u16::from(NewFlags::Replace);
        self
    }

    /// Do not touch, if it exists
    pub fn excl(&mut self) -> (r: &mut NlMsgHeader)
        ensures
            r@ == old(self)@.with_flags(NewFlags::Excl.bits()),
            *final(self) == *final(r),
    {
        self.flags |= u16::from(NewFlags::Excl);
        self
    }

    /// Create, if it does not exist
    pub fn create(&mut self) -> (r: &mut NlMsgHeader)
        ensures
            r@ == old(self)@.with_flags(NewFlags::Create.bits()),
            *final(self) == *final(r),
    {
        self.flags |= u16::from(NewFlags::Create);
        self
    }

    /// Add to end of list
    pub fn append(&mut self) -> (r: &mut NlMsgHeader)
        ensures
            r@ == old(self)@.with_flags(NewFlags::Append.bits()),
            *final(self) == *final(r),
    {
        self.flags |= u16::from(NewFlags::Append);
        self
    }

    /// specify tree root
    pub fn root(&mut self) -> (r: &mut NlMsgHeader)
        ensures
            r@ == old(self)@.with_flags(GetFlags::Root.bits()),
            *final(self) == *final(r),
    {
        self.flags |= u16::from(GetFlags::Root);
        self
    }

    /// return all matching
    pub fn match_provided(&mut self) -> (r: &mut NlMsgHeader)
        ensures
            r@ == old(self)@.with_flags(GetFlags::Match.bits()),
            *final(self) == *final(r),
    {
        self.flags |= u16::from(GetFlags::Match);
        self
    }

    /// atomic GET
    pub fn atomic(&mut self) -> (r: &mut NlMsgHeader)
        ensures
            r@ == old(self)@.with_flags(GetFlags::Atomic.bits()),
            *final(self) == *final(r),
    {
        self.flags |= u16::from(GetFlags::Atomic);
        self
    }

    /// (Root|Match)
    pub fn dump(&mut self) -> (r: &mut NlMsgHeader)
        ensures
            r@ == old(self)@.with_flags(GetFlags::Dump.bits()),
            *final(self) == *final(r),
    {
        self.flags |= u16::from(GetFlags::Dump);
        self
    }
}

} // verus!
