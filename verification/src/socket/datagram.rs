//! One datagram, many messages: what goes out in a single send, and the
//! assembly of what came in with a single receive.

use super::address::{
    parse_sockaddr, sockaddr_to_netlinkaddr, NetlinkAddr, NetlinkAddrView, SockAddr,
};
use super::error::AddressError;
use super::msg::{header_len, lemma_header_round_trip, HeaderView, MsgType};
use super::{lemma_msg_round_trip, lemma_parse_msg_bounds, parse_msg, Msg, MsgView};
use vstd::prelude::*;

verus! {

/// Why the assembly of a datagram's messages came to its end.
#[derive(Clone, Copy, PartialEq, Eq, Debug, Structural)]
pub enum Termination {
    /// A `Done` message closed the sequence.
    SawDoneMarker,
    /// What was left of the datagram did not decode as a message.
    EndOfDatagram,
}

/// The views of a sequence of messages, in order.
pub open spec fn msg_views(msgs: Seq<Msg>) -> Seq<MsgView> {
    Seq::new(msgs.len(), |i: int| msgs[i]@)
}

/// The wire forms of `msgs`, one after the other.
pub open spec fn encode_all(msgs: Seq<MsgView>) -> Seq<u8>
    decreases msgs.len(),
{
    if msgs.len() == 0 {
        Seq::empty()
    } else {
        msgs[0].to_bytes() + encode_all(msgs.skip(1))
    }
}

/// The messages that a datagram holds, and why their sequence ends.
/// Messages are decoded one after the other from the front of `s`. A `Done`
/// message ends the sequence and is not part of it. So do bytes that do not
/// decode as a message, be it at the datagram's end or before.
///
/// The definition is opaque, so that proofs unfold it only where they ask
/// to, with `reveal`. The lemmas of this module say what it gives on the
/// datagrams that a sender builds.
#[verifier::opaque]
pub open spec fn parse_datagram(s: Seq<u8>) -> (Seq<MsgView>, Termination)
    decreases s.len(),
{
    match parse_msg(s) {
        Err(_) => (Seq::empty(), Termination::EndOfDatagram),
        Ok((m, n)) => if m.header.kind == MsgType::Done.code() {
            (Seq::empty(), Termination::SawDoneMarker)
        } else {
            let rest = parse_datagram(s.skip(n as int));
            (seq![m] + rest.0, rest.1)
        },
    }
}

/// Joining the wire forms of some messages and of one more is the same as
/// joining those of all of them.
pub proof fn lemma_encode_all_push(msgs: Seq<MsgView>, m: MsgView)
    ensures
        encode_all(msgs.push(m)) == encode_all(msgs) + m.to_bytes(),
    decreases msgs.len(),
{
    let all = msgs.push(m);
    let last = m.to_bytes();
    if msgs.len() == 0 {
        assert(all.skip(1) =~= Seq::<MsgView>::empty());
        assert(encode_all(all.skip(1)) == Seq::<u8>::empty());
        assert(encode_all(msgs) == Seq::<u8>::empty());
        assert(last + Seq::<u8>::empty() =~= Seq::<u8>::empty() + last);
    } else {
        let first = msgs[0].to_bytes();
        let middle = encode_all(msgs.skip(1));
        assert(all.skip(1) =~= msgs.skip(1).push(m));
        lemma_encode_all_push(msgs.skip(1), m);
        assert(encode_all(all.skip(1)) == middle + last);
        assert(encode_all(all) == first + (middle + last));
        assert(encode_all(msgs) == first + middle);
        assert(first + (middle + last) =~= (first + middle) + last);
    }
}

/// The bytes of one datagram that carries `messages`, in order: what goes
/// out in a single send.
pub fn encode_datagram<'a>(messages: &Vec<Msg<'a>>) -> (bytes: Vec<u8>)
    ensures
        bytes@ == encode_all(msg_views(messages@)),
{
    let mut bytes: Vec<u8> = Vec::new();
    let mut i: usize = 0;
    while i < messages.len()
        invariant
            i <= messages.len(),
            bytes@ == encode_all(msg_views(messages@).take(i as int)),
        decreases messages.len() - i,
    {
        let mut b = messages[i].bytes();
        proof {
            let views = msg_views(messages@);
            assert(views.take(i + 1) =~= views.take(i as int).push(views[i as int]));
            lemma_encode_all_push(views.take(i as int), views[i as int]);
        }
        bytes.append(&mut b);
        i += 1;
    }
    assert(msg_views(messages@).take(i as int) =~= msg_views(messages@));
    bytes
}

/// Assembles the messages of one received datagram: decodes them in wire
/// order until a `Done` message, which is left out, or until the rest does
/// not decode, which is no error.
pub fn assemble<'a>(datagram: &'a [u8]) -> (r: (Vec<Msg<'a>>, Termination))
    ensures
        (msg_views(r.0@), r.1) == parse_datagram(datagram@),
        r.0@.len() == parse_datagram(datagram@).0.len(),
{
    let mut messages: Vec<Msg<'a>> = Vec::new();
    let mut n: usize = 0;
    proof {
        let all = parse_datagram(datagram@);
        assert(datagram@.skip(0) =~= datagram@);
        assert(msg_views(messages@) + all.0 =~= all.0);
    }
    loop
        invariant
            n <= datagram@.len(),
            parse_datagram(datagram@) == (
                msg_views(messages@) + parse_datagram(datagram@.skip(n as int)).0,
                parse_datagram(datagram@.skip(n as int)).1,
            ),
        decreases datagram@.len() - n,
    {
        let rest = &datagram[n..datagram.len()];
        proof {
            reveal(parse_datagram);
            lemma_parse_msg_bounds(rest@);
        }
        match Msg::from_bytes(rest) {
            Err(_) => {
                assert(msg_views(messages@) + Seq::<MsgView>::empty() =~= msg_views(messages@));
                return (messages, Termination::EndOfDatagram);
            },
            Ok((msg, num_bytes)) => {
                let t = msg.header().msg_type();
                match t {
                    MsgType::Done => {
                        assert(msg_views(messages@) + Seq::<MsgView>::empty() =~= msg_views(
                            messages@,
                        ));
                        return (messages, Termination::SawDoneMarker);
                    },
                    _ => {
                        proof {
                            let before = msg_views(messages@);
                            let tail = parse_datagram(rest@.skip(num_bytes as int));
                            assert(rest@.skip(num_bytes as int) =~= datagram@.skip(
                                n + num_bytes,
                            ));
                            assert(msg_views(messages@.push(msg)) =~= before.push(msg@));
                            assert(before + (seq![msg@] + tail.0) =~= before.push(msg@) + tail.0);
                        }
                        n += num_bytes;
                        messages.push(msg);
                    },
                }
            },
        }
    }
}

/// What a receive call hands back for one datagram and the generic socket
/// address of its sender: the sender as a Netlink address and the
/// datagram's messages, or `NotNetlink` where the sender is of another
/// address family, whatever the datagram holds.
pub fn receive<'a>(sender: &SockAddr, datagram: &'a [u8]) -> (r: Result<
    (NetlinkAddr, Vec<Msg<'a>>),
    AddressError,
>)
    ensures
        match r {
            Ok((addr, messages)) => {
                &&& parse_sockaddr(sender.sa_family, sender.sa_data@) == Ok::<
                    NetlinkAddrView,
                    AddressError,
                >(addr@)
                &&& msg_views(messages@) == parse_datagram(datagram@).0
            },
            Err(e) => parse_sockaddr(sender.sa_family, sender.sa_data@) == Err::<
                NetlinkAddrView,
                AddressError,
            >(e),
        },
{
    let addr = match sockaddr_to_netlinkaddr(sender) {
        Ok(addr) => addr,
        Err(e) => {
            return Err(e);
        },
    };
    let (messages, _) = assemble(datagram);
    Ok((addr, messages))
}

/// Every message of `msgs` is well formed and none is a `Done` message.
pub open spec fn all_carried(msgs: Seq<MsgView>) -> bool {
    forall|i: int|
        0 <= i < msgs.len() ==> (#[trigger] msgs[i]).well_formed() && msgs[i].header.kind
            != MsgType::Done.code()
}

/// A well-formed message at the front of a datagram, not a `Done`, is the
/// first to be assembled, and the assembly goes on with what follows it.
pub proof fn lemma_datagram_first(m: MsgView, after: Seq<u8>)
    requires
        m.well_formed(),
        m.header.kind != MsgType::Done.code(),
    ensures
        parse_datagram(m.to_bytes() + after) == (
            seq![m] + parse_datagram(after).0,
            parse_datagram(after).1,
        ),
{
    let s = m.to_bytes() + after;
    reveal(parse_datagram);
    lemma_msg_round_trip(m, after);
    assert(s.skip(m.to_bytes().len() as int) =~= after);
}

/// Well-formed messages at the front of a datagram, none of them `Done`,
/// are assembled one by one, in order, and the assembly goes on with what
/// follows them.
pub proof fn lemma_datagram_prefix(msgs: Seq<MsgView>, rest: Seq<u8>)
    requires
        all_carried(msgs),
    ensures
        parse_datagram(encode_all(msgs) + rest) == (
            msgs + parse_datagram(rest).0,
            parse_datagram(rest).1,
        ),
    decreases msgs.len(),
{
    let tail = parse_datagram(rest);
    if msgs.len() == 0 {
        assert(encode_all(msgs) + rest =~= rest);
        assert(msgs + tail.0 =~= tail.0);
    } else {
        let first = msgs[0];
        let others = msgs.skip(1);
        let head = first.to_bytes();
        let middle = encode_all(others);
        assert(encode_all(msgs) == head + middle);
        assert((head + middle) + rest =~= head + (middle + rest));
        assert(first.well_formed() && first.header.kind != MsgType::Done.code());
        lemma_datagram_first(first, middle + rest);
        assert(all_carried(others)) by {
            assert forall|i: int| 0 <= i < others.len() implies (#[trigger] others[i])
                .well_formed() && others[i].header.kind != MsgType::Done.code() by {
                assert(others[i] == msgs[i + 1]);
            }
        }
        lemma_datagram_prefix(others, rest);
        assert(seq![first] + (others + tail.0) =~= msgs + tail.0);
    }
}

/// A datagram that holds some well-formed messages, none of them `Done`,
/// then a `Done` header, then anything, is assembled to exactly those
/// messages, in order and without the `Done`.
pub proof fn lemma_datagram_until_done(msgs: Seq<MsgView>, done: HeaderView, tail: Seq<u8>)
    requires
        all_carried(msgs),
        done.kind == MsgType::Done.code(),
    ensures
        parse_datagram(encode_all(msgs) + done.to_bytes() + tail) == (
            msgs,
            Termination::SawDoneMarker,
        ),
{
    let rest = done.to_bytes() + tail;
    assert(parse_datagram(rest) == (Seq::<MsgView>::empty(), Termination::SawDoneMarker)) by {
        reveal(parse_datagram);
        lemma_header_round_trip(done, tail);
    }
    lemma_datagram_prefix(msgs, rest);
    assert(encode_all(msgs) + done.to_bytes() + tail =~= encode_all(msgs) + rest);
    assert(msgs + Seq::<MsgView>::empty() =~= msgs);
}

/// A datagram that holds some well-formed messages, none of them `Done`,
/// and then fewer than 16 bytes of anything is assembled to exactly those
/// messages: a tail too short for a header is no error.
pub proof fn lemma_datagram_short_tail(msgs: Seq<MsgView>, garbage: Seq<u8>)
    requires
        all_carried(msgs),
        garbage.len() < header_len(),
    ensures
        parse_datagram(encode_all(msgs) + garbage) == (msgs, Termination::EndOfDatagram),
{
    assert(parse_datagram(garbage) == (Seq::<MsgView>::empty(), Termination::EndOfDatagram)) by {
        reveal(parse_datagram);
    }
    lemma_datagram_prefix(msgs, garbage);
    assert(msgs + Seq::<MsgView>::empty() =~= msgs);
}

} // verus!
