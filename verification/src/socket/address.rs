//! The address of a Netlink endpoint and its generic socket address form.

use super::error::AddressError;
use super::wire::{
    get_u32, lemma_u32_native_round_trip, u32_from_native, u32_native_bytes, write_u32_native,
};
use vstd::prelude::*;

verus! {

/// The tag of the Netlink address family.
pub open spec fn netlink_family() -> u16 {
    16
}

/// `libc::AF_NETLINK` in the width of `libc::sa_family_t`: the tag that the
/// kernel gives to Netlink addresses, trusted to be 16 as libc defines it.
#[verifier::external_body]
pub(crate) fn af_netlink() -> (family: u16)
    ensures
        family == netlink_family(),
{
    libc::AF_NETLINK as libc::sa_family_t
}

/// A generic socket address: the tag of an address family and 14 bytes that
/// only that family can read.
#[derive(Clone, Copy, PartialEq, Eq, Debug)]
pub struct SockAddr {
    /// The tag of the address family.
    pub sa_family: u16,
    /// The address itself, in the layout of its family.
    pub sa_data: [u8; 14],
}

/// Ghost model of a Netlink address.
pub struct NetlinkAddrView {
    /// The port ID; 0 leaves the choice to the kernel.
    pub pid: u32,
    /// The multicast groups, one bit each.
    pub groups: u32,
}

impl NetlinkAddrView {
    /// The 14 data bytes of the generic form: two bytes of padding, the
    /// port ID and the group mask in the host's byte order, and four unused
    /// bytes. Padding and unused bytes are zero.
    pub open spec fn sockaddr_data(self) -> Seq<u8> {
        seq![0u8, 0u8] + u32_native_bytes(self.pid) + u32_native_bytes(self.groups) + seq![
            0u8,
            0u8,
            0u8,
            0u8,
        ]
    }

    /// The address that 14 data bytes of the Netlink family spell.
    pub open spec fn of_sockaddr_data(data: Seq<u8>) -> NetlinkAddrView
        recommends
            data.len() == 14,
    {
        NetlinkAddrView {
            pid: u32_from_native(data.subrange(2, 6)),
            groups: u32_from_native(data.subrange(6, 10)),
        }
    }
}

/// What reading a generic socket address as a Netlink address gives: the
/// address that the data bytes spell where the family is Netlink's, and
/// `NotNetlink` for any other family.
pub open spec fn parse_sockaddr(family: u16, data: Seq<u8>) -> Result<
    NetlinkAddrView,
    AddressError,
> {
    if family == netlink_family() {
        Ok(NetlinkAddrView::of_sockaddr_data(data))
    } else {
        Err(AddressError::NotNetlink)
    }
}

/// A Netlink address survives the way through its generic form and back.
pub proof fn lemma_sockaddr_round_trip(a: NetlinkAddrView)
    ensures
        a.sockaddr_data().len() == 14,
        parse_sockaddr(netlink_family(), a.sockaddr_data()) == Ok::<NetlinkAddrView, AddressError>(
            a,
        ),
{
    let data = a.sockaddr_data();
    lemma_u32_native_round_trip(a.pid);
    lemma_u32_native_round_trip(a.groups);
    assert(data.subrange(2, 6) =~= u32_native_bytes(a.pid));
    assert(data.subrange(6, 10) =~= u32_native_bytes(a.groups));
}

/// The address of a Netlink endpoint: a port ID and a mask of multicast
/// groups.
#[derive(Clone, Copy, PartialEq, Eq, Debug, Structural)]
pub struct NetlinkAddr {
    pid: u32,
    groups: u32,
}

impl View for NetlinkAddr {
    type V = NetlinkAddrView;

    closed spec fn view(&self) -> NetlinkAddrView {
        NetlinkAddrView { pid: self.pid, groups: self.groups }
    }
}

impl NetlinkAddr {
    /// The address with port ID `pid`, where 0 leaves the choice to the
    /// kernel, and the multicast groups `groups`.
    pub fn new(pid: u32, groups: u32) -> (a: NetlinkAddr)
        ensures
            a@ == (NetlinkAddrView { pid: pid, groups: groups }),
    {
        NetlinkAddr { pid: pid, groups: groups }
    }

    /// The port ID.
    pub fn pid(&self) -> (pid: u32)
        ensures
            pid == self@.pid,
    {
        self.pid
    }

    /// The mask of multicast groups.
    pub fn groups(&self) -> (groups: u32)
        ensures
            groups == self@.groups,
    {
        self.groups
    }

    /// The generic socket address that stands for this address: tagged with
    /// the Netlink family, the port ID and the group mask among its data
    /// bytes.
    pub fn as_sockaddr(&self) -> (sa: SockAddr)
        ensures
            sa.sa_family == netlink_family(),
            sa.sa_data@ == self@.sockaddr_data(),
            parse_sockaddr(sa.sa_family, sa.sa_data@) == Ok::<NetlinkAddrView, AddressError>(
                self@,
            ),
    {
        let mut pid = [0u8; 4];
        write_u32_native(&mut pid, self.pid);
        let mut groups = [0u8; 4];
        write_u32_native(&mut groups, self.groups);
        let data: [u8; 14] = [
            0,
            0,
            pid[0],
            pid[1],
            pid[2],
            pid[3],
            groups[0],
            groups[1],
            groups[2],
            groups[3],
            0,
            0,
            0,
            0,
        ];
        proof {
            lemma_u32_native_round_trip(self.pid);
            lemma_u32_native_round_trip(self.groups);
            assert(data@ =~= self@.sockaddr_data());
            lemma_sockaddr_round_trip(self@);
        }
        SockAddr { sa_family: af_netlink(), sa_data: data }
    }
}

/// Reads a generic socket address as the address of a Netlink endpoint.
pub fn sockaddr_to_netlinkaddr(sa: &SockAddr) -> (r: Result<NetlinkAddr, AddressError>)
    ensures
        match r {
            Ok(a) => parse_sockaddr(sa.sa_family, sa.sa_data@) == Ok::<
                NetlinkAddrView,
                AddressError,
            >(a@),
            Err(e) => parse_sockaddr(sa.sa_family, sa.sa_data@) == Err::<
                NetlinkAddrView,
                AddressError,
            >(e),
        },
{
    if sa.sa_family == af_netlink() {
        let pid = get_u32(&sa.sa_data, 2);
        let groups = get_u32(&sa.sa_data, 6);
        Ok(NetlinkAddr::new(pid, groups))
    } else {
        Err(AddressError::NotNetlink)
    }
}

} // verus!
