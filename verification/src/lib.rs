//! Framing and codec layer for the Linux Netlink protocol.
//!
//! Netlink carries control data between the kernel and processes in
//! datagrams, each a run of messages that start with a fixed header. This
//! crate builds, encodes and decodes headers, payloads and messages, splits
//! a received datagram into its messages, and converts endpoint addresses.
//! All of it is verified with Verus: every function comes with a contract
//! over the byte sequences it reads or writes. Sockets and system calls are
//! left to the caller.

use vstd::prelude::*;
use vstd::std_specs::convert::FromSpecImpl;

pub mod socket;

verus! {

/// The kernel subsystems that a Netlink socket can talk to.
#[derive(Clone, Copy, PartialEq, Eq, Debug, Structural)]
pub enum Protocol {
    /// Routing/device hook
    Route,
    /// Unused number
    Unused,
    /// Reserved for user mode socket protocols
    Usersock,
    /// Firewalling hook
    Firewall,
    /// INET socket monitoring
    INETDiag,
    /// netfilter/iptables ULOG
    Nflog,
    /// ipsec
    Xfrm,
    /// SELinux event notifications
    SELinux,
    /// Open-iSCSI
    Iscsi,
    /// auditing
    Audit,
    FibLookup,
    Connector,
    /// netfilter subsystem
    Netfilter,
    Ip6FW,
    /// DECnet routing messages
    Dnrtmsg,
    /// Kernel messages to userspace
    KobjectUevent,
    Generic,
    /// SCSI Transports
    SCSITransport,
    Ecryptfs,
}

impl Protocol {
    /// The number that names this protocol to the kernel.
    pub open spec fn number(self) -> i32 {
        match self {
            Protocol::Route => 0,
            Protocol::Unused => 1,
            Protocol::Usersock => 2,
            Protocol::Firewall => 3,
            Protocol::INETDiag => 4,
            Protocol::Nflog => 5,
            Protocol::Xfrm => 6,
            Protocol::SELinux => 7,
            Protocol::Iscsi => 8,
            Protocol::Audit => 9,
            Protocol::FibLookup => 10,
            Protocol::Connector => 11,
            Protocol::Netfilter => 12,
            Protocol::Ip6FW => 13,
            Protocol::Dnrtmsg => 14,
            Protocol::KobjectUevent => 15,
            Protocol::Generic => 16,
            Protocol::SCSITransport => 18,
            Protocol::Ecryptfs => 19,
        }
    }
}

impl From<Protocol> for i32 {
    fn from(protocol: Protocol) -> (number: i32) {
        match protocol {
            Protocol::Route => 0,
            Protocol::Unused => 1,
            Protocol::Usersock => 2,
            Protocol::Firewall => 3,
            Protocol::INETDiag => 4,
            Protocol::Nflog => 5,
            Protocol::Xfrm => 6,
            Protocol::SELinux => 7,
            Protocol::Iscsi => 8,
            Protocol::Audit => 9,
            Protocol::FibLookup => 10,
            Protocol::Connector => 11,
            Protocol::Netfilter => 12,
            Protocol::Ip6FW => 13,
            Protocol::Dnrtmsg => 14,
            Protocol::KobjectUevent => 15,
            Protocol::Generic => 16,
            Protocol::SCSITransport => 18,
            Protocol::Ecryptfs => 19,
        }
    }
}

impl FromSpecImpl<Protocol> for i32 {
    open spec fn obeys_from_spec() -> bool {
        true
    }

    open spec fn from_spec(protocol: Protocol) -> i32 {
        protocol.number()
    }
}

} // verus!
