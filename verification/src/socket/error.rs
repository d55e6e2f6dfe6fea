//! Why a byte buffer or a socket address could not be decoded.

use vstd::prelude::*;

verus! {

/// The ways in which decoding a header, a payload or a message fails.
#[derive(Clone, Copy, PartialEq, Eq, Debug, Structural)]
pub enum DecodeError {
    /// The buffer ends before a fixed-size field does: a header of 16 bytes,
    /// or the 4-byte status code of a control record.
    UnexpectedEof,
    /// The header declares a total length smaller than the header itself.
    LengthUnderflow,
    /// The header declares more payload bytes than the buffer still holds.
    PayloadTooShort,
}

/// Why a generic socket address is not the address of a Netlink endpoint.
#[derive(Clone, Copy, PartialEq, Eq, Debug, Structural)]
pub enum AddressError {
    /// The address is tagged with another family than Netlink's.
    NotNetlink,
}

} // verus!
