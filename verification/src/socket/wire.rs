//! Integers on the wire, in the byte order of the host.
//!
//! Netlink never leaves the machine, so every multi-byte field travels in the
//! host's own byte order. The specifications below spell out both orders and
//! pick one by [`vstd::endian::endianness`], which stands for the byte order
//! of the machine that runs the code. The executable readers and writers are
//! `byteorder`'s, behind contracts that are trusted, not proved.

use byteorder::{ByteOrder, NativeEndian};
use vstd::endian::{endianness, Endian};
use vstd::prelude::*;

verus! {

/// The two bytes of `n`, least significant first.
pub open spec fn u16_le_bytes(n: u16) -> Seq<u8> {
    seq![(n % 256) as u8, (n / 256) as u8]
}

/// The two bytes of `n`, most significant first.
pub open spec fn u16_be_bytes(n: u16) -> Seq<u8> {
    seq![(n / 256) as u8, (n % 256) as u8]
}

/// The four bytes of `n`, least significant first.
pub open spec fn u32_le_bytes(n: u32) -> Seq<u8> {
    seq![
        (n % 256) as u8,
        (n / 256 % 256) as u8,
        (n / 65536 % 256) as u8,
        (n / 16777216) as u8,
    ]
}

/// The four bytes of `n`, most significant first.
pub open spec fn u32_be_bytes(n: u32) -> Seq<u8> {
    seq![
        (n / 16777216) as u8,
        (n / 65536 % 256) as u8,
        (n / 256 % 256) as u8,
        (n % 256) as u8,
    ]
}

/// The number whose little-endian bytes are the first two of `s`.
pub open spec fn u16_from_le(s: Seq<u8>) -> u16
    recommends
        s.len() >= 2,
{
    (s[0] + 256 * s[1]) as u16
}

/// The number whose big-endian bytes are the first two of `s`.
pub open spec fn u16_from_be(s: Seq<u8>) -> u16
    recommends
        s.len() >= 2,
{
    (256 * s[0] + s[1]) as u16
}

/// The number whose little-endian bytes are the first four of `s`.
pub open spec fn u32_from_le(s: Seq<u8>) -> u32
    recommends
        s.len() >= 4,
{
    (s[0] + 256 * s[1] + 65536 * s[2] + 16777216 * s[3]) as u32
}

/// The number whose big-endian bytes are the first four of `s`.
pub open spec fn u32_from_be(s: Seq<u8>) -> u32
    recommends
        s.len() >= 4,
{
    (16777216 * s[0] + 65536 * s[1] + 256 * s[2] + s[3]) as u32
}

/// The two bytes of `n` in the host's byte order.
pub open spec fn u16_native_bytes(n: u16) -> Seq<u8> {
    match endianness() {
        Endian::Little => u16_le_bytes(n),
        Endian::Big => u16_be_bytes(n),
    }
}

/// The four bytes of `n` in the host's byte order.
pub open spec fn u32_native_bytes(n: u32) -> Seq<u8> {
    match endianness() {
        Endian::Little => u32_le_bytes(n),
        Endian::Big => u32_be_bytes(n),
    }
}

/// The number that the first two bytes of `s` spell in the host's byte order.
pub open spec fn u16_from_native(s: Seq<u8>) -> u16
    recommends
        s.len() >= 2,
{
    match endianness() {
        Endian::Little => u16_from_le(s),
        Endian::Big => u16_from_be(s),
    }
}

/// The number that the first four bytes of `s` spell in the host's byte order.
pub open spec fn u32_from_native(s: Seq<u8>) -> u32
    recommends
        s.len() >= 4,
{
    match endianness() {
        Endian::Little => u32_from_le(s),
        Endian::Big => u32_from_be(s),
    }
}

/// Writing a 16-bit number and reading it back gives the number, and the
/// written form is two bytes long.
pub proof fn lemma_u16_native_round_trip(n: u16)
    ensures
        u16_native_bytes(n).len() == 2,
        u16_from_native(u16_native_bytes(n)) == n,
{
}

/// Writing a 32-bit number and reading it back gives the number, and the
/// written form is four bytes long.
pub proof fn lemma_u32_native_round_trip(n: u32)
    ensures
        u32_native_bytes(n).len() == 4,
        u32_from_native(u32_native_bytes(n)) == n,
{
}

/// `byteorder::ByteOrder::read_u16` for `NativeEndian`, which is
/// `LittleEndian` on a little-endian target and `BigEndian` on a big-endian
/// one. The contract claims that it gives the number spelled by the first
/// two bytes of `buf` in that order, whatever follows them. The call panics
/// on a shorter buffer, which the precondition rules out.
#[verifier::external_body]
pub(crate) fn read_u16_native(buf: &[u8]) -> (n: u16)
    requires
        buf@.len() >= 2,
    ensures
        n == u16_from_native(buf@),
{
    NativeEndian::read_u16(buf)
}

/// `byteorder::ByteOrder::read_u32` for `NativeEndian`. The contract claims
/// that it gives the number spelled by the first four bytes of `buf` in the
/// target's byte order, whatever follows them. The call panics on a shorter
/// buffer, which the precondition rules out.
#[verifier::external_body]
pub(crate) fn read_u32_native(buf: &[u8]) -> (n: u32)
    requires
        buf@.len() >= 4,
    ensures
        n == u32_from_native(buf@),
{
    NativeEndian::read_u32(buf)
}

/// `byteorder::ByteOrder::write_u16` for `NativeEndian`. The contract claims
/// that it overwrites the first two bytes of `buf` with those of `n` in the
/// target's byte order and leaves the rest as it was. The call panics on a
/// shorter buffer, which the precondition rules out.
#[verifier::external_body]
pub(crate) fn write_u16_native(buf: &mut [u8], n: u16)
    requires
        old(buf)@.len() >= 2,
    ensures
        final(buf)@ == u16_native_bytes(n) + old(buf)@.skip(2),
{
    NativeEndian::write_u16(buf, n)
}

/// `byteorder::ByteOrder::write_u32` for `NativeEndian`. The contract claims
/// that it overwrites the first four bytes of `buf` with those of `n` in the
/// target's byte order and leaves the rest as it was. The call panics on a
/// shorter buffer, which the precondition rules out.
#[verifier::external_body]
pub(crate) fn write_u32_native(buf: &mut [u8], n: u32)
    requires
        old(buf)@.len() >= 4,
    ensures
        final(buf)@ == u32_native_bytes(n) + old(buf)@.skip(4),
{
    NativeEndian::write_u32(buf, n)
}

/// Appends the two native-order bytes of `n` to `out`.
pub(crate) fn put_u16(out: &mut Vec<u8>, n: u16)
    ensures
        final(out)@ == old(out)@ + u16_native_bytes(n),
{
    let mut word = [0u8; 2];
    write_u16_native(&mut word, n);
    out.push(word[0]);
    out.push(word[1]);
}

/// Appends the four native-order bytes of `n` to `out`.
pub(crate) fn put_u32(out: &mut Vec<u8>, n: u32)
    ensures
        final(out)@ == old(out)@ + u32_native_bytes(n),
{
    let mut word = [0u8; 4];
    write_u32_native(&mut word, n);
    out.push(word[0]);
    out.push(word[1]);
    out.push(word[2]);
    out.push(word[3]);
}

/// Reads the 16-bit number that starts at byte `at` of `bytes`.
pub(crate) fn get_u16(bytes: &[u8], at: usize) -> (n: u16)
    requires
        at + 2 <= bytes@.len(),
    ensures
        n == u16_from_native(bytes@.subrange(at as int, at + 2)),
{
    assert(bytes.len() == bytes@.len());
    read_u16_native(&bytes[at..at + 2])
}

/// Reads the 32-bit number that starts at byte `at` of `bytes`.
pub(crate) fn get_u32(bytes: &[u8], at: usize) -> (n: u32)
    requires
        at + 4 <= bytes@.len(),
    ensures
        n == u32_from_native(bytes@.subrange(at as int, at + 4)),
{
    assert(bytes.len() == bytes@.len());
    read_u32_native(&bytes[at..at + 4])
}

} // verus!
