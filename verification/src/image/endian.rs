//! Big-endian words, read and written with the `byteorder` crate.

use byteorder::{BigEndian, ByteOrder, WriteBytesExt};
use vstd::prelude::*;

verus! {

/// The 16-bit word whose high byte is `hi` and whose low byte is `lo`.
pub open spec fn spec_be_u16(hi: u8, lo: u8) -> u16 {
    (hi as int * 256 + lo as int) as u16
}

/// The 32-bit word of four bytes, the first being the highest.
pub open spec fn spec_be_u32(b0: u8, b1: u8, b2: u8, b3: u8) -> u32 {
    (b0 as int * 0x100_0000 + b1 as int * 0x1_0000 + b2 as int * 0x100 + b3 as int) as u32
}

/// Calls `byteorder::BigEndian::read_u16`, which panics on fewer than two
/// bytes. Trusted: the result is the big-endian word of the first two bytes.
#[verifier::external_body]
pub(crate) fn be_u16(bytes: &[u8]) -> (word: u16)
    requires
        bytes@.len() >= 2,
    ensures
        word == spec_be_u16(bytes@[0], bytes@[1]),
{
    BigEndian::read_u16(bytes)
}

/// Calls `byteorder::BigEndian::read_u32`, which panics on fewer than four
/// bytes. Trusted: the result is the big-endian word of the first four bytes.
#[verifier::external_body]
pub(crate) fn be_u32(bytes: &[u8]) -> (word: u32)
    requires
        bytes@.len() >= 4,
    ensures
        word == spec_be_u32(bytes@[0], bytes@[1], bytes@[2], bytes@[3]),
{
    BigEndian::read_u32(bytes)
}

/// Calls `byteorder::WriteBytesExt::write_u16` with `BigEndian` on a `Vec<u8>`,
/// a writer that cannot fail. Trusted: the vector grows by the high byte of
/// the word and then its low byte.
#[verifier::external_body]
pub(crate) fn put_be_u16(out: &mut Vec<u8>, word: u16)
    ensures
        final(out)@ == old(out)@.push((word / 256) as u8).push((word % 256) as u8),
{
    out.write_u16::<BigEndian>(word).unwrap()
}

} // verus!
