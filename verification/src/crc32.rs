//! The 32-bit checksum the host tool uses to verify flash contents.

use vstd::prelude::*;

verus! {

/// The IEEE CRC-32 of a byte sequence, in the variant the host tool
/// expects: polynomial 0x104C11DB7 reflected, initial remainder zero,
/// output XORed with 0xFFFF_FFFF. The value depends on the bytes alone.
pub uninterp spec fn crc32_ieee_of(data: Seq<u8>) -> u32;

/// Relies on crc::crc32::checksum_ieee: the IEEE CRC-32 of the given
/// bytes, a pure function of its input; over no bytes at all it is zero.
#[verifier::external_body]
pub(crate) fn crc32_ieee(data: &[u8]) -> (r: u32)
    ensures
        r == crc32_ieee_of(data@),
        data@.len() == 0 ==> r == 0,
{
    crc::crc32::checksum_ieee(data)
}

} // verus!
