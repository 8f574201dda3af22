//! Little-endian integers on the wire.

use byteorder::{ByteOrder, LittleEndian};
use vstd::prelude::*;

verus! {

/// The 16-bit value stored little-endian as `lo` followed by `hi`.
pub open spec fn le_u16(lo: u8, hi: u8) -> u16 {
    (lo as int + 256 * (hi as int)) as u16
}

/// Reads the little-endian 16-bit value at the start of `buf`.
///
/// Trusted: this is `byteorder`'s `LittleEndian::read_u16`, which combines
/// the first two bytes of `buf`, low byte first, and panics on a shorter
/// slice.
#[verifier::external_body]
pub(crate) fn read_u16_le(buf: &[u8]) -> (value: u16)
    requires
        buf@.len() >= 2,
    ensures
        value == le_u16(buf@[0], buf@[1]),
{
    LittleEndian::read_u16(buf)
}

} // verus!
