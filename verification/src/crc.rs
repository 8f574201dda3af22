//! The sensor's CRC-8: a table-driven checksum over a byte span.

use vstd::prelude::*;

verus! {

/// Lookup table of the sensor's CRC-8 variant, indexed by
/// `accumulator ^ byte`.
pub const CRC_TABLE: [u8; 256] = [
    0x00, 0x4d, 0x9a, 0xd7, 0x79, 0x34, 0xe3, 0xae, 0xf2, 0xbf, 0x68, 0x25, 0x8b, 0xc6, 0x11, 0x5c,
    0xa9, 0xe4, 0x33, 0x7e, 0xd0, 0x9d, 0x4a, 0x07, 0x5b, 0x16, 0xc1, 0x8c, 0x22, 0x6f, 0xb8, 0xf5,
    0x1f, 0x52, 0x85, 0xc8, 0x66, 0x2b, 0xfc, 0xb1, 0xed, 0xa0, 0x77, 0x3a, 0x94, 0xd9, 0x0e, 0x43,
    0xb6, 0xfb, 0x2c, 0x61, 0xcf, 0x82, 0x55, 0x18, 0x44, 0x09, 0xde, 0x93, 0x3d, 0x70, 0xa7, 0xea,
    0x3e, 0x73, 0xa4, 0xe9, 0x47, 0x0a, 0xdd, 0x90, 0xcc, 0x81, 0x56, 0x1b, 0xb5, 0xf8, 0x2f, 0x62,
    0x97, 0xda, 0x0d, 0x40, 0xee, 0xa3, 0x74, 0x39, 0x65, 0x28, 0xff, 0xb2, 0x1c, 0x51, 0x86, 0xcb,
    0x21, 0x6c, 0xbb, 0xf6, 0x58, 0x15, 0xc2, 0x8f, 0xd3, 0x9e, 0x49, 0x04, 0xaa, 0xe7, 0x30, 0x7d,
    0x88, 0xc5, 0x12, 0x5f, 0xf1, 0xbc, 0x6b, 0x26, 0x7a, 0x37, 0xe0, 0xad, 0x03, 0x4e, 0x99, 0xd4,
    0x7c, 0x31, 0xe6, 0xab, 0x05, 0x48, 0x9f, 0xd2, 0x8e, 0xc3, 0x14, 0x59, 0xf7, 0xba, 0x6d, 0x20,
    0xd5, 0x98, 0x4f, 0x02, 0xac, 0xe1, 0x36, 0x7b, 0x27, 0x6a, 0xbd, 0xf0, 0x5e, 0x13, 0xc4, 0x89,
    0x63, 0x2e, 0xf9, 0xb4, 0x1a, 0x57, 0x80, 0xcd, 0x91, 0xdc, 0x0b, 0x46, 0xe8, 0xa5, 0x72, 0x3f,
    0xca, 0x87, 0x50, 0x1d, 0xb3, 0xfe, 0x29, 0x64, 0x38, 0x75, 0xa2, 0xef, 0x41, 0x0c, 0xdb, 0x96,
    0x42, 0x0f, 0xd8, 0x95, 0x3b, 0x76, 0xa1, 0xec, 0xb0, 0xfd, 0x2a, 0x67, 0xc9, 0x84, 0x53, 0x1e,
    0xeb, 0xa6, 0x71, 0x3c, 0x92, 0xdf, 0x08, 0x45, 0x19, 0x54, 0x83, 0xce, 0x60, 0x2d, 0xfa, 0xb7,
    0x5d, 0x10, 0xc7, 0x8a, 0x24, 0x69, 0xbe, 0xf3, 0xaf, 0xe2, 0x35, 0x78, 0xd6, 0x9b, 0x4c, 0x01,
    0xf4, 0xb9, 0x6e, 0x23, 0x8d, 0xc0, 0x17, 0x5a, 0x06, 0x4b, 0x9c, 0xd1, 0x7f, 0x32, 0xe5, 0xa8,
];

/// Where each value sits in `CRC_TABLE`. That every value has a place shows
/// that the table is a permutation of the byte values.
#[allow(dead_code)]
const CRC_TABLE_INVERSE: [u8; 256] = [
    0x00, 0xef, 0x93, 0x7c, 0x6b, 0x84, 0xf8, 0x17, 0xd6, 0x39, 0x45, 0xaa, 0xbd, 0x52, 0x2e, 0xc1,
    0xe1, 0x0e, 0x72, 0x9d, 0x8a, 0x65, 0x19, 0xf6, 0x37, 0xd8, 0xa4, 0x4b, 0x5c, 0xb3, 0xcf, 0x20,
    0x8f, 0x60, 0x1c, 0xf3, 0xe4, 0x0b, 0x77, 0x98, 0x59, 0xb6, 0xca, 0x25, 0x32, 0xdd, 0xa1, 0x4e,
    0x6e, 0x81, 0xfd, 0x12, 0x05, 0xea, 0x96, 0x79, 0xb8, 0x57, 0x2b, 0xc4, 0xd3, 0x3c, 0x40, 0xaf,
    0x53, 0xbc, 0xc0, 0x2f, 0x38, 0xd7, 0xab, 0x44, 0x85, 0x6a, 0x16, 0xf9, 0xee, 0x01, 0x7d, 0x92,
    0xb2, 0x5d, 0x21, 0xce, 0xd9, 0x36, 0x4a, 0xa5, 0x64, 0x8b, 0xf7, 0x18, 0x0f, 0xe0, 0x9c, 0x73,
    0xdc, 0x33, 0x4f, 0xa0, 0xb7, 0x58, 0x24, 0xcb, 0x0a, 0xe5, 0x99, 0x76, 0x61, 0x8e, 0xf2, 0x1d,
    0x3d, 0xd2, 0xae, 0x41, 0x56, 0xb9, 0xc5, 0x2a, 0xeb, 0x04, 0x78, 0x97, 0x80, 0x6f, 0x13, 0xfc,
    0xa6, 0x49, 0x35, 0xda, 0xcd, 0x22, 0x5e, 0xb1, 0x70, 0x9f, 0xe3, 0x0c, 0x1b, 0xf4, 0x88, 0x67,
    0x47, 0xa8, 0xd4, 0x3b, 0x2c, 0xc3, 0xbf, 0x50, 0x91, 0x7e, 0x02, 0xed, 0xfa, 0x15, 0x69, 0x86,
    0x29, 0xc6, 0xba, 0x55, 0x42, 0xad, 0xd1, 0x3e, 0xff, 0x10, 0x6c, 0x83, 0x94, 0x7b, 0x07, 0xe8,
    0xc8, 0x27, 0x5b, 0xb4, 0xa3, 0x4c, 0x30, 0xdf, 0x1e, 0xf1, 0x8d, 0x62, 0x75, 0x9a, 0xe6, 0x09,
    0xf5, 0x1a, 0x66, 0x89, 0x9e, 0x71, 0x0d, 0xe2, 0x23, 0xcc, 0xb0, 0x5f, 0x48, 0xa7, 0xdb, 0x34,
    0x14, 0xfb, 0x87, 0x68, 0x7f, 0x90, 0xec, 0x03, 0xc2, 0x2d, 0x51, 0xbe, 0xa9, 0x46, 0x3a, 0xd5,
    0x7a, 0x95, 0xe9, 0x06, 0x11, 0xfe, 0x82, 0x6d, 0xac, 0x43, 0x3f, 0xd0, 0xc7, 0x28, 0x54, 0xbb,
    0x9b, 0x74, 0x08, 0xe7, 0xf0, 0x1f, 0x63, 0x8c, 0x4d, 0xa2, 0xde, 0x31, 0x26, 0xc9, 0xb5, 0x5a,
];

/// One step of the checksum: the accumulator after absorbing `byte`.
pub open spec fn crc8_step(acc: u8, byte: u8) -> u8 {
    CRC_TABLE[(acc ^ byte) as int]
}

/// The checksum of `data`: starting from 0, every byte in order is absorbed
/// by `crc8_step`.
pub open spec fn spec_crc8(data: Seq<u8>) -> u8
    decreases data.len(),
{
    if data.len() == 0 {
        0
    } else {
        crc8_step(spec_crc8(data.drop_last()), data.last())
    }
}

/// Computes the CRC-8 checksum of `data`.
pub fn crc8(data: &[u8]) -> (crc: u8)
    ensures
        crc == spec_crc8(data@),
{
    let mut crc: u8 = 0;
    let mut i: usize = 0;
    while i < data.len()
        invariant
            i <= data.len(),
            crc == spec_crc8(data@.take(i as int)),
        decreases data.len() - i,
    {
        assert(data@.take(i + 1).drop_last() =~= data@.take(i as int));
        crc = CRC_TABLE[(crc ^ data[i]) as usize];
        i += 1;
    }
    assert(data@.take(i as int) =~= data@);
    crc
}

/// Looking a table entry up in the inverse table gives its index back.
#[verifier::rlimit(50)]
proof fn lemma_crc_table_inverse(index: u8)
    ensures
        CRC_TABLE_INVERSE[CRC_TABLE[index as int] as int] == index,
{
}

/// No two entries of the table are equal.
pub proof fn lemma_crc_table_is_injective(a: u8, b: u8)
    requires
        CRC_TABLE[a as int] == CRC_TABLE[b as int],
    ensures
        a == b,
{
    lemma_crc_table_inverse(a);
    lemma_crc_table_inverse(b);
}

/// A step keeps different accumulators different and tells different bytes
/// apart.
pub proof fn lemma_crc8_step_is_injective(acc1: u8, byte1: u8, acc2: u8, byte2: u8)
    requires
        crc8_step(acc1, byte1) == crc8_step(acc2, byte2),
    ensures
        acc1 == acc2 <==> byte1 == byte2,
{
    lemma_crc_table_is_injective(acc1 ^ byte1, acc2 ^ byte2);
    assert((acc1 ^ byte1) == (acc2 ^ byte2) ==> (acc1 == acc2 <==> byte1 == byte2)) by (bit_vector);
}

/// Changing any one byte of a span changes its checksum.
pub proof fn lemma_crc8_detects_one_changed_byte(data: Seq<u8>, at: int, changed: u8)
    requires
        0 <= at < data.len(),
        changed != data[at],
    ensures
        spec_crc8(data.update(at, changed)) != spec_crc8(data),
    decreases data.len(),
{
    let other = data.update(at, changed);
    if at == data.len() - 1 {
        assert(other.drop_last() =~= data.drop_last());
    } else {
        assert(other.drop_last() =~= data.drop_last().update(at, changed));
        lemma_crc8_detects_one_changed_byte(data.drop_last(), at, changed);
    }
    if spec_crc8(other) == spec_crc8(data) {
        lemma_crc8_step_is_injective(
            spec_crc8(data.drop_last()),
            data.last(),
            spec_crc8(other.drop_last()),
            other.last(),
        );
    }
}

} // verus!
