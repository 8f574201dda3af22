//! Laws of the decoder: what holds for every stream and every packet.

use crate::codec::{
    checksum_matches, decode_step, has_sync, is_first_sync, is_first_sync_from,
    lemma_first_sync_exists, lemma_first_sync_unique, Ld19Frame, SYNC_BYTE,
};
use crate::crc::{lemma_crc8_detects_one_changed_byte, spec_crc8};
use crate::packet::{Ld19Packet, Ld19Point, ANGLE_DEN, FULL_TURN, PKG_SIZE};
use crate::ratio::Ratio;
use crate::wire::le_u16;
use vstd::prelude::*;

verus! {

/// The checksum of an empty span is 0.
pub proof fn lemma_crc8_of_nothing()
    ensures
        spec_crc8(Seq::<u8>::empty()) == 0,
{
}

/// Every field of a parsed packet is read from its fixed place in the bytes,
/// multi-byte fields low byte first.
pub proof fn lemma_parse_reads_layout(bytes: Seq<u8>)
    requires
        bytes.len() >= PKG_SIZE,
    ensures
        ({
            let packet = Ld19Packet::parse(bytes);
            &&& packet.header == bytes[0]
            &&& packet.ver_len == bytes[1]
            &&& packet.speed == le_u16(bytes[2], bytes[3])
            &&& packet.start_angle == le_u16(bytes[4], bytes[5])
            &&& forall|i: int|
                0 <= i < 12 ==> #[trigger] packet.point[i] == (Ld19Point {
                    distance: le_u16(bytes[6 + 3 * i], bytes[7 + 3 * i]),
                    intensity: bytes[8 + 3 * i],
                })
            &&& packet.end_angle == le_u16(bytes[42], bytes[43])
            &&& packet.timestamp == le_u16(bytes[44], bytes[45])
            &&& packet.crc8 == bytes[46]
        }),
{
}

/// A stream whose first sync byte starts 47 bytes with a matching checksum,
/// with at least one byte after them, yields a packet, and every field of
/// that packet is what stands at its place in those 47 bytes. They and
/// everything before them are consumed.
pub proof fn lemma_valid_packet_is_decoded(stream: Seq<u8>, pos: int)
    requires
        is_first_sync(stream, pos),
        stream.len() - pos > PKG_SIZE,
        checksum_matches(stream, pos),
    ensures
        decode_step(stream).1 == pos + PKG_SIZE,
        decode_step(stream).0 == Ld19Frame::Packet(
            Ld19Packet::parse(stream.subrange(pos, pos + PKG_SIZE)),
        ),
        ({
            &&& decode_step(stream).0 matches Ld19Frame::Packet(packet)
            &&& packet.header == SYNC_BYTE
            &&& packet.ver_len == stream[pos + 1]
            &&& packet.speed == le_u16(stream[pos + 2], stream[pos + 3])
            &&& packet.start_angle == le_u16(stream[pos + 4], stream[pos + 5])
            &&& forall|i: int|
                0 <= i < 12 ==> #[trigger] packet.point[i] == (Ld19Point {
                    distance: le_u16(stream[pos + 6 + 3 * i], stream[pos + 7 + 3 * i]),
                    intensity: stream[pos + 8 + 3 * i],
                })
            &&& packet.end_angle == le_u16(stream[pos + 42], stream[pos + 43])
            &&& packet.timestamp == le_u16(stream[pos + 44], stream[pos + 45])
            &&& packet.crc8 == stream[pos + 46]
            &&& packet.crc8 == spec_crc8(stream.subrange(pos, pos + 46))
        }),
{
    lemma_first_sync_unique(stream, pos);
    lemma_parse_reads_layout(stream.subrange(pos, pos + PKG_SIZE));
}

/// A stream without a sync byte yields nothing and is discarded whole.
pub proof fn lemma_no_sync_discards_all(stream: Seq<u8>)
    requires
        forall|i: int| 0 <= i < stream.len() ==> stream[i] != SYNC_BYTE,
    ensures
        decode_step(stream) == (Ld19Frame::NeedMoreData, stream.len() as int),
        stream.skip(decode_step(stream).1) == Seq::<u8>::empty(),
{
}

/// A stream whose first sync byte has fewer than 48 bytes from it to the end
/// yields nothing and is left as it is.
pub proof fn lemma_short_tail_is_kept(stream: Seq<u8>, pos: int)
    requires
        is_first_sync(stream, pos),
        stream.len() - pos < PKG_SIZE + 1,
    ensures
        decode_step(stream) == (Ld19Frame::NeedMoreData, 0int),
        stream.skip(decode_step(stream).1) == stream,
{
    lemma_first_sync_unique(stream, pos);
}

/// A candidate whose checksum does not match yields a checksum error and
/// costs the stream everything up to and including its sync byte, no more:
/// the next step searches on from the byte after it.
pub proof fn lemma_bad_checksum_resyncs(stream: Seq<u8>, pos: int)
    requires
        is_first_sync(stream, pos),
        stream.len() - pos > PKG_SIZE,
        !checksum_matches(stream, pos),
    ensures
        decode_step(stream) == (Ld19Frame::CrcError, pos + 1),
        stream.skip(decode_step(stream).1) == stream.skip(pos + 1),
        forall|next: int|
            0 <= next ==> (#[trigger] is_first_sync(stream.skip(pos + 1), next)
                <==> is_first_sync_from(stream, pos + 1, pos + 1 + next)),
{
    lemma_first_sync_unique(stream, pos);
    let rest = stream.skip(pos + 1);
    assert forall|next: int| 0 <= next implies (#[trigger] is_first_sync(rest, next)
        <==> is_first_sync_from(stream, pos + 1, pos + 1 + next)) by {
        if is_first_sync(rest, next) {
            assert forall|i: int| pos + 1 <= i < pos + 1 + next implies stream[i] != SYNC_BYTE by {
                assert(rest[i - (pos + 1)] == stream[i]);
            }
        }
        if is_first_sync_from(stream, pos + 1, pos + 1 + next) {
            assert forall|j: int| 0 <= j < next implies rest[j] != SYNC_BYTE by {
                assert(rest[j] == stream[pos + 1 + j]);
            }
        }
    }
}

/// Corruption of any one byte of a valid packet, other than its sync byte,
/// is caught: with a payload byte or the checksum byte overwritten by any
/// other value, the step yields a checksum error.
pub proof fn lemma_one_corrupt_byte_is_caught(stream: Seq<u8>, pos: int, at: int, wrong: u8)
    requires
        is_first_sync(stream, pos),
        stream.len() - pos > PKG_SIZE,
        checksum_matches(stream, pos),
        pos < at < pos + PKG_SIZE,
        wrong != stream[at],
    ensures
        decode_step(stream.update(at, wrong)) == (Ld19Frame::CrcError, pos + 1),
{
    let corrupt = stream.update(at, wrong);
    let covered = stream.subrange(pos, pos + 46);
    assert(is_first_sync(corrupt, pos));
    lemma_first_sync_unique(corrupt, pos);
    if at == pos + 46 {
        assert(corrupt.subrange(pos, pos + 46) =~= covered);
    } else {
        assert(corrupt.subrange(pos, pos + 46) =~= covered.update(at - pos, wrong));
        lemma_crc8_detects_one_changed_byte(covered, at - pos, wrong);
    }
}

/// A step never consumes more than the stream holds; one that yields a
/// checksum error consumes at least one byte, one that yields a packet at
/// least 47: a caller that repeats the step until it is told to wait comes to
/// an end.
pub proof fn lemma_step_makes_progress(stream: Seq<u8>)
    ensures
        0 <= decode_step(stream).1 <= stream.len(),
        decode_step(stream).0 is CrcError ==> decode_step(stream).1 >= 1,
        decode_step(stream).0 is Packet ==> decode_step(stream).1 >= PKG_SIZE,
{
    if has_sync(stream) {
        lemma_first_sync_exists(stream);
    }
}

/// The shorter arc spanned by any packet is between 0 and 180 degrees.
pub proof fn lemma_delta_angle_bounds(packet: Ld19Packet)
    ensures
        0 <= packet.spec_delta_angle() <= 180 * 100,
{
}

/// In a packet whose start angle is below a full turn, the azimuth of the
/// first point is the start angle itself.
pub proof fn lemma_first_point_at_start_angle(packet: Ld19Packet)
    requires
        packet.start_angle < FULL_TURN,
    ensures
        packet.spec_point_angle(0) == 11 * packet.start_angle,
        (Ratio { num: packet.spec_point_angle(0) as u32, den: ANGLE_DEN }).same_value(
            Ratio { num: packet.start_angle as u32, den: 100 },
        ),
{
    let first = packet.spec_point_angle(0);
    let start = packet.start_angle as int;
    assert(first == 11 * start);
    assert(first * 100 == start * 1100);
}

} // verus!
