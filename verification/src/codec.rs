//! The stream frame decoder: sync search, checksum validation and
//! resynchronisation.

use crate::buffer::buffered;
use crate::crc::{crc8, spec_crc8};
use crate::packet::{Ld19Packet, PKG_SIZE};
use tokio_util::bytes::BytesMut;
use vstd::prelude::*;

verus! {

/// The byte that starts every packet.
pub const SYNC_BYTE: u8 = 0x54;

/// What one decoding step found.
#[derive(Clone, Copy, Debug, PartialEq, Eq)]
pub enum Ld19Frame {
    /// A packet whose checksum matched.
    Packet(Ld19Packet),
    /// Not enough bytes yet; call again after the next read.
    NeedMoreData,
    /// A sync byte was followed by 46 bytes that fail the checksum.
    CrcError,
}

/// Stateless decoder of the sensor's byte stream.
pub struct Ld19Codec {}

/// `pos` is the position of the first sync byte of `stream` at or after
/// `from`.
pub open spec fn is_first_sync_from(stream: Seq<u8>, from: int, pos: int) -> bool {
    &&& from <= pos < stream.len()
    &&& stream[pos] == SYNC_BYTE
    &&& forall|i: int| from <= i < pos ==> stream[i] != SYNC_BYTE
}

/// `pos` is the position of the first sync byte in `stream`.
pub open spec fn is_first_sync(stream: Seq<u8>, pos: int) -> bool {
    is_first_sync_from(stream, 0, pos)
}

/// `stream` holds a sync byte somewhere.
pub open spec fn has_sync(stream: Seq<u8>) -> bool {
    exists|i: int| 0 <= i < stream.len() && stream[i] == SYNC_BYTE
}

/// The position of the first sync byte of a stream that has one.
pub open spec fn first_sync(stream: Seq<u8>) -> int {
    choose|pos: int| is_first_sync(stream, pos)
}

/// The 47 bytes starting at `pos` carry the right checksum in their last byte.
pub open spec fn checksum_matches(stream: Seq<u8>, pos: int) -> bool {
    spec_crc8(stream.subrange(pos, pos + 46)) == stream[pos + 46]
}

/// One decoding step on `stream`: the frame it yields and how many leading
/// bytes it consumes.
///
/// * No sync byte: everything is consumed, more data is needed.
/// * First sync byte at `p` with at most 47 bytes from `p` on: nothing is
///   consumed, more data is needed.
/// * Otherwise the 47 bytes from `p` are a candidate. If its checksum matches,
///   the packet is yielded and everything up to its end is consumed. If not,
///   everything up to and including the sync byte is consumed.
pub open spec fn decode_step(stream: Seq<u8>) -> (Ld19Frame, int) {
    if !has_sync(stream) {
        (Ld19Frame::NeedMoreData, stream.len() as int)
    } else {
        let p = first_sync(stream);
        if stream.len() - p <= PKG_SIZE {
            (Ld19Frame::NeedMoreData, 0)
        } else if checksum_matches(stream, p) {
            (Ld19Frame::Packet(Ld19Packet::parse(stream.subrange(p, p + PKG_SIZE))), p + PKG_SIZE)
        } else {
            (Ld19Frame::CrcError, p + 1)
        }
    }
}

/// The first sync byte of a stream is unique: whoever finds one has found
/// `first_sync`.
pub proof fn lemma_first_sync_unique(stream: Seq<u8>, pos: int)
    requires
        is_first_sync(stream, pos),
    ensures
        has_sync(stream),
        first_sync(stream) == pos,
{
    let q = first_sync(stream);
    assert(is_first_sync(stream, q));
}

/// A stream that has a sync byte has a first one.
pub proof fn lemma_first_sync_exists(stream: Seq<u8>)
    requires
        has_sync(stream),
    ensures
        is_first_sync(stream, first_sync(stream)),
{
    let at = choose|i: int| 0 <= i < stream.len() && stream[i] == SYNC_BYTE;
    lemma_sync_is_preceded_by_first(stream, at);
}

proof fn lemma_sync_is_preceded_by_first(stream: Seq<u8>, at: int)
    requires
        0 <= at < stream.len(),
        stream[at] == SYNC_BYTE,
    ensures
        exists|pos: int| is_first_sync(stream, pos),
    decreases at,
{
    if exists|i: int| 0 <= i < at && stream[i] == SYNC_BYTE {
        let earlier = choose|i: int| 0 <= i < at && stream[i] == SYNC_BYTE;
        lemma_sync_is_preceded_by_first(stream, earlier);
    } else {
        assert(is_first_sync(stream, at));
    }
}

impl Ld19Codec {
    /// Finds the first sync byte of `bytes`, if there is one.
    pub fn find_sync(bytes: &[u8]) -> (found: Option<usize>)
        ensures
            found is None <==> !has_sync(bytes@),
            found matches Some(pos) ==> is_first_sync(bytes@, pos as int),
    {
        let mut i: usize = 0;
        while i < bytes.len()
            invariant
                i <= bytes.len(),
                forall|j: int| 0 <= j < i ==> bytes@[j] != SYNC_BYTE,
            decreases bytes.len() - i,
        {
            if bytes[i] == SYNC_BYTE {
                return Some(i);
            }
            i += 1;
        }
        None
    }

    /// Runs one decoding step on `bytes` without touching any buffer: returns
    /// the frame and the number of leading bytes the step consumes.
    pub fn scan(bytes: &[u8]) -> (step: (Ld19Frame, usize))
        ensures
            (step.0, step.1 as int) == decode_step(bytes@),
            step.1 <= bytes@.len(),
    {
        match Self::find_sync(bytes) {
            None => (Ld19Frame::NeedMoreData, bytes.len()),
            Some(start_pos) => {
                proof {
                    lemma_first_sync_unique(bytes@, start_pos as int);
                }
                if bytes.len() - start_pos > PKG_SIZE {
                    let packet_data = &bytes[start_pos..start_pos + PKG_SIZE];
                    let crc_indicated = packet_data[PKG_SIZE - 1];
                    let crc_calculated = crc8(&packet_data[0..PKG_SIZE - 1]);
                    assert(packet_data@.subrange(0, 46) =~= bytes@.subrange(
                        start_pos as int,
                        start_pos + 46,
                    ));
                    if crc_calculated == crc_indicated {
                        (Ld19Frame::Packet(Ld19Packet::from_bytes(packet_data)), start_pos + PKG_SIZE)
                    } else {
                        (Ld19Frame::CrcError, start_pos + 1)
                    }
                } else {
                    (Ld19Frame::NeedMoreData, 0)
                }
            },
        }
    }

    /// Runs one decoding step on the transport's buffer and drops from its
    /// front what the step consumed.
    pub fn decode(&mut self, src: &mut BytesMut) -> (frame: Ld19Frame)
        ensures
            frame == decode_step(buffered(*old(src))).0,
            buffered(*final(src)) == buffered(*old(src)).skip(decode_step(buffered(*old(src))).1),
    {
        let bytes: &[u8] = (*src).as_ref();
        let held = bytes.len();
        let (frame, consumed) = Self::scan(bytes);
        if consumed == held {
            src.clear();
        } else if consumed > 0 {
            let _ = src.split_to(consumed);
        }
        frame
    }
}

} // verus!
