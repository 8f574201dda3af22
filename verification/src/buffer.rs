//! What the decoder relies on from the transport's byte buffer.
//!
//! The buffer is a `BytesMut`. Nothing here is proved: each contract restates
//! the documented behaviour of one method, over the bytes the buffer holds.

use tokio_util::bytes::BytesMut;
use vstd::prelude::*;

verus! {

/// `BytesMut`, the growable byte buffer of the `bytes` crate. Its inside is
/// hidden; contracts speak of it through `buffered`.
#[verifier::external_type_specification]
#[verifier::external_body]
pub struct ExBytesMut(BytesMut);

/// The bytes a `BytesMut` holds, front first: what its `as_ref` shows.
pub uninterp spec fn buffered(buf: BytesMut) -> Seq<u8>;

/// `<BytesMut as AsRef<[u8]>>::as_ref` borrows the held bytes as one slice.
pub assume_specification[ <BytesMut as AsRef<[u8]>>::as_ref ](buf: &BytesMut) -> (bytes: &[u8])
    ensures
        bytes@ == buffered(*buf),
;

/// `BytesMut::split_to` cuts off the first `at` bytes: they are returned, and
/// the buffer keeps the rest. It panics when `at` exceeds the length.
pub assume_specification[ BytesMut::split_to ](buf: &mut BytesMut, at: usize) -> (front: BytesMut)
    requires
        at <= buffered(*old(buf)).len(),
    ensures
        buffered(front) == buffered(*old(buf)).subrange(0, at as int),
        buffered(*final(buf)) == buffered(*old(buf)).subrange(
            at as int,
            buffered(*old(buf)).len() as int,
        ),
;

/// `BytesMut::clear` removes every byte.
pub assume_specification[ BytesMut::clear ](buf: &mut BytesMut)
    ensures
        buffered(*final(buf)) == Seq::<u8>::empty(),
;

} // verus!
