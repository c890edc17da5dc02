use vstd::prelude::*;

use bytes::BytesMut;

verus! {

#[verifier::external_type_specification]
#[verifier::external_body]
pub struct ExBytesMut(BytesMut);

/// The bytes that a `BytesMut` holds, in order.
pub uninterp spec fn bytes_mut_contents(b: BytesMut) -> Seq<u8>;

/// Relies on `BytesMut::len`: the number of bytes the buffer holds.
pub assume_specification[ BytesMut::len ](b: &BytesMut) -> (r: usize)
    ensures
        r == bytes_mut_contents(*b).len(),
;

/// Relies on `BytesMut::split_to`: the buffer keeps the bytes from `at` on and
/// the first `at` bytes are returned. It panics when `at` exceeds the length.
pub assume_specification[ BytesMut::split_to ](b: &mut BytesMut, at: usize) -> (r: BytesMut)
    requires
        at <= bytes_mut_contents(*old(b)).len(),
    ensures
        bytes_mut_contents(r) == bytes_mut_contents(*old(b)).subrange(0, at as int),
        bytes_mut_contents(*final(b)) == bytes_mut_contents(*old(b)).subrange(
            at as int,
            bytes_mut_contents(*old(b)).len() as int,
        ),
;

/// Relies on `BytesMut`'s `AsRef<[u8]>`: a slice of the bytes the buffer holds.
pub assume_specification[ <BytesMut as core::convert::AsRef<[u8]>>::as_ref ](b: &BytesMut) -> (r: &[u8])
    ensures
        r@ == bytes_mut_contents(*b),
;

} // verus!
