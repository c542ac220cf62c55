//! Body chunks: what a `bytes::Bytes` holds, and the calls that read, empty
//! and make one.
//!
//! Nothing in this file is proved: each item states what `bytes` does.

use bytes::Bytes;
use vstd::prelude::*;

verus! {

#[verifier::external_type_specification]
#[verifier::external_body]
pub struct ExBytes(bytes::Bytes);

/// The bytes that a chunk holds, in order.
pub uninterp spec fn bytes_of(chunk: Bytes) -> Seq<u8>;

/// `Bytes`'s `Deref` gives the bytes of the chunk as a slice.
pub assume_specification[ <bytes::Bytes as core::ops::Deref>::deref ](chunk: &Bytes) -> (bytes:
    &[u8])
    ensures
        bytes@ == bytes_of(*chunk),
;

/// `Bytes::clear` leaves the chunk empty.
pub assume_specification[ bytes::Bytes::clear ](chunk: &mut Bytes)
    ensures
        bytes_of(*final(chunk)) == Seq::<u8>::empty(),
;

/// `Bytes::from` a `Vec<u8>` makes a chunk of the vector's bytes.
pub assume_specification[ <bytes::Bytes as core::convert::From<Vec<u8>>>::from ](
    bytes: Vec<u8>,
) -> (chunk: Bytes)
    ensures
        bytes_of(chunk) == bytes@,
;

} // verus!
