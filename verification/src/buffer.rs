//! Byte buffers of the `bytes` crate, as verified code sees them: a buffer holds
//! a sequence of bytes, which it hands out as a slice.

use vstd::prelude::*;
use bytes::Bytes;

verus! {

/// `bytes::Bytes`, declared so that it can stand in signatures and fields. What
/// is inside a buffer is known only through [`contents`].
#[verifier::external_type_specification]
#[verifier::external_body]
pub struct ExBytes(bytes::Bytes);

/// The bytes that a buffer holds, in order.
pub uninterp spec fn contents(buffer: Bytes) -> Seq<u8>;

/// `Bytes::from(Vec<u8>)`. Trusted: the buffer holds the bytes of the vector, in
/// the vector's order.
#[verifier::external_body]
pub(crate) fn from_vec(bytes: Vec<u8>) -> (buffer: Bytes)
    ensures
        contents(buffer) == bytes@,
{
    Bytes::from(bytes)
}

/// `Bytes::as_ref`. Trusted: the slice is the bytes that the buffer holds.
#[verifier::external_body]
pub(crate) fn as_slice(buffer: &Bytes) -> (slice: &[u8])
    ensures
        slice@ == contents(*buffer),
{
    buffer.as_ref()
}

} // verus!
