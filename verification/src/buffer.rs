//! Byte buffers that carry media payloads.
//!
//! Payloads travel through the relay as `bytes::BytesMut` values. The verifier
//! is told only what such a buffer holds: a finite sequence of bytes.

use bytes::BytesMut;
use vstd::prelude::*;

verus! {

#[verifier::external_type_specification]
#[verifier::external_body]
pub struct ExBytesMut(bytes::BytesMut);

/// The bytes that a buffer holds, first to last.
pub uninterp spec fn bytes_of(buffer: BytesMut) -> Seq<u8>;

/// `BytesMut::new` returns a buffer that holds no byte.
pub assume_specification[ BytesMut::new ]() -> (buffer: BytesMut)
    ensures
        bytes_of(buffer) == Seq::<u8>::empty(),
;

/// `BytesMut::len` returns the number of bytes held.
pub assume_specification[ BytesMut::len ](buffer: &BytesMut) -> (n: usize)
    ensures
        n == bytes_of(*buffer).len(),
;

/// `BytesMut::is_empty` tells whether the buffer holds no byte.
pub assume_specification[ BytesMut::is_empty ](buffer: &BytesMut) -> (empty: bool)
    ensures
        empty <==> bytes_of(*buffer).len() == 0,
;

/// Cloning a `BytesMut` copies its bytes into a buffer of its own.
pub assume_specification[ <BytesMut as Clone>::clone ](buffer: &BytesMut) -> (copy: BytesMut)
    ensures
        bytes_of(copy) == bytes_of(*buffer),
;

/// Reads one byte through the buffer's slice view (`Deref<Target = [u8]>`).
#[verifier::external_body]
pub(crate) fn byte_at(buffer: &BytesMut, index: usize) -> (byte: u8)
    requires
        index < bytes_of(*buffer).len(),
    ensures
        byte == bytes_of(*buffer)[index as int],
{
    buffer[index]
}

} // verus!
