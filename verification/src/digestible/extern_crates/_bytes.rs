//! The byte buffers of the crate `bytes`: written as they are.
use crate::byte_order::ByteOrder;
use crate::digester_writer::bytes_mut_as_slice;
use crate::digester_writer::bytes_mut_contents;
use crate::digester_writer::DigestWriter;
use crate::digestible::Digestible;
use bytes::Bytes;
use bytes::BytesMut;
use vstd::prelude::*;

verus! {

/// The type `bytes::Bytes`, a byte buffer: nothing of what it holds is seen here.
#[verifier::external_type_specification]
#[verifier::external_body]
pub struct ExBytes(bytes::Bytes);

/// The bytes that a `Bytes` holds, the first byte first.
pub uninterp spec fn bytes_contents(buffer: Bytes) -> Seq<u8>;

/// `Bytes::as_ref` of the crate `bytes`: the bytes of the buffer as a
/// slice.
#[verifier::external_body]
fn bytes_as_slice(buffer: &Bytes) -> (bytes: &[u8])
    ensures
        bytes@ == bytes_contents(*buffer),
{
    buffer.as_ref()
}

impl Digestible for Bytes {
    open spec fn deterministic(&self) -> bool {
        true
    }

    open spec fn encoding(&self, order: ByteOrder) -> Seq<u8> {
        bytes_contents(*self)
    }

    fn digest<W: DigestWriter>(&self, order: ByteOrder, writer: &mut W) {
        writer.write(bytes_as_slice(self))
    }
}

impl Digestible for BytesMut {
    open spec fn deterministic(&self) -> bool {
        true
    }

    open spec fn encoding(&self, order: ByteOrder) -> Seq<u8> {
        bytes_mut_contents(*self)
    }

    fn digest<W: DigestWriter>(&self, order: ByteOrder, writer: &mut W) {
        writer.write(bytes_mut_as_slice(self))
    }
}

} // verus!
