//! Ways to write a field that differ from the field's own encoding.
//!
//! Each takes the field, a byte order and the sink, so that one can stand
//! for another where a field is written.
use crate::byte_order::ByteOrder;
use crate::digester_writer::str_bytes;
use crate::digester_writer::DigestWriter;
use crate::hash_digester::hash_into;
use core::hash::Hash;
use vstd::prelude::*;

verus! {

/// Appends `bytes` as they are, in one piece. The byte order plays no
/// part.
pub fn digest_as_bytes<W: DigestWriter>(bytes: &[u8], order: ByteOrder, writer: &mut W)
    ensures
        (*final(writer)).written() == (*old(writer)).written() + bytes@,
{
    writer.write(bytes);
}

/// Writes `hash` as it hashes itself: every write that it makes to its
/// hasher goes to `writer`, numbers in the byte order of the machine.
/// Which bytes a value hashes is its own matter; what the sink held
/// before is still there, at the front.
pub fn digest_with_hash<T: Hash, W: DigestWriter>(hash: &T, order: ByteOrder, writer: &mut W)
    ensures
        (*old(writer)).written().is_prefix_of((*final(writer)).written()),
{
    hash_into(hash, writer);
}

/// Appends the UTF-8 bytes of `text`, with no length and no terminator.
/// The byte order plays no part.
pub fn digest_as_str_ref<W: DigestWriter>(text: &str, order: ByteOrder, writer: &mut W)
    ensures
        (*final(writer)).written() == (*old(writer)).written() + str_bytes(text@),
{
    writer.write_str(text);
}

} // verus!
