//! Bridges between byte sinks and the hashers of the standard library, in
//! both directions.
use crate::byte_order::twos_complement;
use crate::byte_order::ByteOrder;
use crate::digester::Digester;
use crate::digester_writer::DigestWriter;
use crate::digestible::Digestible;
use core::hash::Hash;
use core::hash::Hasher;
use vstd::prelude::*;

verus! {

/// `Hasher::write` of the standard library, on any hasher. What a hasher
/// makes of the bytes is its own matter: nothing is claimed of it.
#[verifier::external_body]
fn hasher_write<H: Hasher>(hasher: &mut H, bytes: &[u8]) {
    hasher.write(bytes)
}

/// `Hasher::finish` of the standard library, on any hasher. Nothing is
/// claimed of the number it returns.
#[verifier::external_body]
fn hasher_finish<H: Hasher>(hasher: &H) -> u64 {
    hasher.finish()
}

/// A byte sink, and a digester, that hands every byte on to a hasher of
/// the standard library.
///
/// Numbers reach the hasher as bytes in the byte order that was asked for,
/// through [`Hasher::write`] alone.
pub struct DigesterUsingHasher<'h, H: Hasher> {
    hasher: &'h mut H,
    written: Ghost<Seq<u8>>,
}

impl<'h, H: Hasher> DigesterUsingHasher<'h, H> {
    /// A sink in front of `hasher` to which nothing was written yet.
    pub fn new(hasher: &'h mut H) -> (digester: Self)
        ensures
            digester.written() == Seq::<u8>::empty(),
    {
        DigesterUsingHasher { hasher, written: Ghost(Seq::empty()) }
    }
}

impl<'h, H: Hasher> DigestWriter for DigesterUsingHasher<'h, H> {
    /// The bytes that were handed to the hasher through this sink.
    closed spec fn written(&self) -> Seq<u8> {
        self.written@
    }

    fn write(&mut self, data: &[u8]) {
        hasher_write(self.hasher, data);
        self.written = Ghost(self.written@ + data@);
    }
}

impl<'h, H: Hasher> Digester for DigesterUsingHasher<'h, H> {
    type Target = u64;

    /// Any number: which one a hasher of the standard library gives is its
    /// own matter.
    open spec fn digests_to(self, stream: Seq<u8>, target: u64) -> bool {
        true
    }

    fn digest<D: Digestible>(self, order: ByteOrder, data: &D) -> (target: u64) {
        let mut sink = self;
        data.digest(order, &mut sink);
        hasher_finish(sink.hasher)
    }
}

/// A hasher that hands every write on to a byte sink, so that a value
/// that can only hash itself can be written to the sink.
///
/// The numbers that such a value hashes reach the sink in the byte order
/// of the machine.
pub struct HashableHack<'w, W: DigestWriter>(pub &'w mut W);

/// Whether `after` is `before` with the `width` bytes of `n` behind it, in
/// one of the two byte orders.
pub open spec fn appended_native(before: Seq<u8>, after: Seq<u8>, n: nat, width: nat) -> bool {
    ||| after == before + ByteOrder::BigEndian.bytes(n, width)
    ||| after == before + ByteOrder::LittleEndian.bytes(n, width)
}

impl<'w, W: DigestWriter> HashableHack<'w, W> {
    pub fn new(writer: &'w mut W) -> (hack: Self)
        ensures
            *hack.0 == *old(writer),
            *final(hack.0) == *final(writer),
    {
        HashableHack(writer)
    }

    /// Always 0: the sink holds the result, not the hasher.
    pub fn finish(&self) -> (hash: u64)
        ensures
            hash == 0,
    {
        0
    }

    pub fn write(&mut self, bytes: &[u8])
        ensures
            final(self).0.written() == old(self).0.written() + bytes@,
            *final(final(self).0) == *final(old(self).0),
    {
        self.0.write(bytes)
    }

    pub fn write_u8(&mut self, i: u8)
        ensures
            final(self).0.written() == old(self).0.written().push(i),
            *final(final(self).0) == *final(old(self).0),
    {
        self.0.write_u8(i)
    }

    pub fn write_i8(&mut self, i: i8)
        ensures
            final(self).0.written() == old(self).0.written().push(twos_complement(i as int, 1) as u8),
            *final(final(self).0) == *final(old(self).0),
    {
        self.0.write_i8(i)
    }

    pub fn write_u16(&mut self, value: u16)
        ensures
            appended_native(old(self).0.written(), final(self).0.written(), value as nat, 2),
            *final(final(self).0) == *final(old(self).0),
    {
        self.0.write_u16(ByteOrder::native(), value)
    }

    pub fn write_u32(&mut self, value: u32)
        ensures
            appended_native(old(self).0.written(), final(self).0.written(), value as nat, 4),
            *final(final(self).0) == *final(old(self).0),
    {
        self.0.write_u32(ByteOrder::native(), value)
    }

    pub fn write_u64(&mut self, value: u64)
        ensures
            appended_native(old(self).0.written(), final(self).0.written(), value as nat, 8),
            *final(final(self).0) == *final(old(self).0),
    {
        self.0.write_u64(ByteOrder::native(), value)
    }

    pub fn write_u128(&mut self, value: u128)
        ensures
            appended_native(old(self).0.written(), final(self).0.written(), value as nat, 16),
            *final(final(self).0) == *final(old(self).0),
    {
        self.0.write_u128(ByteOrder::native(), value)
    }

    pub fn write_usize(&mut self, value: usize)
        ensures
            appended_native(old(self).0.written(), final(self).0.written(), value as nat, 8),
            *final(final(self).0) == *final(old(self).0),
    {
        self.0.write_usize(ByteOrder::native(), value)
    }

    pub fn write_i16(&mut self, value: i16)
        ensures
            appended_native(old(self).0.written(), final(self).0.written(), twos_complement(value as int, 2), 2),
            *final(final(self).0) == *final(old(self).0),
    {
        self.0.write_i16(ByteOrder::native(), value)
    }

    pub fn write_i32(&mut self, value: i32)
        ensures
            appended_native(old(self).0.written(), final(self).0.written(), twos_complement(value as int, 4), 4),
            *final(final(self).0) == *final(old(self).0),
    {
        self.0.write_i32(ByteOrder::native(), value)
    }

    pub fn write_i64(&mut self, value: i64)
        ensures
            appended_native(old(self).0.written(), final(self).0.written(), twos_complement(value as int, 8), 8),
            *final(final(self).0) == *final(old(self).0),
    {
        self.0.write_i64(ByteOrder::native(), value)
    }

    pub fn write_i128(&mut self, value: i128)
        ensures
            appended_native(old(self).0.written(), final(self).0.written(), twos_complement(value as int, 16), 16),
            *final(final(self).0) == *final(old(self).0),
    {
        self.0.write_i128(ByteOrder::native(), value)
    }

    pub fn write_isize(&mut self, value: isize)
        ensures
            appended_native(old(self).0.written(), final(self).0.written(), twos_complement(value as int, 8), 8),
            *final(final(self).0) == *final(old(self).0),
    {
        self.0.write_isize(ByteOrder::native(), value)
    }
}

impl<W: DigestWriter> Hasher for HashableHack<'_, W> {
    /// Always 0: the sink holds the result, not the hasher.
    fn finish(&self) -> (hash: u64)
        ensures
            hash == 0,
    {
        HashableHack::finish(self)
    }

    fn write(&mut self, bytes: &[u8])
        ensures
            final(self).0.written() == old(self).0.written() + bytes@,
            *final(final(self).0) == *final(old(self).0),
    {
        HashableHack::write(self, bytes)
    }

    fn write_u8(&mut self, i: u8)
        ensures
            final(self).0.written() == old(self).0.written().push(i),
            *final(final(self).0) == *final(old(self).0),
    {
        HashableHack::write_u8(self, i)
    }

    fn write_i8(&mut self, i: i8)
        ensures
            final(self).0.written() == old(self).0.written().push(twos_complement(i as int, 1) as u8),
            *final(final(self).0) == *final(old(self).0),
    {
        HashableHack::write_i8(self, i)
    }

    fn write_u16(&mut self, value: u16)
        ensures
            appended_native(old(self).0.written(), final(self).0.written(), value as nat, 2),
            *final(final(self).0) == *final(old(self).0),
    {
        HashableHack::write_u16(self, value)
    }

    fn write_u32(&mut self, value: u32)
        ensures
            appended_native(old(self).0.written(), final(self).0.written(), value as nat, 4),
            *final(final(self).0) == *final(old(self).0),
    {
        HashableHack::write_u32(self, value)
    }

    fn write_u64(&mut self, value: u64)
        ensures
            appended_native(old(self).0.written(), final(self).0.written(), value as nat, 8),
            *final(final(self).0) == *final(old(self).0),
    {
        HashableHack::write_u64(self, value)
    }

    fn write_u128(&mut self, value: u128)
        ensures
            appended_native(old(self).0.written(), final(self).0.written(), value as nat, 16),
            *final(final(self).0) == *final(old(self).0),
    {
        HashableHack::write_u128(self, value)
    }

    fn write_usize(&mut self, value: usize)
        ensures
            appended_native(old(self).0.written(), final(self).0.written(), value as nat, 8),
            *final(final(self).0) == *final(old(self).0),
    {
        HashableHack::write_usize(self, value)
    }

    fn write_i16(&mut self, value: i16)
        ensures
            appended_native(old(self).0.written(), final(self).0.written(), twos_complement(value as int, 2), 2),
            *final(final(self).0) == *final(old(self).0),
    {
        HashableHack::write_i16(self, value)
    }

    fn write_i32(&mut self, value: i32)
        ensures
            appended_native(old(self).0.written(), final(self).0.written(), twos_complement(value as int, 4), 4),
            *final(final(self).0) == *final(old(self).0),
    {
        HashableHack::write_i32(self, value)
    }

    fn write_i64(&mut self, value: i64)
        ensures
            appended_native(old(self).0.written(), final(self).0.written(), twos_complement(value as int, 8), 8),
            *final(final(self).0) == *final(old(self).0),
    {
        HashableHack::write_i64(self, value)
    }

    fn write_i128(&mut self, value: i128)
        ensures
            appended_native(old(self).0.written(), final(self).0.written(), twos_complement(value as int, 16), 16),
            *final(final(self).0) == *final(old(self).0),
    {
        HashableHack::write_i128(self, value)
    }

    fn write_isize(&mut self, value: isize)
        ensures
            appended_native(old(self).0.written(), final(self).0.written(), twos_complement(value as int, 8), 8),
            *final(final(self).0) == *final(old(self).0),
    {
        HashableHack::write_isize(self, value)
    }
}

/// `Hash::hash` of the standard library, with a [`HashableHack`] in front
/// of `writer` as the hasher. Which bytes a value hashes is its own
/// matter; every write of the hasher adds to the sink, so what the sink
/// held before is still there, at the front.
#[verifier::external_body]
pub(crate) fn hash_into<T: Hash + ?Sized, W: DigestWriter>(value: &T, writer: &mut W)
    ensures
        (*old(writer)).written().is_prefix_of((*final(writer)).written()),
{
    let mut hashable_hack = HashableHack(writer);
    value.hash(&mut hashable_hack);
}

} // verus!
