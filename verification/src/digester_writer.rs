//! The byte sink that values write their encoding into.
use crate::byte_order::lemma_radix_values;
use crate::byte_order::twos_complement;
use crate::byte_order::ByteOrder;
use vstd::prelude::*;

verus! {

/// The bytes of the text `s`: its UTF-8 encoding.
pub open spec fn str_bytes(s: Seq<char>) -> Seq<u8> {
    vstd::utf8::encode_utf8(s)
}

/// A byte sink: an append-only target for encoded values.
///
/// Only [`write`](DigestWriter::write) has to be given. Every other
/// operation turns its argument into bytes and appends them; a sink that
/// gives its own version of one must append the very same bytes.
pub trait DigestWriter {
    /// All bytes that were written to this sink, in the order in which they
    /// were written.
    spec fn written(&self) -> Seq<u8>;

    /// Appends `data`.
    fn write(&mut self, data: &[u8])
        ensures
            final(self).written() == old(self).written() + data@,
    ;

    /// Appends one byte: 1 for `true`, 0 for `false`.
    fn write_bool(&mut self, data: bool)
        ensures
            final(self).written() == old(self).written().push(
                if data {
                    1u8
                } else {
                    0u8
                },
            ),
    {
        let byte: u8 = if data {
            1
        } else {
            0
        };
        let buffer = [byte];
        self.write(buffer.as_slice());
        proof {
            assert(buffer@ =~= seq![byte]);
            assert(old(self).written() + buffer@ =~= old(self).written().push(byte));
        }
    }

    /// Appends the byte `data`.
    fn write_u8(&mut self, data: u8)
        ensures
            final(self).written() == old(self).written().push(data),
    {
        let buffer = [data];
        self.write(buffer.as_slice());
        proof {
            assert(buffer@ =~= seq![data]);
            assert(old(self).written() + buffer@ =~= old(self).written().push(data));
        }
    }

    /// Appends one byte: `data` in two's complement.
    fn write_i8(&mut self, data: i8)
        ensures
            final(self).written() == old(self).written().push(twos_complement(data as int, 1) as u8),
    {
        proof {
            lemma_radix_values();
            assert(data >= 0 ==> (data as u8) as int == data as int) by (bit_vector);
            assert(data < 0 ==> (data as u8) as int == data as int + 0x100) by (bit_vector);
        }
        self.write_u8(data as u8);
    }

    /// Appends the UTF-8 bytes of `data`, with no length and no terminator.
    fn write_str(&mut self, data: &str)
        ensures
            final(self).written() == old(self).written() + str_bytes(data@),
    {
        self.write(data.as_bytes());
    }

    /// Appends `data` as a number of 64 bits, whatever the width of `usize`
    /// on this machine.
    fn write_usize(&mut self, order: ByteOrder, data: usize)
        ensures
            final(self).written() == old(self).written() + order.bytes(data as nat, 8),
    {
        self.write_u64(order, data as u64);
    }

    /// Appends `data` as a number of 64 bits in two's complement, whatever
    /// the width of `isize` on this machine.
    fn write_isize(&mut self, order: ByteOrder, data: isize)
        ensures
            final(self).written() == old(self).written() + order.signed_bytes(data as int, 8),
    {
        self.write_i64(order, data as i64);
    }

    /// Appends the two bytes of `data` in the given order.
    fn write_u16(&mut self, order: ByteOrder, data: u16)
        ensures
            final(self).written() == old(self).written() + order.bytes(data as nat, 2),
    {
        let buffer = order.u16_bytes(data);
        self.write(buffer.as_slice());
    }

    /// Appends the four bytes of `data` in the given order.
    fn write_u32(&mut self, order: ByteOrder, data: u32)
        ensures
            final(self).written() == old(self).written() + order.bytes(data as nat, 4),
    {
        let buffer = order.u32_bytes(data);
        self.write(buffer.as_slice());
    }

    /// Appends the eight bytes of `data` in the given order.
    fn write_u64(&mut self, order: ByteOrder, data: u64)
        ensures
            final(self).written() == old(self).written() + order.bytes(data as nat, 8),
    {
        let buffer = order.u64_bytes(data);
        self.write(buffer.as_slice());
    }

    /// Appends the sixteen bytes of `data` in the given order.
    fn write_u128(&mut self, order: ByteOrder, data: u128)
        ensures
            final(self).written() == old(self).written() + order.bytes(data as nat, 16),
    {
        let buffer = order.u128_bytes(data);
        self.write(buffer.as_slice());
    }

    /// Appends the two bytes of `data`, in two's complement, in the given
    /// order.
    fn write_i16(&mut self, order: ByteOrder, data: i16)
        ensures
            final(self).written() == old(self).written() + order.signed_bytes(data as int, 2),
    {
        proof {
            lemma_radix_values();
            assert(data >= 0 ==> (data as u16) as int == data as int) by (bit_vector);
            assert(data < 0 ==> (data as u16) as int == data as int + 0x1_0000) by (bit_vector);
        }
        self.write_u16(order, data as u16);
    }

    /// Appends the four bytes of `data`, in two's complement, in the given
    /// order.
    fn write_i32(&mut self, order: ByteOrder, data: i32)
        ensures
            final(self).written() == old(self).written() + order.signed_bytes(data as int, 4),
    {
        proof {
            lemma_radix_values();
            assert(data >= 0 ==> (data as u32) as int == data as int) by (bit_vector);
            assert(data < 0 ==> (data as u32) as int == data as int + 0x1_0000_0000) by (bit_vector);
        }
        self.write_u32(order, data as u32);
    }

    /// Appends the eight bytes of `data`, in two's complement, in the given
    /// order.
    fn write_i64(&mut self, order: ByteOrder, data: i64)
        ensures
            final(self).written() == old(self).written() + order.signed_bytes(data as int, 8),
    {
        proof {
            lemma_radix_values();
            assert(data >= 0 ==> (data as u64) as int == data as int) by (bit_vector);
            assert(data < 0 ==> (data as u64) as int == data as int + 0x1_0000_0000_0000_0000) by (bit_vector);
        }
        self.write_u64(order, data as u64);
    }

    /// Appends the sixteen bytes of `data`, in two's complement, in the given
    /// order.
    fn write_i128(&mut self, order: ByteOrder, data: i128)
        ensures
            final(self).written() == old(self).written() + order.signed_bytes(data as int, 16),
    {
        proof {
            lemma_radix_values();
            assert(data >= 0 ==> (data as u128) as int == data as int) by (bit_vector);
            assert(data < 0 ==> (data as u128) as int == data as int + 0x1_0000_0000_0000_0000_0000_0000_0000_0000) by (bit_vector);
        }
        self.write_u128(order, data as u128);
    }
}

impl DigestWriter for Vec<u8> {
    open spec fn written(&self) -> Seq<u8> {
        self@
    }

    fn write(&mut self, data: &[u8]) {
        self.extend_from_slice(data);
        proof {
            assert(self@ =~= old(self)@ + data@);
        }
    }
}

impl<'a, T: DigestWriter> DigestWriter for &'a mut T {
    open spec fn written(&self) -> Seq<u8> {
        (**self).written()
    }

    fn write(&mut self, data: &[u8]) {
        (**self).write(data)
    }
}

impl<T: DigestWriter> DigestWriter for Box<T> {
    open spec fn written(&self) -> Seq<u8> {
        (**self).written()
    }

    fn write(&mut self, data: &[u8]) {
        (**self).write(data)
    }
}

/// The type `bytes::BytesMut`, a growing byte buffer: nothing of what it holds is seen here.
#[verifier::external_type_specification]
#[verifier::external_body]
pub struct ExBytesMut(bytes::BytesMut);

/// The bytes that a `BytesMut` holds, the first byte first.
pub uninterp spec fn bytes_mut_contents(buffer: bytes::BytesMut) -> Seq<u8>;

/// `BytesMut::extend_from_slice` of the crate `bytes`: the buffer then
/// holds what it held and, behind that, `data`.
#[verifier::external_body]
fn bytes_mut_extend(buffer: &mut bytes::BytesMut, data: &[u8])
    ensures
        bytes_mut_contents(*final(buffer)) == bytes_mut_contents(*old(buffer)) + data@,
{
    buffer.extend_from_slice(data)
}

/// `BytesMut::as_ref` of the crate `bytes`: the bytes of the buffer as a
/// slice.
#[verifier::external_body]
pub(crate) fn bytes_mut_as_slice(buffer: &bytes::BytesMut) -> (bytes: &[u8])
    ensures
        bytes@ == bytes_mut_contents(*buffer),
{
    buffer.as_ref()
}

impl DigestWriter for bytes::BytesMut {
    open spec fn written(&self) -> Seq<u8> {
        bytes_mut_contents(*self)
    }

    fn write(&mut self, data: &[u8]) {
        bytes_mut_extend(self, data)
    }
}

} // verus!
