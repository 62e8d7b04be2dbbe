//! Encodings of the types of the core library.
use crate::byte_order::lemma_bytes_injective;
use crate::byte_order::lemma_bytes_len;
use crate::byte_order::lemma_radix_values;
use crate::byte_order::lemma_signed_bytes_injective;
use crate::byte_order::twos_complement;
use crate::byte_order::ByteOrder;
use crate::digester_writer::str_bytes;
use crate::digester_writer::DigestWriter;
use crate::digestible::all_deterministic;
use crate::digestible::encoding_of_all;
use crate::digestible::lemma_all_deterministic_push;
use crate::digestible::lemma_encoding_of_all_push;
use crate::digestible::Digestible;
use vstd::prelude::*;
use vstd::std_specs::iter::IteratorSpec;

verus! {

/// Appends the encodings of the items of `items`, the first item first.
pub fn digest_slice<T: Digestible, W: DigestWriter>(items: &[T], order: ByteOrder, writer: &mut W)
    ensures
        (*old(writer)).written().is_prefix_of((*final(writer)).written()),
        all_deterministic(items@) ==> (*final(writer)).written() == (*old(writer)).written()
            + encoding_of_all(items@, order),
{
    let mut i: usize = 0;
    while i < items.len()
        invariant
            i <= items.len(),
            (*old(writer)).written().is_prefix_of(writer.written()),
            all_deterministic(items@) ==> writer.written() == (*old(writer)).written()
                + encoding_of_all(items@.take(i as int), order),
        decreases items.len() - i,
    {
        items[i].digest(order, writer);
        proof {
            assert(items@.take(i + 1) =~= items@.take(i as int).push(items@[i as int]));
            lemma_encoding_of_all_push(items@.take(i as int), items@[i as int], order);
        }
        i += 1;
    }
    proof {
        assert(items@.take(i as int) =~= items@);
    }
}

impl<'a, T: Digestible> Digestible for &'a [T] {
    open spec fn deterministic(&self) -> bool {
        all_deterministic(self@)
    }

    open spec fn encoding(&self, order: ByteOrder) -> Seq<u8> {
        encoding_of_all(self@, order)
    }

    fn digest<W: DigestWriter>(&self, order: ByteOrder, writer: &mut W) {
        digest_slice(*self, order, writer)
    }
}

impl<T: Digestible, const N: usize> Digestible for [T; N] {
    open spec fn deterministic(&self) -> bool {
        all_deterministic(self@)
    }

    open spec fn encoding(&self, order: ByteOrder) -> Seq<u8> {
        encoding_of_all(self@, order)
    }

    fn digest<W: DigestWriter>(&self, order: ByteOrder, writer: &mut W) {
        digest_slice(self.as_slice(), order, writer)
    }
}

impl<'a> Digestible for &'a str {
    open spec fn deterministic(&self) -> bool {
        true
    }

    open spec fn encoding(&self, order: ByteOrder) -> Seq<u8> {
        str_bytes(self@)
    }

    fn digest<W: DigestWriter>(&self, order: ByteOrder, writer: &mut W) {
        writer.write(self.as_bytes())
    }
}

impl Digestible for bool {
    open spec fn deterministic(&self) -> bool {
        true
    }

    open spec fn encoding(&self, order: ByteOrder) -> Seq<u8> {
        seq![if *self { 1u8 } else { 0u8 }]
    }

    fn digest<W: DigestWriter>(&self, order: ByteOrder, writer: &mut W) {
        writer.write_bool(*self);
        proof {
            let byte = if *self { 1u8 } else { 0u8 };
            assert((*old(writer)).written().push(byte) =~= (*old(writer)).written() + seq![byte]);
        }
    }
}

impl Digestible for char {
    open spec fn deterministic(&self) -> bool {
        true
    }

    /// One byte: the low eight bits of the character's number.
    open spec fn encoding(&self, order: ByteOrder) -> Seq<u8> {
        seq![(*self as u32 % 256) as u8]
    }

    fn digest<W: DigestWriter>(&self, order: ByteOrder, writer: &mut W) {
        let code = *self as u32;
        let byte = (code % 256) as u8;
        writer.write_u8(byte);
        proof {
            assert((*old(writer)).written().push(byte) =~= (*old(writer)).written() + seq![byte]);
        }
    }
}

impl Digestible for u8 {
    open spec fn deterministic(&self) -> bool {
        true
    }

    open spec fn encoding(&self, order: ByteOrder) -> Seq<u8> {
        seq![*self]
    }

    fn digest<W: DigestWriter>(&self, order: ByteOrder, writer: &mut W) {
        writer.write_u8(*self);
        proof {
            assert((*old(writer)).written().push(*self) =~= (*old(writer)).written() + seq![*self]);
        }
    }
}

impl Digestible for i8 {
    open spec fn deterministic(&self) -> bool {
        true
    }

    open spec fn encoding(&self, order: ByteOrder) -> Seq<u8> {
        seq![twos_complement(*self as int, 1) as u8]
    }

    fn digest<W: DigestWriter>(&self, order: ByteOrder, writer: &mut W) {
        writer.write_i8(*self);
        proof {
            let byte = twos_complement(*self as int, 1) as u8;
            assert((*old(writer)).written().push(byte) =~= (*old(writer)).written() + seq![byte]);
        }
    }
}

impl Digestible for u16 {
    open spec fn deterministic(&self) -> bool {
        true
    }

    open spec fn encoding(&self, order: ByteOrder) -> Seq<u8> {
        order.bytes(*self as nat, 2)
    }

    fn digest<W: DigestWriter>(&self, order: ByteOrder, writer: &mut W) {
        writer.write_u16(order, *self)
    }
}

impl Digestible for u32 {
    open spec fn deterministic(&self) -> bool {
        true
    }

    open spec fn encoding(&self, order: ByteOrder) -> Seq<u8> {
        order.bytes(*self as nat, 4)
    }

    fn digest<W: DigestWriter>(&self, order: ByteOrder, writer: &mut W) {
        writer.write_u32(order, *self)
    }
}

impl Digestible for u64 {
    open spec fn deterministic(&self) -> bool {
        true
    }

    open spec fn encoding(&self, order: ByteOrder) -> Seq<u8> {
        order.bytes(*self as nat, 8)
    }

    fn digest<W: DigestWriter>(&self, order: ByteOrder, writer: &mut W) {
        writer.write_u64(order, *self)
    }
}

impl Digestible for u128 {
    open spec fn deterministic(&self) -> bool {
        true
    }

    open spec fn encoding(&self, order: ByteOrder) -> Seq<u8> {
        order.bytes(*self as nat, 16)
    }

    fn digest<W: DigestWriter>(&self, order: ByteOrder, writer: &mut W) {
        writer.write_u128(order, *self)
    }
}

impl Digestible for usize {
    open spec fn deterministic(&self) -> bool {
        true
    }

    open spec fn encoding(&self, order: ByteOrder) -> Seq<u8> {
        order.bytes(*self as nat, 8)
    }

    fn digest<W: DigestWriter>(&self, order: ByteOrder, writer: &mut W) {
        writer.write_usize(order, *self)
    }
}

impl Digestible for i16 {
    open spec fn deterministic(&self) -> bool {
        true
    }

    open spec fn encoding(&self, order: ByteOrder) -> Seq<u8> {
        order.signed_bytes(*self as int, 2)
    }

    fn digest<W: DigestWriter>(&self, order: ByteOrder, writer: &mut W) {
        writer.write_i16(order, *self)
    }
}

impl Digestible for i32 {
    open spec fn deterministic(&self) -> bool {
        true
    }

    open spec fn encoding(&self, order: ByteOrder) -> Seq<u8> {
        order.signed_bytes(*self as int, 4)
    }

    fn digest<W: DigestWriter>(&self, order: ByteOrder, writer: &mut W) {
        writer.write_i32(order, *self)
    }
}

impl Digestible for i64 {
    open spec fn deterministic(&self) -> bool {
        true
    }

    open spec fn encoding(&self, order: ByteOrder) -> Seq<u8> {
        order.signed_bytes(*self as int, 8)
    }

    fn digest<W: DigestWriter>(&self, order: ByteOrder, writer: &mut W) {
        writer.write_i64(order, *self)
    }
}

impl Digestible for i128 {
    open spec fn deterministic(&self) -> bool {
        true
    }

    open spec fn encoding(&self, order: ByteOrder) -> Seq<u8> {
        order.signed_bytes(*self as int, 16)
    }

    fn digest<W: DigestWriter>(&self, order: ByteOrder, writer: &mut W) {
        writer.write_i128(order, *self)
    }
}

impl Digestible for isize {
    open spec fn deterministic(&self) -> bool {
        true
    }

    open spec fn encoding(&self, order: ByteOrder) -> Seq<u8> {
        order.signed_bytes(*self as int, 8)
    }

    fn digest<W: DigestWriter>(&self, order: ByteOrder, writer: &mut W) {
        writer.write_isize(order, *self)
    }
}

impl<T: Digestible> Digestible for Option<T> {
    open spec fn deterministic(&self) -> bool {
        match self {
            Some(value) => value.deterministic(),
            None => true,
        }
    }

    /// The encoding of the value that is there; nothing for `None`.
    open spec fn encoding(&self, order: ByteOrder) -> Seq<u8> {
        match self {
            Some(value) => value.encoding(order),
            None => Seq::empty(),
        }
    }

    fn digest<W: DigestWriter>(&self, order: ByteOrder, writer: &mut W) {
        if let Some(value) = self {
            value.digest(order, writer);
        } else {
            proof {
                assert(writer.written() =~= (*old(writer)).written() + Seq::<u8>::empty());
            }
        }
    }
}

impl<S: Digestible, E: Digestible> Digestible for Result<S, E> {
    open spec fn deterministic(&self) -> bool {
        match self {
            Ok(value) => value.deterministic(),
            Err(value) => value.deterministic(),
        }
    }

    /// The encoding of the value inside, with nothing that tells `Ok` from
    /// `Err`.
    open spec fn encoding(&self, order: ByteOrder) -> Seq<u8> {
        match self {
            Ok(value) => value.encoding(order),
            Err(value) => value.encoding(order),
        }
    }

    fn digest<W: DigestWriter>(&self, order: ByteOrder, writer: &mut W) {
        match self {
            Ok(value) => {
                value.digest(order, writer);
            },
            Err(value) => {
                value.digest(order, writer);
            },
        }
    }
}

impl<T: ?Sized> Digestible for core::marker::PhantomData<T> {
    open spec fn deterministic(&self) -> bool {
        true
    }

    open spec fn encoding(&self, order: ByteOrder) -> Seq<u8> {
        Seq::empty()
    }

    fn digest<W: DigestWriter>(&self, order: ByteOrder, writer: &mut W) {
        proof {
            assert(writer.written() =~= (*old(writer)).written() + Seq::<u8>::empty());
        }
    }
}

/// The first `limit` items of `items`, or all of them where there are
/// fewer.
pub open spec fn first_items<T>(items: Seq<T>, limit: usize) -> Seq<T> {
    if limit < items.len() {
        items.take(limit as int)
    } else {
        items
    }
}

/// Appends the encodings of the items that `iter` gives, in the order in
/// which it gives them, and stops after `limit` items.
pub(crate) fn digest_iter<T: Digestible, I: Iterator<Item = T>, W: DigestWriter>(
    iter: I,
    limit: usize,
    order: ByteOrder,
    writer: &mut W,
)
    requires
        iter.obeys_prophetic_iter_laws(),
    ensures
        (*old(writer)).written().is_prefix_of((*final(writer)).written()),
        all_deterministic(first_items(iter.remaining(), limit)) ==> (*final(writer)).written() == (*old(writer)).written() + encoding_of_all(
            first_items(iter.remaining(), limit),
            order,
        ),
{
    let mut iter = iter;
    let ghost all = iter.remaining();
    let mut done: usize = 0;
    let mut more = true;
    while more && done < limit
        invariant
            iter.obeys_prophetic_iter_laws(),
            done <= limit,
            done <= all.len(),
            !more ==> done == all.len(),
            iter.remaining() == all.skip(done as int),
            (*old(writer)).written().is_prefix_of(writer.written()),
            all_deterministic(all.take(done as int)) ==> writer.written() == (*old(
                writer
            )).written() + encoding_of_all(all.take(done as int), order),
        decreases limit - done + (if more { 1int } else { 0int }),
    {
        let next = iter.next();
        match next {
            Some(item) => {
                let ghost before = all.take(done as int);
                proof {
                    assert(item == all[done as int]);
                    assert(all.take(done + 1) =~= before.push(all[done as int]));
                    assert(all.skip(done as int).drop_first() =~= all.skip(done + 1));
                }
                item.digest(order, writer);
                proof {
                    lemma_encoding_of_all_push(before, all[done as int], order);
                    lemma_all_deterministic_push(before, all[done as int]);
                }
                done += 1;
            },
            None => {
                proof {
                    assert(all.skip(done as int).len() == 0);
                }
                more = false;
            },
        }
    }
    proof {
        assert(first_items(all, limit) =~= all.take(done as int));
    }
}

/// Numbers and booleans have a fixed shape: every value of one type
/// takes the same number of bytes, under either byte order.
pub proof fn lemma_number_encodings_have_fixed_width(order: ByteOrder)
    ensures
        forall|a: u8| #[trigger] a.encoding(order).len() == 1,
        forall|a: u16| #[trigger] a.encoding(order).len() == 2,
        forall|a: u32| #[trigger] a.encoding(order).len() == 4,
        forall|a: u64| #[trigger] a.encoding(order).len() == 8,
        forall|a: u128| #[trigger] a.encoding(order).len() == 16,
        forall|a: usize| #[trigger] a.encoding(order).len() == 8,
        forall|a: i8| #[trigger] a.encoding(order).len() == 1,
        forall|a: i16| #[trigger] a.encoding(order).len() == 2,
        forall|a: i32| #[trigger] a.encoding(order).len() == 4,
        forall|a: i64| #[trigger] a.encoding(order).len() == 8,
        forall|a: i128| #[trigger] a.encoding(order).len() == 16,
        forall|a: isize| #[trigger] a.encoding(order).len() == 8,
        forall|a: bool| #[trigger] a.encoding(order).len() == 1,
{
    assert forall|a: u16| #[trigger] a.encoding(order).len() == 2 by {
        lemma_bytes_len(order, a as nat, 2);
    }
    assert forall|a: u32| #[trigger] a.encoding(order).len() == 4 by {
        lemma_bytes_len(order, a as nat, 4);
    }
    assert forall|a: u64| #[trigger] a.encoding(order).len() == 8 by {
        lemma_bytes_len(order, a as nat, 8);
    }
    assert forall|a: u128| #[trigger] a.encoding(order).len() == 16 by {
        lemma_bytes_len(order, a as nat, 16);
    }
    assert forall|a: usize| #[trigger] a.encoding(order).len() == 8 by {
        lemma_bytes_len(order, a as nat, 8);
    }
    assert forall|a: i16| #[trigger] a.encoding(order).len() == 2 by {
        lemma_bytes_len(order, twos_complement(a as int, 2), 2);
    }
    assert forall|a: i32| #[trigger] a.encoding(order).len() == 4 by {
        lemma_bytes_len(order, twos_complement(a as int, 4), 4);
    }
    assert forall|a: i64| #[trigger] a.encoding(order).len() == 8 by {
        lemma_bytes_len(order, twos_complement(a as int, 8), 8);
    }
    assert forall|a: i128| #[trigger] a.encoding(order).len() == 16 by {
        lemma_bytes_len(order, twos_complement(a as int, 16), 16);
    }
    assert forall|a: isize| #[trigger] a.encoding(order).len() == 8 by {
        lemma_bytes_len(order, twos_complement(a as int, 8), 8);
    }
}

/// Numbers and booleans can be told apart by their encodings: two values
/// of one type with the same encoding are the same value.
pub proof fn lemma_number_encodings_are_injective(order: ByteOrder)
    ensures
        forall|a: u8, b: u8| a.encoding(order) == b.encoding(order) ==> a == b,
        forall|a: u16, b: u16| a.encoding(order) == b.encoding(order) ==> a == b,
        forall|a: u32, b: u32| a.encoding(order) == b.encoding(order) ==> a == b,
        forall|a: u64, b: u64| a.encoding(order) == b.encoding(order) ==> a == b,
        forall|a: u128, b: u128| a.encoding(order) == b.encoding(order) ==> a == b,
        forall|a: usize, b: usize| a.encoding(order) == b.encoding(order) ==> a == b,
        forall|a: i8, b: i8| a.encoding(order) == b.encoding(order) ==> a == b,
        forall|a: i16, b: i16| a.encoding(order) == b.encoding(order) ==> a == b,
        forall|a: i32, b: i32| a.encoding(order) == b.encoding(order) ==> a == b,
        forall|a: i64, b: i64| a.encoding(order) == b.encoding(order) ==> a == b,
        forall|a: i128, b: i128| a.encoding(order) == b.encoding(order) ==> a == b,
        forall|a: isize, b: isize| a.encoding(order) == b.encoding(order) ==> a == b,
        forall|a: bool, b: bool| a.encoding(order) == b.encoding(order) ==> a == b,
{
    lemma_radix_values();
    assert forall|a: u8, b: u8| a.encoding(order) == b.encoding(order) implies a == b by {
        assert(a.encoding(order)[0] == a);
        assert(b.encoding(order)[0] == b);
    }
    assert forall|a: i8, b: i8| a.encoding(order) == b.encoding(order) implies a == b by {
        let x = twos_complement(a as int, 1);
        let y = twos_complement(b as int, 1);
        assert(a.encoding(order)[0] == x as u8);
        assert(b.encoding(order)[0] == y as u8);
        assert(x < 256 && y < 256);
    }
    assert forall|a: bool, b: bool| a.encoding(order) == b.encoding(order) implies a == b by {
        assert(a.encoding(order)[0] == if a { 1u8 } else { 0u8 });
        assert(b.encoding(order)[0] == if b { 1u8 } else { 0u8 });
    }
    assert forall|a: u16, b: u16| a.encoding(order) == b.encoding(order) implies a == b by {
        lemma_bytes_injective(order, a as nat, b as nat, 2);
    }
    assert forall|a: u32, b: u32| a.encoding(order) == b.encoding(order) implies a == b by {
        lemma_bytes_injective(order, a as nat, b as nat, 4);
    }
    assert forall|a: u64, b: u64| a.encoding(order) == b.encoding(order) implies a == b by {
        lemma_bytes_injective(order, a as nat, b as nat, 8);
    }
    assert forall|a: u128, b: u128| a.encoding(order) == b.encoding(order) implies a == b by {
        lemma_bytes_injective(order, a as nat, b as nat, 16);
    }
    assert forall|a: usize, b: usize| a.encoding(order) == b.encoding(order) implies a == b by {
        lemma_bytes_injective(order, a as nat, b as nat, 8);
    }
    assert forall|a: i16, b: i16| a.encoding(order) == b.encoding(order) implies a == b by {
        lemma_signed_bytes_injective(order, a as int, b as int, 2);
    }
    assert forall|a: i32, b: i32| a.encoding(order) == b.encoding(order) implies a == b by {
        lemma_signed_bytes_injective(order, a as int, b as int, 4);
    }
    assert forall|a: i64, b: i64| a.encoding(order) == b.encoding(order) implies a == b by {
        lemma_signed_bytes_injective(order, a as int, b as int, 8);
    }
    assert forall|a: i128, b: i128| a.encoding(order) == b.encoding(order) implies a == b by {
        lemma_signed_bytes_injective(order, a as int, b as int, 16);
    }
    assert forall|a: isize, b: isize| a.encoding(order) == b.encoding(order) implies a == b by {
        lemma_signed_bytes_injective(order, a as int, b as int, 8);
    }
}

} // verus!
