//! Values that can write a byte encoding of themselves.
//!
//! A value is deterministic where its encoding is a function of the value
//! and of the byte order alone. Numbers, text, optional values, tuples and
//! ordered collections of deterministic values are. A collection that is
//! walked in an order of its own making is not.
//!
//! Nothing separates one value from the next in an encoding: no length, no
//! padding, no tag. An absent optional value contributes no byte at all.
pub mod alloc_types;
pub mod core_types;
pub mod extern_crates;
pub mod ordered;
pub mod std_types;
pub mod tuples;

use crate::byte_order::ByteOrder;
use crate::digester_writer::DigestWriter;
use vstd::prelude::*;

verus! {

/// A value that can write its encoding into a byte sink.
pub trait Digestible {
    /// Whether every digest of this value under one byte order writes the
    /// same bytes: those of [`encoding`](Digestible::encoding).
    spec fn deterministic(&self) -> bool;

    /// The bytes that this value contributes under the given byte order,
    /// where it is deterministic.
    spec fn encoding(&self, order: ByteOrder) -> Seq<u8>;

    /// Appends the encoding of this value under `order` to `writer`.
    fn digest<W: DigestWriter>(&self, order: ByteOrder, writer: &mut W)
        ensures
            (*old(writer)).written().is_prefix_of((*final(writer)).written()),
            self.deterministic() ==> (*final(writer)).written() == (*old(writer)).written()
                + self.encoding(order),
    ;

    /// Appends the encoding of this value under the byte order of the
    /// machine, which is one of the two.
    fn digest_native<W: DigestWriter>(&self, writer: &mut W)
        ensures
            (*old(writer)).written().is_prefix_of((*final(writer)).written()),
            self.deterministic() ==> (*final(writer)).written() == (*old(writer)).written()
                + self.encoding(ByteOrder::BigEndian) || (*final(writer)).written() == (*old(writer)).written() + self.encoding(ByteOrder::LittleEndian),
    {
        self.digest(ByteOrder::native(), writer)
    }

    /// The encoding of this value under `order`, in a buffer of its own.
    fn digest_owned_with_order(&self, order: ByteOrder) -> (digest: Vec<u8>)
        ensures
            self.deterministic() ==> digest@ == self.encoding(order),
    {
        let mut digest: Vec<u8> = Vec::new();
        self.digest(order, &mut digest);
        proof {
            assert(Seq::<u8>::empty() + self.encoding(order) =~= self.encoding(order));
        }
        digest
    }

    /// The encoding of this value under the byte order of the machine,
    /// which is one of the two, in a buffer of its own.
    fn digest_owned(&self) -> (digest: Vec<u8>)
        ensures
            self.deterministic() ==> digest@ == self.encoding(ByteOrder::BigEndian) || digest@
                == self.encoding(ByteOrder::LittleEndian),
    {
        self.digest_owned_with_order(ByteOrder::native())
    }
}

impl<'a, D: Digestible> Digestible for &'a D {
    open spec fn deterministic(&self) -> bool {
        (**self).deterministic()
    }

    open spec fn encoding(&self, order: ByteOrder) -> Seq<u8> {
        (**self).encoding(order)
    }

    fn digest<W: DigestWriter>(&self, order: ByteOrder, writer: &mut W) {
        (*self).digest(order, writer)
    }
}

/// Whether every item of `items` is deterministic.
pub open spec fn all_deterministic<T: Digestible>(items: Seq<T>) -> bool {
    forall|i: int| 0 <= i < items.len() ==> (#[trigger] items[i]).deterministic()
}

/// The encodings of the items of `items`, one after the other.
pub open spec fn encoding_of_all<T: Digestible>(items: Seq<T>, order: ByteOrder) -> Seq<u8>
    decreases items.len(),
{
    if items.len() == 0 {
        Seq::empty()
    } else {
        encoding_of_all(items.drop_last(), order) + items.last().encoding(order)
    }
}

/// A list with one more item is deterministic where the list and the
/// item are.
pub proof fn lemma_all_deterministic_push<T: Digestible>(items: Seq<T>, item: T)
    ensures
        all_deterministic(items.push(item)) <==> all_deterministic(items) && item.deterministic(),
{
    if all_deterministic(items.push(item)) {
        assert forall|i: int| 0 <= i < items.len() implies (#[trigger] items[i]).deterministic() by {
            assert(items[i] == items.push(item)[i]);
        }
        assert(items.push(item)[items.len() as int].deterministic());
    }
}

/// One more item adds its encoding at the end.
pub proof fn lemma_encoding_of_all_push<T: Digestible>(items: Seq<T>, item: T, order: ByteOrder)
    ensures
        encoding_of_all(items.push(item), order) == encoding_of_all(items, order) + item.encoding(
            order,
        ),
{
    assert(items.push(item).drop_last() =~= items);
}

/// Digesting is repeatable: two digests of one deterministic value under
/// one byte order, into sinks that held the same bytes, leave the same
/// bytes in both sinks.
pub proof fn lemma_digest_is_repeatable<T: Digestible>(
    value: T,
    order: ByteOrder,
    before1: Seq<u8>,
    after1: Seq<u8>,
    before2: Seq<u8>,
    after2: Seq<u8>,
)
    requires
        value.deterministic(),
        before1 == before2,
        after1 == before1 + value.encoding(order),
        after2 == before2 + value.encoding(order),
    ensures
        after1 == after2,
{
}

/// A weak reference whose target is gone has nothing to give: it encodes
/// as the absent value does, to no bytes, whatever the type of the
/// target.
pub proof fn lemma_absent_encodes_to_nothing<T: Digestible>(order: ByteOrder)
    ensures
        Option::<T>::None.deterministic(),
        Option::<T>::None.encoding(order) == Seq::<u8>::empty(),
        Option::<std::rc::Rc<T>>::None.encoding(order) == Option::<T>::None.encoding(order),
        Option::<std::sync::Arc<T>>::None.encoding(order) == Option::<T>::None.encoding(order),
{
}

} // verus!
