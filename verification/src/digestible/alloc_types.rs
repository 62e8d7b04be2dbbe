//! Encodings of the types that own their data on the heap.
use crate::byte_order::ByteOrder;
use crate::digester_writer::str_bytes;
use crate::digester_writer::DigestWriter;
use crate::digestible::all_deterministic;
use crate::digestible::core_types::digest_slice;
use crate::digestible::encoding_of_all;
use crate::digestible::lemma_encoding_of_all_push;
use crate::digestible::Digestible;
use std::collections::VecDeque;
use std::rc::Rc;
use std::sync::Arc;
use vstd::prelude::*;

verus! {

impl<T: Digestible> Digestible for Vec<T> {
    open spec fn deterministic(&self) -> bool {
        all_deterministic(self@)
    }

    open spec fn encoding(&self, order: ByteOrder) -> Seq<u8> {
        encoding_of_all(self@, order)
    }

    fn digest<W: DigestWriter>(&self, order: ByteOrder, writer: &mut W) {
        digest_slice(self.as_slice(), order, writer)
    }
}

impl Digestible for String {
    open spec fn deterministic(&self) -> bool {
        true
    }

    /// The UTF-8 bytes of the text, with no length and no terminator.
    open spec fn encoding(&self, order: ByteOrder) -> Seq<u8> {
        str_bytes(self@)
    }

    fn digest<W: DigestWriter>(&self, order: ByteOrder, writer: &mut W) {
        writer.write(self.as_str().as_bytes())
    }
}

impl<T: Digestible> Digestible for Box<T> {
    open spec fn deterministic(&self) -> bool {
        (**self).deterministic()
    }

    /// The encoding of the value pointed to: the pointer adds nothing.
    open spec fn encoding(&self, order: ByteOrder) -> Seq<u8> {
        (**self).encoding(order)
    }

    fn digest<W: DigestWriter>(&self, order: ByteOrder, writer: &mut W) {
        (**self).digest(order, writer)
    }
}

impl<T: Digestible> Digestible for Rc<T> {
    open spec fn deterministic(&self) -> bool {
        (**self).deterministic()
    }

    /// The encoding of the value pointed to: the pointer adds nothing.
    open spec fn encoding(&self, order: ByteOrder) -> Seq<u8> {
        (**self).encoding(order)
    }

    fn digest<W: DigestWriter>(&self, order: ByteOrder, writer: &mut W) {
        (**self).digest(order, writer)
    }
}

impl<T: Digestible> Digestible for Arc<T> {
    open spec fn deterministic(&self) -> bool {
        (**self).deterministic()
    }

    /// The encoding of the value pointed to: the pointer adds nothing.
    open spec fn encoding(&self, order: ByteOrder) -> Seq<u8> {
        (**self).encoding(order)
    }

    fn digest<W: DigestWriter>(&self, order: ByteOrder, writer: &mut W) {
        (**self).digest(order, writer)
    }
}

impl<V: Digestible> Digestible for VecDeque<V> {
    open spec fn deterministic(&self) -> bool {
        all_deterministic(self@)
    }

    open spec fn encoding(&self, order: ByteOrder) -> Seq<u8> {
        encoding_of_all(self@, order)
    }

    fn digest<W: DigestWriter>(&self, order: ByteOrder, writer: &mut W) {
        let mut i: usize = 0;
        while i < self.len()
            invariant
                i <= self@.len(),
                (*old(writer)).written().is_prefix_of(writer.written()),
                all_deterministic(self@) ==> writer.written() == (*old(writer)).written()
                    + encoding_of_all(self@.take(i as int), order),
            decreases self@.len() - i,
        {
            self[i].digest(order, writer);
            proof {
                assert(self@.take(i + 1) =~= self@.take(i as int).push(self@[i as int]));
                lemma_encoding_of_all_push(self@.take(i as int), self@[i as int], order);
            }
            i += 1;
        }
        proof {
            assert(self@.take(i as int) =~= self@);
        }
    }
}

} // verus!
