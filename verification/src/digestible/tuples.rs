//! Encodings of tuples: the encodings of the elements, one after the
//! other.
use crate::byte_order::ByteOrder;
use crate::digester_writer::DigestWriter;
use crate::digestible::Digestible;
use vstd::prelude::*;

verus! {

impl Digestible for () {
    open spec fn deterministic(&self) -> bool {
        true
    }

    open spec fn encoding(&self, order: ByteOrder) -> Seq<u8> {
        Seq::empty()
    }

    fn digest<W: DigestWriter>(&self, order: ByteOrder, writer: &mut W) {
        proof {
            assert(writer.written() =~= (*old(writer)).written() + Seq::<u8>::empty());
        }
    }
}

impl<A: Digestible, B: Digestible> Digestible for (A, B) {
    open spec fn deterministic(&self) -> bool {
        self.0.deterministic() && self.1.deterministic()
    }

    open spec fn encoding(&self, order: ByteOrder) -> Seq<u8> {
        self.0.encoding(order) + self.1.encoding(order)
    }

    fn digest<W: DigestWriter>(&self, order: ByteOrder, writer: &mut W) {
        self.0.digest(order, writer);
        self.1.digest(order, writer);
        proof {
            if self.deterministic() {
                assert(writer.written() =~= (*old(writer)).written() + self.encoding(order));
            }
        }
    }
}

impl<A: Digestible, B: Digestible, C: Digestible> Digestible for (A, B, C) {
    open spec fn deterministic(&self) -> bool {
        self.0.deterministic() && self.1.deterministic() && self.2.deterministic()
    }

    open spec fn encoding(&self, order: ByteOrder) -> Seq<u8> {
        self.0.encoding(order) + self.1.encoding(order) + self.2.encoding(order)
    }

    fn digest<W: DigestWriter>(&self, order: ByteOrder, writer: &mut W) {
        self.0.digest(order, writer);
        self.1.digest(order, writer);
        self.2.digest(order, writer);
        proof {
            if self.deterministic() {
                assert(writer.written() =~= (*old(writer)).written() + self.encoding(order));
            }
        }
    }
}

impl<A: Digestible, B: Digestible, C: Digestible, D: Digestible> Digestible for (A, B, C, D) {
    open spec fn deterministic(&self) -> bool {
        self.0.deterministic() && self.1.deterministic() && self.2.deterministic() && self.3.deterministic()
    }

    open spec fn encoding(&self, order: ByteOrder) -> Seq<u8> {
        self.0.encoding(order) + self.1.encoding(order) + self.2.encoding(order) + self.3.encoding(order)
    }

    fn digest<W: DigestWriter>(&self, order: ByteOrder, writer: &mut W) {
        self.0.digest(order, writer);
        self.1.digest(order, writer);
        self.2.digest(order, writer);
        self.3.digest(order, writer);
        proof {
            if self.deterministic() {
                assert(writer.written() =~= (*old(writer)).written() + self.encoding(order));
            }
        }
    }
}

impl<A: Digestible, B: Digestible, C: Digestible, D: Digestible, E: Digestible> Digestible for (A, B, C, D, E) {
    open spec fn deterministic(&self) -> bool {
        self.0.deterministic() && self.1.deterministic() && self.2.deterministic() && self.3.deterministic() && self.4.deterministic()
    }

    open spec fn encoding(&self, order: ByteOrder) -> Seq<u8> {
        self.0.encoding(order) + self.1.encoding(order) + self.2.encoding(order) + self.3.encoding(order) + self.4.encoding(order)
    }

    fn digest<W: DigestWriter>(&self, order: ByteOrder, writer: &mut W) {
        self.0.digest(order, writer);
        self.1.digest(order, writer);
        self.2.digest(order, writer);
        self.3.digest(order, writer);
        self.4.digest(order, writer);
        proof {
            if self.deterministic() {
                assert(writer.written() =~= (*old(writer)).written() + self.encoding(order));
            }
        }
    }
}

impl<A: Digestible, B: Digestible, C: Digestible, D: Digestible, E: Digestible, F: Digestible> Digestible for (A, B, C, D, E, F) {
    open spec fn deterministic(&self) -> bool {
        self.0.deterministic() && self.1.deterministic() && self.2.deterministic() && self.3.deterministic() && self.4.deterministic() && self.5.deterministic()
    }

    open spec fn encoding(&self, order: ByteOrder) -> Seq<u8> {
        self.0.encoding(order) + self.1.encoding(order) + self.2.encoding(order) + self.3.encoding(order) + self.4.encoding(order) + self.5.encoding(order)
    }

    fn digest<W: DigestWriter>(&self, order: ByteOrder, writer: &mut W) {
        self.0.digest(order, writer);
        self.1.digest(order, writer);
        self.2.digest(order, writer);
        self.3.digest(order, writer);
        self.4.digest(order, writer);
        self.5.digest(order, writer);
        proof {
            if self.deterministic() {
                assert(writer.written() =~= (*old(writer)).written() + self.encoding(order));
            }
        }
    }
}

} // verus!
