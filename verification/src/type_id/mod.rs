//! Numeric headers that tell one type, and one variant of an enum, from
//! another in a byte stream.
pub mod std_type_id_hasher;

use crate::aggregate::separator;
use crate::byte_order::ByteOrder;
use crate::digester::Digester;
use crate::digester_writer::DigestWriter;
use crate::digestible::Digestible;
use crate::type_id::std_type_id_hasher::sip_hash_128;
use crate::type_id::std_type_id_hasher::TypeIDHasher;
use vstd::prelude::*;

verus! {

/// The header of a struct: the identifier of its type.
#[derive(Debug, Copy, Clone, PartialEq, Eq, PartialOrd, Ord)]
pub struct StructHeader(u128);

impl StructHeader {
    /// The identifier of the type.
    pub closed spec fn id(self) -> u128 {
        self.0
    }

    pub fn new(id: u128) -> (header: StructHeader)
        ensures
            header.id() == id,
    {
        StructHeader(id)
    }
}

impl Digestible for StructHeader {
    open spec fn deterministic(&self) -> bool {
        true
    }

    open spec fn encoding(&self, order: ByteOrder) -> Seq<u8> {
        order.bytes(self.id() as nat, 16)
    }

    fn digest<W: DigestWriter>(&self, order: ByteOrder, writer: &mut W) {
        self.0.digest(order, writer);
    }
}

/// The header of a value of an enum: the identifier of its type and the
/// identifier of its variant.
#[derive(Debug, Copy, Clone, PartialEq, Eq, PartialOrd, Ord)]
pub struct EnumHeader(u128, u128);

impl EnumHeader {
    /// The identifier of the type.
    pub closed spec fn id(self) -> u128 {
        self.0
    }

    /// The identifier of the variant.
    pub closed spec fn discriminate(self) -> u128 {
        self.1
    }

    pub fn new(id: u128, discriminate: u128) -> (header: EnumHeader)
        ensures
            header.id() == id,
            header.discriminate() == discriminate,
    {
        EnumHeader(id, discriminate)
    }
}

impl Digestible for EnumHeader {
    open spec fn deterministic(&self) -> bool {
        true
    }

    open spec fn encoding(&self, order: ByteOrder) -> Seq<u8> {
        order.bytes(self.id() as nat, 16) + separator() + order.bytes(
            self.discriminate() as nat,
            16,
        )
    }

    fn digest<W: DigestWriter>(&self, order: ByteOrder, writer: &mut W) {
        self.0.digest(order, writer);
        let colons = [0x3au8, 0x3au8];
        writer.write(colons.as_slice());
        self.1.digest(order, writer);
        proof {
            assert(colons@ =~= separator());
            assert(writer.written() =~= (*old(writer)).written() + self.encoding(order));
        }
    }
}

impl DigestWriter for TypeIDHasher {
    open spec fn written(&self) -> Seq<u8> {
        self.absorbed()
    }

    fn write(&mut self, data: &[u8]) {
        *self = (*self).write(data);
    }
}

impl Digester for TypeIDHasher {
    type Target = u128;

    open spec fn digests_to(self, stream: Seq<u8>, target: u128) -> bool {
        target == sip_hash_128(self.keys().0, self.keys().1, self.absorbed() + stream)
    }

    fn digest<D: Digestible>(self, order: ByteOrder, data: &D) -> (target: u128) {
        let mut encoded: Vec<u8> = Vec::new();
        data.digest(order, &mut encoded);
        proof {
            assert(Seq::<u8>::empty() + data.encoding(order) =~= data.encoding(order));
        }
        self.write(encoded.as_slice()).finish()
    }
}

} // verus!
