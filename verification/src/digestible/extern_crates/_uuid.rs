//! The identifiers of the crate `uuid`: written as their sixteen bytes.
use crate::byte_order::ByteOrder;
use crate::digester_writer::DigestWriter;
use crate::digestible::Digestible;
use uuid::Uuid;
use vstd::prelude::*;

verus! {

/// The type `uuid::Uuid`, an identifier of sixteen bytes: nothing of what it holds is seen here.
#[verifier::external_type_specification]
#[verifier::external_body]
pub struct ExUuid(uuid::Uuid);

/// The bytes that a `Uuid` holds, the first byte first.
pub uninterp spec fn uuid_bytes(uuid: Uuid) -> Seq<u8>;

/// `Uuid::as_ref` of the crate `uuid`: the sixteen bytes of the
/// identifier as a slice.
#[verifier::external_body]
fn uuid_as_slice(uuid: &Uuid) -> (bytes: &[u8])
    ensures
        bytes@ == uuid_bytes(*uuid),
        bytes@.len() == 16,
{
    uuid.as_ref()
}

impl Digestible for Uuid {
    open spec fn deterministic(&self) -> bool {
        true
    }

    open spec fn encoding(&self, order: ByteOrder) -> Seq<u8> {
        uuid_bytes(*self)
    }

    fn digest<W: DigestWriter>(&self, order: ByteOrder, writer: &mut W)
        ensures
            (*final(writer)).written().len() == (*old(writer)).written().len() + 16,
    {
        writer.write(uuid_as_slice(self))
    }
}

} // verus!
