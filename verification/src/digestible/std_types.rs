//! Hash maps and hash sets.
//!
//! They are walked in an order of their own making, which another map
//! with the same entries need not share. So they are not deterministic:
//! where one encoding is to stand for one content, an ordered map or set
//! is the collection to use.
use crate::byte_order::ByteOrder;
use crate::digester_writer::DigestWriter;
use crate::digestible::all_deterministic;
use crate::digestible::core_types::digest_iter;
use crate::digestible::core_types::first_items;
use crate::digestible::encoding_of_all;
use crate::digestible::Digestible;
use crate::hash_digester::hash_into;
use std::collections::HashMap;
use std::collections::HashSet;
use vstd::prelude::*;
use vstd::std_specs::iter::IteratorSpec;
use vstd::std_specs::hash::builds_valid_hashers;
use vstd::std_specs::hash::obeys_key_model;

verus! {

/// Whether `after` is `before` with the encodings of `items` behind it,
/// as far as the items are deterministic.
pub open spec fn items_written<T: Digestible>(
    items: Seq<T>,
    order: ByteOrder,
    before: Seq<u8>,
    after: Seq<u8>,
) -> bool {
    all_deterministic(items) ==> after == before + encoding_of_all(items, order)
}

impl<K: Digestible, V: Digestible, S> Digestible for HashMap<K, V, S> {
    open spec fn deterministic(&self) -> bool {
        false
    }

    open spec fn encoding(&self, order: ByteOrder) -> Seq<u8> {
        Seq::empty()
    }

    /// Appends the encoding of every entry, key before value, in the order
    /// in which the map is walked: a list of the entries of the map in
    /// which none comes twice, where keys and hasher behave as they
    /// should.
    fn digest<W: DigestWriter>(&self, order: ByteOrder, writer: &mut W)
        ensures
            exists|entries: Seq<(&K, &V)>| #[trigger]
                items_written(
                    entries,
                    order,
                    (*old(writer)).written(),
                    (*final(writer)).written(),
                ) && (obeys_key_model::<K>() && builds_valid_hashers::<S>() ==> entries.no_duplicates()
                    && entries.unref().to_set() == self@.kv_pairs()),
    {
        let iter = self.iter();
        proof {
            vstd::std_specs::hash::axiom_spec_hash_map_iter(self);
        }
        let limit = self.len();
        let ghost entries = first_items(iter.remaining(), limit);
        digest_iter(iter, limit, order, writer);
        proof {
            assert(items_written(entries, order, (*old(writer)).written(), writer.written()));
        }
    }
}

impl<V: Digestible, S> Digestible for HashSet<V, S> {
    open spec fn deterministic(&self) -> bool {
        false
    }

    open spec fn encoding(&self, order: ByteOrder) -> Seq<u8> {
        Seq::empty()
    }

    /// Appends the encoding of every element, in the order in which the
    /// set is walked: a list of the elements of the set in which none
    /// comes twice, where elements and hasher behave as they should.
    fn digest<W: DigestWriter>(&self, order: ByteOrder, writer: &mut W)
        ensures
            exists|elements: Seq<&V>| #[trigger]
                items_written(
                    elements,
                    order,
                    (*old(writer)).written(),
                    (*final(writer)).written(),
                ) && (obeys_key_model::<V>() && builds_valid_hashers::<S>() ==> elements.no_duplicates()
                    && elements.unref().to_set() == self@),
    {
        let iter = self.iter();
        proof {
            vstd::std_specs::hash::axiom_spec_hash_keys_iter(self);
        }
        let limit = self.len();
        let ghost elements = first_items(iter.remaining(), limit);
        digest_iter(iter, limit, order, writer);
        proof {
            assert(items_written(elements, order, (*old(writer)).written(), writer.written()));
        }
    }
}

/// The type `std::path::PathBuf`, a path: nothing of what it holds is seen here.
#[verifier::external_type_specification]
#[verifier::external_body]
pub struct ExPathBuf(std::path::PathBuf);

/// A time span is written as it hashes itself. Which bytes that gives is
/// the matter of the standard library, so it is not deterministic here.
impl Digestible for core::time::Duration {
    open spec fn deterministic(&self) -> bool {
        false
    }

    open spec fn encoding(&self, order: ByteOrder) -> Seq<u8> {
        Seq::empty()
    }

    fn digest<W: DigestWriter>(&self, order: ByteOrder, writer: &mut W) {
        hash_into(self, writer);
    }
}

/// A path is written as it hashes itself. Which bytes that gives is the
/// matter of the standard library, so it is not deterministic here.
impl Digestible for std::path::PathBuf {
    open spec fn deterministic(&self) -> bool {
        false
    }

    open spec fn encoding(&self, order: ByteOrder) -> Seq<u8> {
        Seq::empty()
    }

    fn digest<W: DigestWriter>(&self, order: ByteOrder, writer: &mut W) {
        hash_into(self, writer);
    }
}

} // verus!
