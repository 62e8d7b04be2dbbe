//! Ordered walks: the one order in which an ordered set or an ordered map
//! gives what it holds.
use crate::byte_order::ByteOrder;
use crate::digester_writer::DigestWriter;
use crate::digestible::all_deterministic;
use crate::digestible::core_types::digest_iter;
use crate::digestible::core_types::first_items;
use crate::digestible::encoding_of_all;
use crate::digestible::Digestible;
use core::cmp::Ordering;
use std::collections::BTreeMap;
use std::collections::BTreeSet;
use vstd::laws_cmp::obeys_cmp;
use vstd::prelude::*;
use vstd::std_specs::btree::increasing_seq;
use vstd::std_specs::btree::key_obeys_cmp_spec;
use vstd::std_specs::iter::IteratorSpec;
use vstd::std_specs::cmp::OrdSpec;
use vstd::std_specs::cmp::PartialOrdSpec;

verus! {

/// Whether `x` comes before `y` in the order of their type.
pub open spec fn less<T: Ord>(x: T, y: T) -> bool {
    x.cmp_spec(&y) == Ordering::Less
}

/// Whether every item of `items` is less than every item behind it.
pub open spec fn strictly_increasing<T: Ord>(items: Seq<T>) -> bool {
    forall|i: int, j: int| 0 <= i < j < items.len() ==> #[trigger] less(items[i], items[j])
}

/// What the ordered collections of the standard library promise of their
/// walks, spelled out.
pub proof fn lemma_increasing_seq_meaning<T: Ord>(items: Seq<T>)
    requires
        obeys_cmp::<T>(),
        increasing_seq(items),
    ensures
        strictly_increasing(items),
{
    vstd::std_specs::btree::axiom_increasing_seq_meaning(items);
    assert forall|i: int, j: int| 0 <= i < j < items.len() implies #[trigger] less(
        items[i],
        items[j],
    ) by {
        assert(items[i].cmp_spec(&items[j]) == Ordering::Less);
    }
}

/// No item is less than itself, and no two items are less than each
/// other.
pub proof fn lemma_less_is_one_way<T: Ord>(x: T, y: T)
    requires
        obeys_cmp::<T>(),
        less(x, y),
    ensures
        !less(y, x),
        x != y,
{
    reveal(vstd::laws_cmp::obeys_cmp_ord);
    reveal(vstd::laws_cmp::obeys_partial_cmp_spec_properties);
    assert(x.partial_cmp_spec(&y) == Some(x.cmp_spec(&y)));
    assert(y.partial_cmp_spec(&x) == Some(y.cmp_spec(&x)));
    assert(y.partial_cmp_spec(&x) == Some(Ordering::Greater));
}

/// An increasing list holds nothing twice.
pub proof fn lemma_increasing_has_no_duplicates<T: Ord>(items: Seq<T>)
    requires
        obeys_cmp::<T>(),
        strictly_increasing(items),
    ensures
        items.no_duplicates(),
{
    assert forall|i: int, j: int| 0 <= i < items.len() && 0 <= j < items.len() && i != j implies
        items[i] != items[j] by {
        if i < j {
            lemma_less_is_one_way(items[i], items[j]);
        } else {
            lemma_less_is_one_way(items[j], items[i]);
        }
    }
}

/// There is one way to put a set in order: two increasing lists of the
/// same items are the same list.
pub proof fn lemma_increasing_is_unique<T: Ord>(a: Seq<T>, b: Seq<T>)
    requires
        obeys_cmp::<T>(),
        strictly_increasing(a),
        strictly_increasing(b),
        a.to_set() == b.to_set(),
    ensures
        a == b,
    decreases a.len(),
{
    lemma_increasing_has_no_duplicates(a);
    lemma_increasing_has_no_duplicates(b);
    a.unique_seq_to_set();
    b.unique_seq_to_set();
    if a.len() == 0 {
        assert(a =~= b);
    } else {
        let n = a.len() - 1;
        let x = a[n];
        let y = b[n];
        assert(a.to_set().contains(x)) by {
            assert(a.contains(x));
        }
        assert(b.to_set().contains(y)) by {
            assert(b.contains(y));
        }
        assert(b.contains(x));
        assert(a.contains(y));
        let j = choose|j: int| 0 <= j < b.len() && b[j] == x;
        let i = choose|i: int| 0 <= i < a.len() && a[i] == y;
        if x != y {
            assert(j < n);
            assert(i < n);
            assert(less(b[j], b[n]));
            assert(less(a[i], a[n]));
            lemma_less_is_one_way(x, y);
        }
        let front_a = a.drop_last();
        let front_b = b.drop_last();
        assert forall|v: T| front_a.to_set().contains(v) <==> front_b.to_set().contains(v) by {
            if front_a.contains(v) {
                let k = choose|k: int| 0 <= k < front_a.len() && front_a[k] == v;
                assert(a[k] == v);
                assert(a.contains(v));
                assert(b.to_set().contains(v));
                assert(b.contains(v));
                let m = choose|m: int| 0 <= m < b.len() && b[m] == v;
                assert(m != n);
                assert(front_b[m] == v);
                assert(front_b.contains(v));
            }
            if front_b.contains(v) {
                let k = choose|k: int| 0 <= k < front_b.len() && front_b[k] == v;
                assert(b[k] == v);
                assert(b.contains(v));
                assert(a.to_set().contains(v));
                assert(a.contains(v));
                let m = choose|m: int| 0 <= m < a.len() && a[m] == v;
                assert(m != n);
                assert(front_a[m] == v);
                assert(front_a.contains(v));
            }
        }
        assert(front_a.to_set() =~= front_b.to_set());
        assert(strictly_increasing(front_a)) by {
            assert forall|p: int, q: int| 0 <= p < q < front_a.len() implies #[trigger] less(
                front_a[p],
                front_a[q],
            ) by {
                assert(less(a[p], a[q]));
            }
        }
        assert(strictly_increasing(front_b)) by {
            assert forall|p: int, q: int| 0 <= p < q < front_b.len() implies #[trigger] less(
                front_b[p],
                front_b[q],
            ) by {
                assert(less(b[p], b[q]));
            }
        }
        lemma_increasing_is_unique(front_a, front_b);
        assert(a =~= front_a.push(x));
        assert(b =~= front_b.push(y));
    }
}

/// The items of `set` in increasing order.
pub open spec fn in_order<T: Ord>(set: Set<T>) -> Seq<T> {
    choose|items: Seq<T>| strictly_increasing(items) && items.to_set() == set
}

/// The entries of `map` in the increasing order of their keys.
pub open spec fn entries_in_order<K: Ord, V>(map: Map<K, V>) -> Seq<(K, V)> {
    in_order(map.dom()).map_values(|key: K| (key, map[key]))
}

/// A list of references encodes as the list of what they refer to.
pub proof fn lemma_encoding_of_references<T: Digestible>(items: Seq<&T>, order: ByteOrder)
    ensures
        encoding_of_all(items, order) == encoding_of_all(items.unref(), order),
        all_deterministic(items) <==> all_deterministic(items.unref()),
    decreases items.len(),
{
    if items.len() > 0 {
        lemma_encoding_of_references(items.drop_last(), order);
        assert(items.drop_last().unref() =~= items.unref().drop_last());
    }
    if all_deterministic(items) {
        assert forall|i: int| 0 <= i < items.unref().len() implies (
        #[trigger] items.unref()[i]).deterministic() by {
            assert(items[i].deterministic());
        }
    }
    if all_deterministic(items.unref()) {
        assert forall|i: int| 0 <= i < items.len() implies (#[trigger] items[i]).deterministic() by {
            assert(items.unref()[i].deterministic());
        }
    }
}

/// A list of pairs of references encodes as the list of the pairs of what
/// they refer to.
pub proof fn lemma_encoding_of_reference_pairs<K: Digestible, V: Digestible>(
    items: Seq<(&K, &V)>,
    order: ByteOrder,
)
    ensures
        encoding_of_all(items, order) == encoding_of_all(items.unref(), order),
        all_deterministic(items) <==> all_deterministic(items.unref()),
    decreases items.len(),
{
    if items.len() > 0 {
        lemma_encoding_of_reference_pairs(items.drop_last(), order);
        assert(items.drop_last().unref() =~= items.unref().drop_last());
    }
    if all_deterministic(items) {
        assert forall|i: int| 0 <= i < items.unref().len() implies (
        #[trigger] items.unref()[i]).deterministic() by {
            assert(items[i].deterministic());
        }
    }
    if all_deterministic(items.unref()) {
        assert forall|i: int| 0 <= i < items.len() implies (#[trigger] items[i]).deterministic() by {
            assert(items.unref()[i].deterministic());
        }
    }
}

/// What an ordered set gives when it is walked is its items in
/// increasing order.
pub proof fn lemma_set_walk_is_in_order<K: Ord>(walk: Seq<&K>, set: Set<K>)
    requires
        obeys_cmp::<K>(),
        increasing_seq(walk),
        walk.unref().to_set() == set,
    ensures
        walk.unref() == in_order(set),
{
    broadcast use vstd::laws_cmp::lemma_ref_obeys_cmp_spec;
    assert(obeys_cmp::<&K>());
    lemma_increasing_seq_meaning::<&K>(walk);
    let items = walk.unref();
    assert(strictly_increasing(items)) by {
        assert forall|i: int, j: int| 0 <= i < j < items.len() implies #[trigger] less(
            items[i],
            items[j],
        ) by {
            assert(less::<&K>(walk[i], walk[j]));
        }
    }
    lemma_increasing_is_unique(items, in_order(set));
}

/// What an ordered map gives when it is walked is its entries in the
/// increasing order of their keys.
pub proof fn lemma_map_walk_is_in_order<K: Ord, V>(walk: Seq<(&K, &V)>, map: Map<K, V>)
    requires
        obeys_cmp::<K>(),
        increasing_seq(walk.map_values(|entry: (&K, &V)| *entry.0)),
        forall|i: int|
            0 <= i < walk.len() ==> map.contains_key(*(#[trigger] walk[i]).0) && map[*walk[i].0]
                == *walk[i].1,
        forall|key: K| #[trigger] map.contains_key(key) ==> walk.contains((&key, &map[key])),
    ensures
        walk.unref() == entries_in_order(map),
{
    let keys = walk.map_values(|entry: (&K, &V)| *entry.0);
    lemma_increasing_seq_meaning(keys);
    assert forall|key: K| keys.to_set().contains(key) <==> map.dom().contains(key) by {
        if keys.contains(key) {
            let i = choose|i: int| 0 <= i < keys.len() && keys[i] == key;
            assert(map.contains_key(*walk[i].0));
        }
        if map.contains_key(key) {
            let entry = (&key, &map[key]);
            assert(walk.contains(entry));
            let i = choose|i: int| 0 <= i < walk.len() && walk[i] == entry;
            assert(keys[i] == key);
            assert(keys.contains(key));
        }
    }
    assert(keys.to_set() =~= map.dom());
    lemma_increasing_is_unique(keys, in_order(map.dom()));
    assert(walk.unref() =~= entries_in_order(map));
}

impl<K: Digestible + Ord> Digestible for BTreeSet<K> {
    /// Where the order of the items is a true order, and every item is
    /// deterministic.
    open spec fn deterministic(&self) -> bool {
        obeys_cmp::<K>() && all_deterministic(in_order(self@))
    }

    /// The encodings of the items, in increasing order.
    open spec fn encoding(&self, order: ByteOrder) -> Seq<u8> {
        encoding_of_all(in_order(self@), order)
    }

    fn digest<W: DigestWriter>(&self, order: ByteOrder, writer: &mut W) {
        let iter = self.iter();
        let limit = self.len();
        let ghost walk = iter.remaining();
        proof {
            broadcast use vstd::std_specs::btree::axiom_key_obeys_cmp_spec_meaning;
            if obeys_cmp::<K>() {
                assert(key_obeys_cmp_spec::<K>());
                vstd::std_specs::btree::axiom_spec_btree_keys_iter(self);
                vstd::std_specs::btree::axiom_spec_btree_set_len(self);
                lemma_set_walk_is_in_order(walk, self@);
                lemma_encoding_of_references(walk, order);
                assert(first_items(walk, limit) == walk);
            }
        }
        digest_iter(iter, limit, order, writer);
    }
}

impl<K: Digestible + Ord, V: Digestible> Digestible for BTreeMap<K, V> {
    /// Where the order of the keys is a true order, and every key and
    /// every value is deterministic.
    open spec fn deterministic(&self) -> bool {
        obeys_cmp::<K>() && all_deterministic(entries_in_order(self@))
    }

    /// The encodings of the entries, key before value, in the increasing
    /// order of the keys.
    open spec fn encoding(&self, order: ByteOrder) -> Seq<u8> {
        encoding_of_all(entries_in_order(self@), order)
    }

    fn digest<W: DigestWriter>(&self, order: ByteOrder, writer: &mut W) {
        let iter = self.iter();
        let limit = self.len();
        let ghost walk = iter.remaining();
        proof {
            broadcast use vstd::std_specs::btree::axiom_key_obeys_cmp_spec_meaning;
            if obeys_cmp::<K>() {
                assert(key_obeys_cmp_spec::<K>());
                vstd::std_specs::btree::axiom_spec_btree_map_iter(self);
                vstd::std_specs::btree::axiom_spec_btree_map_len(self);
                lemma_map_walk_is_in_order(walk, self@);
                lemma_encoding_of_reference_pairs(walk, order);
                assert(first_items(walk, limit) == walk);
            }
        }
        digest_iter(iter, limit, order, writer);
    }
}

/// The encoding of an ordered set goes by what the set holds, not by how
/// it came to hold it: two sets of the same items have the same
/// encoding.
pub proof fn lemma_ordered_set_encoding_by_content<K: Digestible + Ord>(
    a: BTreeSet<K>,
    b: BTreeSet<K>,
    order: ByteOrder,
)
    requires
        a@ == b@,
    ensures
        a.deterministic() == b.deterministic(),
        a.encoding(order) == b.encoding(order),
{
}

/// The encoding of an ordered map goes by what the map holds, not by the
/// order in which the entries were put in: two maps of the same entries
/// have the same encoding.
pub proof fn lemma_ordered_map_encoding_by_content<K: Digestible + Ord, V: Digestible>(
    a: BTreeMap<K, V>,
    b: BTreeMap<K, V>,
    order: ByteOrder,
)
    requires
        a@ == b@,
    ensures
        a.deterministic() == b.deterministic(),
        a.encoding(order) == b.encoding(order),
{
}

} // verus!
