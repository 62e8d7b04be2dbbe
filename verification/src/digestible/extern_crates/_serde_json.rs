//! JSON values.
//!
//! A JSON value is held here as plain data: what a `serde_json::Value`
//! holds, entry for entry and in the order in which it is walked.
use crate::byte_order::ByteOrder;
use crate::digester_writer::str_bytes;
use crate::digester_writer::DigestWriter;
use crate::digestible::Digestible;
use vstd::prelude::*;

verus! {

/// A JSON number: a signed integer where it is one, else an unsigned
/// integer where it is one, else a floating-point number, held as the 64
/// bits of its representation.
#[derive(Debug, Clone, Copy, PartialEq, Eq, Structural)]
pub enum JsonNumber {
    Signed(i64),
    Unsigned(u64),
    FloatBits(u64),
}

impl Digestible for JsonNumber {
    open spec fn deterministic(&self) -> bool {
        true
    }

    /// The eight bytes of the number in the given order: an integer in
    /// two's complement, a floating-point number as its bits.
    open spec fn encoding(&self, order: ByteOrder) -> Seq<u8> {
        match self {
            JsonNumber::Signed(n) => order.signed_bytes(*n as int, 8),
            JsonNumber::Unsigned(n) => order.bytes(*n as nat, 8),
            JsonNumber::FloatBits(bits) => order.bytes(*bits as nat, 8),
        }
    }

    fn digest<W: DigestWriter>(&self, order: ByteOrder, writer: &mut W) {
        match self {
            JsonNumber::Signed(n) => writer.write_i64(order, *n),
            JsonNumber::Unsigned(n) => writer.write_u64(order, *n),
            JsonNumber::FloatBits(bits) => writer.write_u64(order, *bits),
        }
    }
}

/// A JSON value.
#[derive(Debug)]
pub enum JsonValue {
    Null,
    Bool(bool),
    Number(JsonNumber),
    Text(String),
    Array(Vec<JsonValue>),
    /// The entries of an object, in the order in which the object gives
    /// them.
    Object(Vec<(String, JsonValue)>),
}

/// The encodings of the JSON values `items`, one after the other.
pub open spec fn json_items_encoding(items: Seq<JsonValue>, order: ByteOrder) -> Seq<u8>
    decreases items,
{
    if items.len() == 0 {
        Seq::empty()
    } else {
        json_items_encoding(items.drop_last(), order) + json_encoding(items.last(), order)
    }
}

/// The encodings of the entries `entries` of a JSON object, one after the
/// other: the bytes of the key, then the encoding of the value.
pub open spec fn json_entries_encoding(entries: Seq<(String, JsonValue)>, order: ByteOrder) -> Seq<
    u8,
>
    decreases entries,
{
    if entries.len() == 0 {
        Seq::empty()
    } else {
        json_entries_encoding(entries.drop_last(), order) + str_bytes(entries.last().0@)
            + json_encoding(entries.last().1, order)
    }
}

/// The encoding of a JSON value: one zero byte for `null`, one byte for a
/// boolean, eight bytes for a number, the bytes of a text, and the
/// encodings of what an array or an object holds.
pub open spec fn json_encoding(value: JsonValue, order: ByteOrder) -> Seq<u8>
    decreases value,
{
    match value {
        JsonValue::Null => seq![0u8],
        JsonValue::Bool(b) => b.encoding(order),
        JsonValue::Number(n) => n.encoding(order),
        JsonValue::Text(s) => str_bytes(s@),
        JsonValue::Array(items) => json_items_encoding(items@, order),
        JsonValue::Object(entries) => json_entries_encoding(entries@, order),
    }
}

/// Appends the encoding of the JSON value `value`.
pub fn digest_json<W: DigestWriter>(value: &JsonValue, order: ByteOrder, writer: &mut W)
    ensures
        (*final(writer)).written() == (*old(writer)).written() + json_encoding(*value, order),
    decreases value,
{
    match value {
        JsonValue::Null => {
            writer.write_u8(0);
            proof {
                assert((*old(writer)).written().push(0u8) =~= (*old(writer)).written() + seq![0u8]);
            }
        },
        JsonValue::Bool(b) => {
            b.digest(order, writer);
        },
        JsonValue::Number(n) => {
            n.digest(order, writer);
        },
        JsonValue::Text(s) => {
            s.digest(order, writer);
        },
        JsonValue::Array(items) => {
            let mut i: usize = 0;
            proof {
                assert(items@.take(0).len() == 0);
                assert(writer.written() =~= (*old(writer)).written() + Seq::<u8>::empty());
            }
            while i < items.len()
                invariant
                    i <= items.len(),
                    *value == JsonValue::Array(*items),
                    writer.written() == (*old(writer)).written() + json_items_encoding(
                        items@.take(i as int),
                        order,
                    ),
                decreases items.len() - i,
            {
                proof {
                    assert(items@.take(i + 1).drop_last() =~= items@.take(i as int));
                    assert((*value)->Array_0 == *items);
                    assert(decreases_to!(*value => (*value)->Array_0));
                    assert(decreases_to!(*items => items[i as int]));
                }
                digest_json(&items[i], order, writer);
                proof {
                    assert(writer.written() =~= (*old(writer)).written() + json_items_encoding(
                        items@.take(i + 1),
                        order,
                    ));
                }
                i += 1;
            }
            proof {
                assert(items@.take(i as int) =~= items@);
            }
        },
        JsonValue::Object(entries) => {
            let mut i: usize = 0;
            proof {
                assert(entries@.take(0).len() == 0);
                assert(writer.written() =~= (*old(writer)).written() + Seq::<u8>::empty());
            }
            while i < entries.len()
                invariant
                    i <= entries.len(),
                    *value == JsonValue::Object(*entries),
                    writer.written() == (*old(writer)).written() + json_entries_encoding(
                        entries@.take(i as int),
                        order,
                    ),
                decreases entries.len() - i,
            {
                proof {
                    assert(entries@.take(i + 1).drop_last() =~= entries@.take(i as int));
                }
                proof {
                    assert((*value)->Object_0 == *entries);
                    assert(decreases_to!(*value => (*value)->Object_0));
                    assert(decreases_to!(*entries => entries[i as int]));
                    assert(decreases_to!(entries[i as int] => entries[i as int].1));
                }
                entries[i].0.digest(order, writer);
                digest_json(&entries[i].1, order, writer);
                proof {
                    assert(writer.written() =~= (*old(writer)).written() + json_entries_encoding(
                        entries@.take(i + 1),
                        order,
                    ));
                }
                i += 1;
            }
            proof {
                assert(entries@.take(i as int) =~= entries@);
            }
        },
    }
}

impl Digestible for JsonValue {
    open spec fn deterministic(&self) -> bool {
        true
    }

    open spec fn encoding(&self, order: ByteOrder) -> Seq<u8> {
        json_encoding(*self, order)
    }

    fn digest<W: DigestWriter>(&self, order: ByteOrder, writer: &mut W) {
        digest_json(self, order, writer)
    }
}

} // verus!
