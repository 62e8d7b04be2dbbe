//! The encodings of structs and of values of enums: an optional header
//! and then the fields, in the order in which they are declared.
//!
//! The header of a struct is the name of its type. The header of a value
//! of an enum is the name of its type, the separator `::`, and the name of
//! the variant; without the name of the type it is the name of the
//! variant alone.
use crate::byte_order::ByteOrder;
use crate::derive::container_attrs::TypeHeader;
use crate::digester_writer::str_bytes;
use crate::digester_writer::DigestWriter;
use crate::digestible::Digestible;
use crate::hash_digester::hash_into;
use core::hash::Hash;
use vstd::prelude::*;

verus! {

/// The two bytes `::` that stand between the name of an enum and the name
/// of its variant.
pub open spec fn separator() -> Seq<u8> {
    seq![0x3au8, 0x3au8]
}

/// The bytes of a struct: the name of its type, if it has a header, and
/// the bytes of its fields.
pub open spec fn struct_stream(full_name: Option<Seq<char>>, fields: Seq<u8>) -> Seq<u8> {
    match full_name {
        Some(name) => str_bytes(name) + fields,
        None => fields,
    }
}

/// The bytes of a value of an enum: the name of its type and the
/// separator, if it has a header, the name of its variant, and the bytes
/// of the fields of the variant.
pub open spec fn enum_stream(
    full_name: Option<Seq<char>>,
    variant_name: Seq<char>,
    fields: Seq<u8>,
) -> Seq<u8> {
    match full_name {
        Some(name) => str_bytes(name) + separator() + str_bytes(variant_name) + fields,
        None => str_bytes(variant_name) + fields,
    }
}

/// The name that a header puts in front of the fields, if any.
pub open spec fn header_name(header: TypeHeader, full_name: Seq<char>) -> Option<Seq<char>> {
    match header {
        TypeHeader::HashName => Some(full_name),
        _ => None,
    }
}

/// A field that is left out of the encoding: it contributes no byte.
pub struct Skip<T>(pub T);

impl<T> Digestible for Skip<T> {
    open spec fn deterministic(&self) -> bool {
        true
    }

    open spec fn encoding(&self, order: ByteOrder) -> Seq<u8> {
        Seq::empty()
    }

    fn digest<W: DigestWriter>(&self, order: ByteOrder, writer: &mut W) {
        proof {
            assert(writer.written() =~= (*old(writer)).written() + Seq::<u8>::empty());
        }
    }
}

/// A field that is written as it hashes itself. Which bytes that gives is
/// the field's own matter, so such a field is not deterministic.
pub struct Hashed<'a, T: Hash>(pub &'a T);

impl<'a, T: Hash> Digestible for Hashed<'a, T> {
    open spec fn deterministic(&self) -> bool {
        false
    }

    open spec fn encoding(&self, order: ByteOrder) -> Seq<u8> {
        Seq::empty()
    }

    fn digest<W: DigestWriter>(&self, order: ByteOrder, writer: &mut W) {
        hash_into(self.0, writer)
    }
}

/// A struct, as far as its encoding goes: the name of its type, if it is
/// to be written, and its fields. More than one field is a tuple of
/// fields.
pub struct StructValue<'a, F> {
    full_name: Option<&'a str>,
    fields: F,
}

impl<'a, F> StructValue<'a, F> {
    /// The name of the type, where it is written.
    pub closed spec fn full_name(self) -> Option<Seq<char>> {
        match self.full_name {
            Some(name) => Some(name@),
            None => None,
        }
    }

    /// The fields.
    pub closed spec fn fields(self) -> F {
        self.fields
    }

    /// A struct of the type with the full name `full_name` with the given
    /// fields, with the header that `header` asks for.
    pub fn new(header: TypeHeader, full_name: &'a str, fields: F) -> (value: Self)
        requires
            !(header is TypeId),
        ensures
            value.full_name() == header_name(header, full_name@),
            value.fields() == fields,
    {
        match header {
            TypeHeader::HashName => StructValue { full_name: Some(full_name), fields },
            _ => StructValue { full_name: None, fields },
        }
    }
}

impl<'a, F: Digestible> Digestible for StructValue<'a, F> {
    open spec fn deterministic(&self) -> bool {
        self.fields().deterministic()
    }

    open spec fn encoding(&self, order: ByteOrder) -> Seq<u8> {
        struct_stream(self.full_name(), self.fields().encoding(order))
    }

    fn digest<W: DigestWriter>(&self, order: ByteOrder, writer: &mut W) {
        if let Some(name) = self.full_name {
            writer.write_str(name);
        }
        self.fields.digest(order, writer);
        proof {
            if self.deterministic() {
                assert(writer.written() =~= (*old(writer)).written() + self.encoding(order));
            }
        }
    }
}

/// A value of an enum, as far as its encoding goes: the name of its type,
/// if it is to be written, the name of its variant, and the fields of the
/// variant. More than one field is a tuple of fields.
pub struct EnumValue<'a, F> {
    full_name: Option<&'a str>,
    variant_name: &'a str,
    fields: F,
}

impl<'a, F> EnumValue<'a, F> {
    /// The name of the type, where it is written.
    pub closed spec fn full_name(self) -> Option<Seq<char>> {
        match self.full_name {
            Some(name) => Some(name@),
            None => None,
        }
    }

    /// The name of the variant.
    pub closed spec fn variant_name(self) -> Seq<char> {
        self.variant_name@
    }

    /// The fields of the variant.
    pub closed spec fn fields(self) -> F {
        self.fields
    }

    /// A value of the variant `variant_name` of the enum with the full name
    /// `full_name`, with the given fields and with the header that
    /// `header` asks for.
    pub fn new(
        header: TypeHeader,
        full_name: &'a str,
        variant_name: &'a str,
        fields: F,
    ) -> (value: Self)
        requires
            !(header is TypeId),
        ensures
            value.full_name() == header_name(header, full_name@),
            value.variant_name() == variant_name@,
            value.fields() == fields,
    {
        match header {
            TypeHeader::HashName => EnumValue { full_name: Some(full_name), variant_name, fields },
            _ => EnumValue { full_name: None, variant_name, fields },
        }
    }
}

impl<'a, F: Digestible> Digestible for EnumValue<'a, F> {
    open spec fn deterministic(&self) -> bool {
        self.fields().deterministic()
    }

    open spec fn encoding(&self, order: ByteOrder) -> Seq<u8> {
        enum_stream(self.full_name(), self.variant_name(), self.fields().encoding(order))
    }

    fn digest<W: DigestWriter>(&self, order: ByteOrder, writer: &mut W) {
        if let Some(name) = self.full_name {
            writer.write_str(name);
            let colons = [0x3au8, 0x3au8];
            writer.write(colons.as_slice());
            proof {
                assert(colons@ =~= separator());
            }
        }
        writer.write_str(self.variant_name);
        self.fields.digest(order, writer);
        proof {
            if self.deterministic() {
                assert(writer.written() =~= (*old(writer)).written() + self.encoding(order));
            }
        }
    }
}

/// Two byte strings that start alike and are equal as wholes end alike.
pub proof fn lemma_same_front(front: Seq<u8>, a: Seq<u8>, b: Seq<u8>)
    requires
        front + a == front + b,
    ensures
        a == b,
{
    assert(a =~= (front + a).skip(front.len() as int));
    assert(b =~= (front + b).skip(front.len() as int));
}

/// Two byte strings that end alike and are equal as wholes start alike.
pub proof fn lemma_same_back(a: Seq<u8>, b: Seq<u8>, back: Seq<u8>)
    requires
        a + back == b + back,
    ensures
        a == b,
{
    assert((a + back).len() == (b + back).len());
    assert(a =~= (a + back).take(a.len() as int));
    assert(b =~= (b + back).take(b.len() as int));
}

/// Where two byte strings are equal and are cut at the same place, the
/// parts are equal.
pub proof fn lemma_same_cut(a1: Seq<u8>, b1: Seq<u8>, a2: Seq<u8>, b2: Seq<u8>)
    requires
        a1.len() == a2.len(),
        a1 + b1 == a2 + b2,
    ensures
        a1 == a2,
        b1 == b2,
{
    assert(a1 =~= (a1 + b1).take(a1.len() as int));
    assert(a2 =~= (a2 + b2).take(a2.len() as int));
    assert(b1 =~= (a1 + b1).skip(a1.len() as int));
    assert(b2 =~= (a2 + b2).skip(a2.len() as int));
}

/// The encodings of fields, one after the other.
pub open spec fn fields_stream(fields: Seq<Seq<u8>>) -> Seq<u8>
    decreases fields.len(),
{
    if fields.len() == 0 {
        Seq::empty()
    } else {
        fields_stream(fields.drop_last()) + fields.last()
    }
}

/// Fields of fixed shape can be told apart in the stream: where two lists
/// of field encodings agree in the length of every field and give the
/// same stream, every field has the same encoding in both.
pub proof fn lemma_fixed_shape_fields_injective(a: Seq<Seq<u8>>, b: Seq<Seq<u8>>)
    requires
        a.len() == b.len(),
        forall|i: int| 0 <= i < a.len() ==> (#[trigger] a[i]).len() == b[i].len(),
        fields_stream(a) == fields_stream(b),
    ensures
        a == b,
    decreases a.len(),
{
    if a.len() > 0 {
        lemma_fields_stream_len(a.drop_last(), b.drop_last());
        lemma_same_cut(
            fields_stream(a.drop_last()),
            a.last(),
            fields_stream(b.drop_last()),
            b.last(),
        );
        lemma_fixed_shape_fields_injective(a.drop_last(), b.drop_last());
        assert(a =~= a.drop_last().push(a.last()));
        assert(b =~= b.drop_last().push(b.last()));
    } else {
        assert(a =~= b);
    }
}

/// Lists of fields that agree in the length of every field give streams
/// of the same length.
pub proof fn lemma_fields_stream_len(a: Seq<Seq<u8>>, b: Seq<Seq<u8>>)
    requires
        a.len() == b.len(),
        forall|i: int| 0 <= i < a.len() ==> (#[trigger] a[i]).len() == b[i].len(),
    ensures
        fields_stream(a).len() == fields_stream(b).len(),
    decreases a.len(),
{
    if a.len() > 0 {
        lemma_fields_stream_len(a.drop_last(), b.drop_last());
    }
}

/// Structs of one type with different field bytes have different
/// encodings, with or without header.
pub proof fn lemma_struct_stream_injective(
    full_name: Option<Seq<char>>,
    fields1: Seq<u8>,
    fields2: Seq<u8>,
)
    requires
        struct_stream(full_name, fields1) == struct_stream(full_name, fields2),
    ensures
        fields1 == fields2,
{
    if let Some(name) = full_name {
        lemma_same_front(str_bytes(name), fields1, fields2);
    }
}

/// A struct of two fields where the first has a fixed width: equal
/// encodings of the struct mean equal encodings of each field.
pub proof fn lemma_struct_fields_injective<A: Digestible, B: Digestible>(
    x: StructValue<(A, B)>,
    y: StructValue<(A, B)>,
    order: ByteOrder,
)
    requires
        x.full_name() == y.full_name(),
        x.fields().0.encoding(order).len() == y.fields().0.encoding(order).len(),
        x.encoding(order) == y.encoding(order),
    ensures
        x.fields().0.encoding(order) == y.fields().0.encoding(order),
        x.fields().1.encoding(order) == y.fields().1.encoding(order),
{
    lemma_struct_stream_injective(
        x.full_name(),
        x.fields().encoding(order),
        y.fields().encoding(order),
    );
    lemma_same_cut(
        x.fields().0.encoding(order),
        x.fields().1.encoding(order),
        y.fields().0.encoding(order),
        y.fields().1.encoding(order),
    );
}

/// Whether the byte `:` occurs in `bytes`.
pub open spec fn has_colon(bytes: Seq<u8>) -> bool {
    exists|i: int| 0 <= i < bytes.len() && bytes[i] == 0x3au8
}

/// The header of a value of an enum with a header: the name of the type,
/// the separator, and the name of the variant, as bytes.
pub open spec fn enum_header(full_name: Seq<u8>, variant_name: Seq<u8>) -> Seq<u8> {
    full_name + separator() + variant_name
}

/// A header tells both names: two headers of the same bytes, whose
/// variant names hold no colon, have the same type name and the same
/// variant name.
pub proof fn lemma_enum_header_injective(
    full_name1: Seq<u8>,
    variant_name1: Seq<u8>,
    full_name2: Seq<u8>,
    variant_name2: Seq<u8>,
)
    requires
        !has_colon(variant_name1),
        !has_colon(variant_name2),
        enum_header(full_name1, variant_name1) == enum_header(full_name2, variant_name2),
    ensures
        full_name1 == full_name2,
        variant_name1 == variant_name2,
{
    let h1 = enum_header(full_name1, variant_name1);
    let h2 = enum_header(full_name2, variant_name2);
    let n1 = full_name1.len() as int;
    let n2 = full_name2.len() as int;
    assert(h1.len() == n1 + 2 + variant_name1.len());
    assert(h2.len() == n2 + 2 + variant_name2.len());
    if n1 < n2 {
        assert(h2[n2 + 1] == 0x3au8);
        assert(h1[n2 + 1] == variant_name1[n2 + 1 - n1 - 2]);
        assert(has_colon(variant_name1));
    } else if n2 < n1 {
        assert(h1[n1 + 1] == 0x3au8);
        assert(h2[n1 + 1] == variant_name2[n1 + 1 - n2 - 2]);
        assert(has_colon(variant_name2));
    } else {
        assert(h1 =~= full_name1 + (separator() + variant_name1));
        assert(h2 =~= full_name2 + (separator() + variant_name2));
        lemma_same_cut(
            full_name1,
            separator() + variant_name1,
            full_name2,
            separator() + variant_name2,
        );
        lemma_same_front(separator(), variant_name1, variant_name2);
    }
}

/// Values of two enums of different names have different encodings, where
/// both have a header, the fields of both take the same number of bytes,
/// and the variant names hold no colon.
pub proof fn lemma_enums_of_different_types_differ(
    full_name1: Seq<char>,
    variant_name1: Seq<char>,
    fields1: Seq<u8>,
    full_name2: Seq<char>,
    variant_name2: Seq<char>,
    fields2: Seq<u8>,
)
    requires
        full_name1 != full_name2,
        fields1.len() == fields2.len(),
        !has_colon(str_bytes(variant_name1)),
        !has_colon(str_bytes(variant_name2)),
    ensures
        enum_stream(Some(full_name1), variant_name1, fields1) != enum_stream(
            Some(full_name2),
            variant_name2,
            fields2,
        ),
{
    let s1 = enum_stream(Some(full_name1), variant_name1, fields1);
    let s2 = enum_stream(Some(full_name2), variant_name2, fields2);
    if s1 == s2 {
        let h1 = enum_header(str_bytes(full_name1), str_bytes(variant_name1));
        let h2 = enum_header(str_bytes(full_name2), str_bytes(variant_name2));
        assert(s1 =~= h1 + fields1);
        assert(s2 =~= h2 + fields2);
        assert(h1.len() == h2.len());
        lemma_same_cut(h1, fields1, h2, fields2);
        lemma_enum_header_injective(
            str_bytes(full_name1),
            str_bytes(variant_name1),
            str_bytes(full_name2),
            str_bytes(variant_name2),
        );
        lemma_text_of_bytes(full_name1, full_name2);
    }
}

/// Values of two variants of different names of one enum have different
/// encodings, where their fields have the same bytes, with or without the
/// name of the type in front.
pub proof fn lemma_variants_of_different_names_differ(
    full_name: Option<Seq<char>>,
    variant_name1: Seq<char>,
    variant_name2: Seq<char>,
    fields: Seq<u8>,
)
    requires
        variant_name1 != variant_name2,
    ensures
        enum_stream(full_name, variant_name1, fields) != enum_stream(
            full_name,
            variant_name2,
            fields,
        ),
{
    let s1 = enum_stream(full_name, variant_name1, fields);
    let s2 = enum_stream(full_name, variant_name2, fields);
    if s1 == s2 {
        let v1 = str_bytes(variant_name1);
        let v2 = str_bytes(variant_name2);
        match full_name {
            Some(name) => {
                let front = str_bytes(name) + separator();
                assert(s1 =~= front + (v1 + fields));
                assert(s2 =~= front + (v2 + fields));
                lemma_same_front(front, v1 + fields, v2 + fields);
            },
            None => {},
        }
        lemma_same_back(v1, v2, fields);
        lemma_text_of_bytes(variant_name1, variant_name2);
    }
}

/// Texts with the same bytes are the same text.
pub proof fn lemma_text_of_bytes(a: Seq<char>, b: Seq<char>)
    requires
        str_bytes(a) == str_bytes(b),
    ensures
        a == b,
{
    vstd::utf8::encode_utf8_decode_utf8(a);
    vstd::utf8::encode_utf8_decode_utf8(b);
}

} // verus!
