use digestible::derive::container_attrs::get_container_attrs;
use digestible::derive::container_attrs::ContainerAttrs;
use digestible::derive::container_attrs::TypeHeader;
use digestible::derive::digestible;
use digestible::derive::expand;
use digestible::derive::expand_enum::EnumType;
use digestible::derive::expand_enum::Variant;
use digestible::derive::fields::Field;
use digestible::derive::fields::FieldAttr;
use digestible::derive::input::AttrError;
use digestible::derive::input::AttrErrorKind;
use digestible::derive::input::AttrToken;
use digestible::derive::input::Attribute;
use digestible::derive::input::Data;
use digestible::derive::input::DeriveInput;
use digestible::derive::input::FieldDef;
use digestible::derive::input::FieldsShape;
use digestible::derive::input::GenericParam;
use digestible::derive::input::Generics;
use digestible::derive::input::ParamKind;
use digestible::derive::input::VariantDef;
use digestible::derive::utils::add_digestible_trait;
use digestible::derive::utils::byte_order_impl_path;
use digestible::derive::utils::byte_order_path;
use digestible::derive::utils::decimal_text;
use digestible::derive::utils::digest_with_path;
use digestible::derive::utils::digest_writer;
use digestible::derive::utils::digester_using_hasher;
use digestible::derive::utils::digestible_path;
use digestible::derive::utils::impl_generics;
use digestible::derive::utils::impl_hash;
use digestible::derive::utils::join;
use digestible::derive::utils::ty_generics;
use digestible::derive::DeriveError;

fn word(text: &str) -> AttrToken {
    AttrToken::Word(text.to_string())
}

fn tokens(text: &str) -> Vec<AttrToken> {
    text.split_whitespace()
        .map(|piece| match piece {
            "=" => AttrToken::Equals,
            "," => AttrToken::Comma,
            other => word(other),
        })
        .collect()
}

fn attribute(text: &str) -> Attribute {
    Attribute {
        path: "digestible".to_string(),
        tokens: tokens(text),
    }
}

fn field(name: Option<&str>, ty: &str, directives: Option<&str>) -> FieldDef {
    FieldDef {
        attrs: match directives {
            Some(text) => vec![
                Attribute {
                    path: "doc".to_string(),
                    tokens: tokens("= text"),
                },
                attribute(text),
            ],
            None => vec![],
        },
        ident: name.map(|name| name.to_string()),
        ty: ty.to_string(),
    }
}

fn error(position: usize, kind: AttrErrorKind) -> AttrError {
    AttrError { position, kind }
}

const OPEN: &str = "const _: () = { #[allow(unused_extern_crates, clippy::useless_attribute)] extern crate digestible as _digestible; ::vstd::prelude::verus! { #[automatically_derived] impl";
const BODY: &str = " { open spec fn deterministic(&self) -> bool { false } open spec fn encoding(&self, order: _digestible::byte_order::ByteOrder) -> ::vstd::seq::Seq<u8> { ::vstd::seq::Seq::empty() } #[verifier::external_body] fn digest<W: _digestible::digester_writer::DigestWriter>(&self, order: _digestible::byte_order::ByteOrder, writer: &mut W) { ";

#[test]
fn paths_of_derived_code() {
    assert_eq!(digestible_path(), "_digestible::digestible::Digestible");
    assert_eq!(digest_writer(), "_digestible::digester_writer::DigestWriter");
    assert_eq!(digest_with_path("digest_as_bytes"), "_digestible::digest_with::digest_as_bytes");
    assert_eq!(digester_using_hasher(), "_digestible::hash_digester::DigesterUsingHasher");
    assert_eq!(byte_order_path(), "_digestible::byte_order::ByteOrder");
    assert_eq!(
        byte_order_impl_path("LittleEndian"),
        "_digestible::byte_order::ByteOrder::LittleEndian"
    );
    assert_eq!(
        byte_order_impl_path("BigEndian"),
        "_digestible::byte_order::ByteOrder::BigEndian"
    );
    assert_eq!(
        byte_order_impl_path("NetworkEndian"),
        "_digestible::byte_order::ByteOrder::BigEndian"
    );
    assert_eq!(
        byte_order_impl_path("NativeEndian"),
        "_digestible::byte_order::ByteOrder::native()"
    );
}

#[test]
fn numbers_and_lists_as_text() {
    assert_eq!(decimal_text(0), "0");
    assert_eq!(decimal_text(7), "7");
    assert_eq!(decimal_text(10), "10");
    assert_eq!(decimal_text(1234567890), "1234567890");
    assert_eq!(decimal_text(usize::MAX), usize::MAX.to_string());
    assert_eq!(join(&vec![], ", "), "");
    assert_eq!(join(&vec!["a".to_string()], ", "), "a");
    assert_eq!(join(&vec!["a".to_string(), "b".to_string(), "c".to_string()], ", "), "a, b, c");
}

#[test]
fn field_directives() {
    let attr = FieldAttr::parse(&tokens("")).unwrap();
    assert!(!attr.skip && attr.as_ref.is_none() && attr.digest_with.is_none());
    let attr = FieldAttr::parse(&tokens("skip")).unwrap();
    assert!(attr.skip);
    let attr = FieldAttr::parse(&tokens("with = my::writer")).unwrap();
    assert_eq!(attr.digest_with, Some("my::writer".to_string()));
    let attr = FieldAttr::parse(&tokens("digest_with = digest_with_hash")).unwrap();
    assert_eq!(
        attr.digest_with,
        Some("_digestible::digest_with::digest_with_hash".to_string())
    );
    let attr = FieldAttr::parse(&tokens("use_std_hash")).unwrap();
    assert_eq!(
        attr.digest_with,
        Some("_digestible::digest_with::digest_with_hash".to_string())
    );
    let attr = FieldAttr::parse(&tokens("as_ref = u32")).unwrap();
    assert_eq!(attr.as_ref, Some("u32".to_string()));
    let attr = FieldAttr::parse(&tokens("skip as_ref = [u8] digest_with = digest_as_bytes")).unwrap();
    assert!(attr.skip);
    assert_eq!(attr.as_ref, Some("[u8]".to_string()));
    assert_eq!(
        attr.digest_with,
        Some("_digestible::digest_with::digest_as_bytes".to_string())
    );
}

#[test]
fn wrong_field_directives() {
    let parse = |text: &str| FieldAttr::parse(&tokens(text)).unwrap_err();
    assert_eq!(parse("skipped"), error(0, AttrErrorKind::UnknownKeyword));
    assert_eq!(parse("skip , with = a"), error(1, AttrErrorKind::UnexpectedToken));
    assert_eq!(parse("= skip"), error(0, AttrErrorKind::UnexpectedToken));
    assert_eq!(parse("with"), error(1, AttrErrorKind::MissingEquals));
    assert_eq!(parse("skip with a"), error(2, AttrErrorKind::MissingEquals));
    assert_eq!(parse("with ="), error(2, AttrErrorKind::MissingValue));
    assert_eq!(parse("as_ref = ="), error(2, AttrErrorKind::MissingValue));
    assert_eq!(parse("digest_with = ,"), error(2, AttrErrorKind::MissingValue));
    assert_eq!(parse("use_std_hash with = a"), error(1, AttrErrorKind::Conflict));
    assert_eq!(parse("with = a use_std_hash"), error(3, AttrErrorKind::Conflict));
    assert_eq!(parse("with = a digest_with = b"), error(3, AttrErrorKind::Conflict));
    assert_eq!(parse("digest_with = b with = a"), error(3, AttrErrorKind::Conflict));
    assert_eq!(parse("skip type_id"), error(1, AttrErrorKind::UnknownKeyword));
}

#[test]
fn container_directives() {
    let attrs = ContainerAttrs::parse(&tokens("")).unwrap();
    assert_eq!(attrs.type_header, TypeHeader::HashName);
    assert_eq!(attrs.impl_hash, None);
    let attrs = ContainerAttrs::parse(&tokens("type_header = none")).unwrap();
    assert_eq!(attrs.type_header, TypeHeader::NoHeader);
    let attrs = ContainerAttrs::parse(&tokens("type_header = None")).unwrap();
    assert_eq!(attrs.type_header, TypeHeader::NoHeader);
    let attrs = ContainerAttrs::parse(&tokens("type_header = HashName")).unwrap();
    assert_eq!(attrs.type_header, TypeHeader::HashName);
    let attrs = ContainerAttrs::parse(&tokens("hash")).unwrap();
    assert_eq!(
        attrs.impl_hash,
        Some("_digestible::byte_order::ByteOrder::native()".to_string())
    );
    let attrs = ContainerAttrs::parse(&tokens("hash = LittleEndian , type_header = None")).unwrap();
    assert_eq!(attrs.type_header, TypeHeader::NoHeader);
    assert_eq!(
        attrs.impl_hash,
        Some("_digestible::byte_order::ByteOrder::LittleEndian".to_string())
    );
    let attrs = ContainerAttrs::parse(&tokens(", hash type_header = none")).unwrap();
    assert_eq!(attrs.type_header, TypeHeader::NoHeader);
    assert!(attrs.impl_hash.is_some());
    assert_eq!(TypeHeader::parse(&tokens("none"), 0), Ok(TypeHeader::NoHeader));
    assert_eq!(TypeHeader::parse(&tokens("x HashName"), 1), Ok(TypeHeader::HashName));
}

#[test]
fn wrong_container_directives() {
    let parse = |text: &str| ContainerAttrs::parse(&tokens(text)).unwrap_err();
    assert_eq!(parse("header"), error(0, AttrErrorKind::UnknownKeyword));
    assert_eq!(parse("type_header"), error(1, AttrErrorKind::MissingEquals));
    assert_eq!(parse("type_header ="), error(2, AttrErrorKind::UnexpectedEnd));
    assert_eq!(parse("type_header = ,"), error(2, AttrErrorKind::UnexpectedToken));
    assert_eq!(parse("type_header = type_id"), error(2, AttrErrorKind::UnknownKeyword));
    assert_eq!(parse("hash ="), error(2, AttrErrorKind::MissingValue));
    assert_eq!(parse("hash ,"), error(2, AttrErrorKind::UnexpectedEnd));
    assert_eq!(parse("hash , ,"), error(2, AttrErrorKind::UnexpectedToken));
    assert_eq!(parse("= hash"), error(0, AttrErrorKind::UnexpectedToken));
    assert_eq!(
        TypeHeader::parse(&tokens("none"), 1),
        Err(error(1, AttrErrorKind::UnexpectedEnd))
    );
    assert_eq!(
        TypeHeader::parse(&tokens("="), 0),
        Err(error(0, AttrErrorKind::UnexpectedToken))
    );
}

#[test]
fn directives_come_from_the_first_attribute_of_the_name() {
    let attrs = vec![
        Attribute {
            path: "derive".to_string(),
            tokens: tokens("type_header = none"),
        },
        attribute("hash = BigEndian"),
        attribute("type_header = none"),
    ];
    let found = get_container_attrs(&attrs).unwrap();
    assert_eq!(found.type_header, TypeHeader::HashName);
    assert_eq!(
        found.impl_hash,
        Some("_digestible::byte_order::ByteOrder::BigEndian".to_string())
    );
    let found = get_container_attrs(&[]).unwrap();
    assert_eq!(found.type_header, TypeHeader::HashName);
    assert_eq!(found.impl_hash, None);
    assert_eq!(
        get_container_attrs(&[attribute("nonsense")]).unwrap_err(),
        error(0, AttrErrorKind::UnknownKeyword)
    );
}

#[test]
fn statements_for_fields() {
    let plain = Field::new(&field(Some("id"), "u32", None), 0, "order", "writer").unwrap();
    assert_eq!(plain.ident, "id");
    assert_eq!(
        plain.to_tokens(),
        "<u32 as _digestible::digestible::Digestible>::digest(id, order, writer); "
    );
    let unnamed = Field::new(&field(None, "String", None), 12, "order", "writer").unwrap();
    assert_eq!(unnamed.ident, "field_12");
    assert_eq!(
        unnamed.to_tokens(),
        "<String as _digestible::digestible::Digestible>::digest(field_12, order, writer); "
    );
    let skipped = Field::new(&field(Some("password"), "String", Some("skip")), 2, "order", "writer")
        .unwrap();
    assert_eq!(skipped.to_tokens(), "");
    let with = Field::new(
        &field(Some("d"), "Duration", Some("with = duration_digest_with")),
        3,
        "order",
        "writer",
    )
    .unwrap();
    assert_eq!(with.to_tokens(), "duration_digest_with(d, order, writer); ");
    let hashed = Field::new(&field(Some("d"), "Duration", Some("use_std_hash")), 3, "o", "w").unwrap();
    assert_eq!(
        hashed.to_tokens(),
        "_digestible::digest_with::digest_with_hash(d, o, w); "
    );
    let as_ref = Field::new(&field(Some("data"), "Data<u32>", Some("as_ref = u32")), 0, "order", "writer")
        .unwrap();
    assert_eq!(
        as_ref.to_tokens(),
        "<u32 as _digestible::digestible::Digestible>::digest(data.as_ref(), order, writer); "
    );
    let both = Field::new(
        &field(Some("data"), "Data", Some("as_ref = [u8] digest_with = digest_as_bytes")),
        0,
        "order",
        "writer",
    )
    .unwrap();
    assert_eq!(
        both.to_tokens(),
        "_digestible::digest_with::digest_as_bytes(data.as_ref(), order, writer); "
    );
    assert_eq!(
        Field::new(&field(Some("x"), "u8", Some("wrong")), 0, "order", "writer").unwrap_err(),
        error(0, AttrErrorKind::UnknownKeyword)
    );
}

#[test]
fn variants() {
    let unit = Variant::new(
        &VariantDef {
            ident: "Nothing".to_string(),
            shape: FieldsShape::Unit,
            fields: vec![],
        },
        "order",
        "writer",
    )
    .unwrap();
    assert_eq!(unit.enum_type, EnumType::Unit);
    assert_eq!(unit.catch_block("Example"), "Example::Nothing => { digest_Nothing(writer); } ");
    assert_eq!(
        unit.to_tokens(),
        "let digest_Nothing = |writer: &mut W, | { _digestible::digester_writer::DigestWriter::write(writer, \"Nothing\".as_bytes()); }; "
    );
    let tuple = Variant::new(
        &VariantDef {
            ident: "Pair".to_string(),
            shape: FieldsShape::Unnamed,
            fields: vec![field(None, "u8", None), field(None, "String", Some("skip"))],
        },
        "order",
        "writer",
    )
    .unwrap();
    assert_eq!(tuple.enum_type, EnumType::Tuple);
    assert_eq!(
        tuple.catch_block("Example"),
        "Example::Pair(field_0, field_1) => { digest_Pair(writer, field_0, field_1); } "
    );
    assert_eq!(
        tuple.to_tokens(),
        "let digest_Pair = |writer: &mut W, field_0: &u8, field_1: &String| { _digestible::digester_writer::DigestWriter::write(writer, \"Pair\".as_bytes()); <u8 as _digestible::digestible::Digestible>::digest(field_0, order, writer); }; "
    );
    let named = Variant::new(
        &VariantDef {
            ident: "One".to_string(),
            shape: FieldsShape::Named,
            fields: vec![field(Some("username"), "String", None)],
        },
        "order",
        "writer",
    )
    .unwrap();
    assert_eq!(named.enum_type, EnumType::Struct);
    assert_eq!(
        named.catch_block("Example"),
        "Example::One { username } => { digest_One(writer, username); } "
    );
    let wrong = Variant::new(
        &VariantDef {
            ident: "One".to_string(),
            shape: FieldsShape::Named,
            fields: vec![field(Some("a"), "u8", None), field(Some("b"), "u8", Some("with"))],
        },
        "order",
        "writer",
    );
    assert_eq!(wrong.unwrap_err(), error(1, AttrErrorKind::MissingEquals));
}

fn no_generics() -> Generics {
    Generics {
        params: vec![],
        where_clause: String::new(),
    }
}

fn some_generics() -> Generics {
    Generics {
        params: vec![
            GenericParam {
                kind: ParamKind::Lifetime,
                name: "'a".to_string(),
                bounds: vec![],
            },
            GenericParam {
                kind: ParamKind::Type,
                name: "T".to_string(),
                bounds: vec!["Clone".to_string()],
            },
            GenericParam {
                kind: ParamKind::Type,
                name: "U".to_string(),
                bounds: vec![],
            },
            GenericParam {
                kind: ParamKind::Const,
                name: "N".to_string(),
                bounds: vec!["usize".to_string()],
            },
        ],
        where_clause: "where U: Copy".to_string(),
    }
}

#[test]
fn generic_parameters() {
    let mut generics = some_generics();
    assert_eq!(impl_generics(&generics.params), "<'a, T: Clone, U, const N: usize>");
    add_digestible_trait(&mut generics);
    assert_eq!(
        impl_generics(&generics.params),
        "<'a, T: Clone + _digestible::digestible::Digestible, U: _digestible::digestible::Digestible, const N: usize>"
    );
    assert_eq!(ty_generics(&generics.params), "<'a, T, U, N>");
    assert_eq!(generics.where_clause, "where U: Copy");
    let mut generics = no_generics();
    add_digestible_trait(&mut generics);
    assert_eq!(impl_generics(&generics.params), "");
    assert_eq!(ty_generics(&generics.params), "");
}

#[test]
fn hashing_by_encoding() {
    assert_eq!(
        impl_hash("Name", "_digestible::byte_order::ByteOrder::LittleEndian", "<T: A>", "<T>", " where T: B"),
        "#[automatically_derived] impl<T: A> ::core::hash::Hash for Name<T> where T: B { fn hash<H: ::core::hash::Hasher>(&self, state: &mut H) { let mut digester = _digestible::hash_digester::DigesterUsingHasher::new(state); <Self as _digestible::digestible::Digestible>::digest(self, _digestible::byte_order::ByteOrder::LittleEndian, &mut digester); } } "
    );
}

#[test]
fn derived_for_a_struct() {
    let input = DeriveInput {
        attrs: vec![],
        ident: "MyStruct".to_string(),
        generics: no_generics(),
        data: Data::Struct {
            shape: FieldsShape::Named,
            fields: vec![
                field(Some("id"), "u32", None),
                field(Some("name"), "String", None),
                field(Some("password"), "String", Some("skip")),
            ],
        },
    };
    let expected = format!(
        "{}{}{}{}{}{}{}{}",
        OPEN,
        " _digestible::digestible::Digestible for MyStruct",
        BODY,
        "_digestible::digester_writer::DigestWriter::write(writer, ::core::any::type_name::<Self>().as_bytes()); ",
        "let Self { id, name, password } = self; ",
        "<u32 as _digestible::digestible::Digestible>::digest(id, order, writer); ",
        "<String as _digestible::digestible::Digestible>::digest(name, order, writer); ",
        "} } } };"
    );
    assert_eq!(expand(input.clone()), Ok(expected.clone()));
    assert_eq!(digestible(input), expected);
}

#[test]
fn derived_for_a_generic_tuple_struct_that_hashes() {
    let input = DeriveInput {
        attrs: vec![attribute("hash = LittleEndian , type_header = None")],
        ident: "Wrapper".to_string(),
        generics: Generics {
            params: vec![GenericParam {
                kind: ParamKind::Type,
                name: "T".to_string(),
                bounds: vec![],
            }],
            where_clause: "where T: Copy".to_string(),
        },
        data: Data::Struct {
            shape: FieldsShape::Unnamed,
            fields: vec![field(None, "T", None)],
        },
    };
    let expected = format!(
        "{}{}{}{}{}{}{}{}",
        OPEN,
        "<T: _digestible::digestible::Digestible> _digestible::digestible::Digestible for Wrapper<T> where T: Copy",
        BODY,
        "let Self(field_0) = self; ",
        "<T as _digestible::digestible::Digestible>::digest(field_0, order, writer); ",
        "} } } ",
        "#[automatically_derived] impl<T: _digestible::digestible::Digestible> ::core::hash::Hash for Wrapper<T> where T: Copy { fn hash<H: ::core::hash::Hasher>(&self, state: &mut H) { let mut digester = _digestible::hash_digester::DigesterUsingHasher::new(state); <Self as _digestible::digestible::Digestible>::digest(self, _digestible::byte_order::ByteOrder::LittleEndian, &mut digester); } } ",
        "};"
    );
    assert_eq!(expand(input), Ok(expected));
}

#[test]
fn derived_for_a_unit_struct() {
    let input = DeriveInput {
        attrs: vec![attribute("type_header = none")],
        ident: "Marker".to_string(),
        generics: no_generics(),
        data: Data::Struct {
            shape: FieldsShape::Unit,
            fields: vec![],
        },
    };
    let expected = format!(
        "{}{}{}{}",
        OPEN, " _digestible::digestible::Digestible for Marker", BODY, "} } } };"
    );
    assert_eq!(expand(input), Ok(expected));
}

#[test]
fn derived_for_an_enum() {
    let input = DeriveInput {
        attrs: vec![],
        ident: "Example".to_string(),
        generics: no_generics(),
        data: Data::Enum {
            variants: vec![
                VariantDef {
                    ident: "One".to_string(),
                    shape: FieldsShape::Named,
                    fields: vec![field(Some("username"), "String", None)],
                },
                VariantDef {
                    ident: "Nothing".to_string(),
                    shape: FieldsShape::Unit,
                    fields: vec![],
                },
            ],
        },
    };
    let expected = format!(
        "{}{}{}{}{}{}{}{}{}{}{}",
        OPEN,
        " _digestible::digestible::Digestible for Example",
        BODY,
        "let digest_One = |writer: &mut W, username: &String| { _digestible::digester_writer::DigestWriter::write(writer, \"One\".as_bytes()); <String as _digestible::digestible::Digestible>::digest(username, order, writer); }; ",
        "let digest_Nothing = |writer: &mut W, | { _digestible::digester_writer::DigestWriter::write(writer, \"Nothing\".as_bytes()); }; ",
        "_digestible::digester_writer::DigestWriter::write(writer, ::core::any::type_name::<Self>().as_bytes()); ",
        "_digestible::digester_writer::DigestWriter::write(writer, b\"::\"); ",
        "match self { ",
        "Example::One { username } => { digest_One(writer, username); } ",
        "Example::Nothing => { digest_Nothing(writer); } ",
        "} } } } };"
    );
    assert_eq!(expand(input), Ok(expected));
}

#[test]
fn derived_for_an_enum_without_header() {
    let input = DeriveInput {
        attrs: vec![attribute("type_header = none")],
        ident: "E".to_string(),
        generics: no_generics(),
        data: Data::Enum {
            variants: vec![VariantDef {
                ident: "A".to_string(),
                shape: FieldsShape::Unnamed,
                fields: vec![field(None, "u8", None)],
            }],
        },
    };
    let expected = format!(
        "{}{}{}{}{}{}{}",
        OPEN,
        " _digestible::digestible::Digestible for E",
        BODY,
        "let digest_A = |writer: &mut W, field_0: &u8| { _digestible::digester_writer::DigestWriter::write(writer, \"A\".as_bytes()); <u8 as _digestible::digestible::Digestible>::digest(field_0, order, writer); }; ",
        "match self { ",
        "E::A(field_0) => { digest_A(writer, field_0); } ",
        "} } } } };"
    );
    assert_eq!(expand(input), Ok(expected));
}

#[test]
fn nothing_is_derived_for_wrong_definitions() {
    let union = DeriveInput {
        attrs: vec![],
        ident: "U".to_string(),
        generics: no_generics(),
        data: Data::Union,
    };
    assert_eq!(expand(union.clone()), Err(DeriveError::Unsupported));
    assert_eq!(
        digestible(union),
        "::core::compile_error!(\"digestible can only be derived for structs and enums\");"
    );
    let wrong_container = DeriveInput {
        attrs: vec![attribute("type_header none")],
        ident: "S".to_string(),
        generics: no_generics(),
        data: Data::Struct {
            shape: FieldsShape::Named,
            fields: vec![field(Some("a"), "u8", Some("wrong"))],
        },
    };
    assert_eq!(
        expand(wrong_container.clone()),
        Err(DeriveError::Attr(error(1, AttrErrorKind::MissingEquals)))
    );
    assert_eq!(
        digestible(wrong_container),
        "::core::compile_error!(\"expected `=` after the keyword (argument 1)\");"
    );
    let wrong_field = DeriveInput {
        attrs: vec![],
        ident: "E".to_string(),
        generics: no_generics(),
        data: Data::Enum {
            variants: vec![
                VariantDef {
                    ident: "A".to_string(),
                    shape: FieldsShape::Unit,
                    fields: vec![],
                },
                VariantDef {
                    ident: "B".to_string(),
                    shape: FieldsShape::Unnamed,
                    fields: vec![
                        field(None, "u8", Some("use_std_hash with = f")),
                        field(None, "u8", Some("wrong")),
                    ],
                },
            ],
        },
    };
    assert_eq!(
        expand(wrong_field),
        Err(DeriveError::Attr(error(1, AttrErrorKind::Conflict)))
    );
    assert_eq!(
        DeriveError::Attr(error(0, AttrErrorKind::UnknownKeyword)).message(),
        "unknown directive (argument 0)"
    );
    assert_eq!(
        DeriveError::Attr(error(3, AttrErrorKind::UnexpectedToken)).message(),
        "a directive must start with a keyword (argument 3)"
    );
    assert_eq!(
        DeriveError::Attr(error(2, AttrErrorKind::MissingValue)).message(),
        "expected a value after `=` (argument 2)"
    );
    assert_eq!(
        DeriveError::Attr(error(2, AttrErrorKind::UnexpectedEnd)).message(),
        "expected a directive after the comma (argument 2)"
    );
    assert_eq!(
        DeriveError::Attr(error(10, AttrErrorKind::Conflict)).message(),
        "the field has a way to be written already (argument 10)"
    );
}
