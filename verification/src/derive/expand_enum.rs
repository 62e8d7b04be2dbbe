//! The implementation that is derived for an enum.
use crate::derive::container_attrs::get_container_attrs;
use crate::derive::container_attrs::spec_container_attrs;
use crate::derive::container_attrs::ContainerAttrsView;
use crate::derive::container_attrs::TypeHeader;
use crate::derive::container_attrs::TypeHeaderView;
use crate::derive::fields::all_tokens;
use crate::derive::fields::field_idents;
use crate::derive::fields::field_names;
use crate::derive::fields::fields_tokens;
use crate::derive::fields::fields_view;
use crate::derive::fields::make_fields;
use crate::derive::fields::spec_fields;
use crate::derive::fields::Field;
use crate::derive::fields::FieldView;
use crate::derive::input::Parsed;
use crate::derive::input::parsed;
use crate::derive::input::AttrError;
use crate::derive::input::AttrErrorKind;
use crate::derive::input::Data;
use crate::derive::input::DeriveInput;
use crate::derive::input::FieldsShape;
use crate::derive::input::VariantDef;
use crate::derive::utils::add_digestible_trait;
use crate::derive::utils::digest_writer;
use crate::derive::utils::impl_close;
use crate::derive::utils::impl_generics;
use crate::derive::utils::impl_hash;
use crate::derive::utils::impl_open;
use crate::derive::utils::join;
use crate::derive::utils::joined;
use crate::derive::utils::params_view;
use crate::derive::utils::spec_digest_writer;
use crate::derive::utils::spec_impl_close;
use crate::derive::utils::spec_impl_generics;
use crate::derive::utils::spec_impl_hash;
use crate::derive::utils::spec_impl_open;
use crate::derive::utils::spec_ty_generics;
use crate::derive::utils::spec_where_clause;
use crate::derive::utils::texts;
use crate::derive::utils::ty_generics;
use crate::derive::utils::where_clause;
use crate::derive::utils::GenericParamView;
use vstd::prelude::*;
use vstd::string::StringExecFns;

verus! {

/// How the fields of a variant are written down.
#[derive(Debug, Clone, Copy, PartialEq, Eq, Structural)]
pub enum EnumType {
    /// The variant has no fields.
    Unit,
    /// The fields have no names.
    Tuple,
    /// The fields have names.
    Struct,
}

/// The kind of variant that fields of the shape `shape` make.
pub open spec fn spec_enum_type(shape: FieldsShape) -> EnumType {
    match shape {
        FieldsShape::Named => EnumType::Struct,
        FieldsShape::Unnamed => EnumType::Tuple,
        FieldsShape::Unit => EnumType::Unit,
    }
}

/// A variant of an enum, ready to be written: its name, its fields, the
/// names that the derived code has for the byte order and for the sink,
/// and how its fields are written down.
#[derive(Debug)]
pub struct Variant {
    pub ident: String,
    pub fields: Vec<Field>,
    pub endian: String,
    pub writer: String,
    pub enum_type: EnumType,
}

/// A variant, as plain text.
pub struct VariantView {
    pub ident: Seq<char>,
    pub fields: Seq<FieldView>,
    pub endian: Seq<char>,
    pub writer: Seq<char>,
    pub enum_type: EnumType,
}

impl View for Variant {
    type V = VariantView;

    open spec fn view(&self) -> VariantView {
        VariantView {
            ident: self.ident@,
            fields: fields_view(self.fields@),
            endian: self.endian@,
            writer: self.writer@,
            enum_type: self.enum_type,
        }
    }
}

/// The variant that is made of the definition `variant`.
pub open spec fn spec_variant(variant: VariantDef, endian: Seq<char>, writer: Seq<char>) -> Parsed<VariantView> {
    match spec_fields(variant.fields@, endian, writer) {
        Ok(fields) => Ok(
            VariantView {
                ident: variant.ident@,
                fields,
                endian,
                writer,
                enum_type: spec_enum_type(variant.shape),
            },
        ),
        Err(error) => Err(error),
    }
}

/// The declaration of a field as a parameter: its name and a reference
/// to its type.
pub open spec fn field_parameter(field: FieldView) -> Seq<char> {
    field.ident + ": &"@ + field.ty
}

impl VariantView {
    /// The name of the function that writes a value of the variant.
    pub open spec fn fn_name(self) -> Seq<char> {
        "digest_"@ + self.ident
    }

    /// The names of the fields, with commas between them.
    pub open spec fn field_list(self) -> Seq<char> {
        joined(field_idents(self.fields), ", "@)
    }

    /// The arm that takes a value of the variant apart and hands its
    /// fields to the function that writes it.
    pub open spec fn catch_block(self, enum_name: Seq<char>) -> Seq<char> {
        match self.enum_type {
            EnumType::Unit => enum_name + "::"@ + self.ident + " => { "@ + self.fn_name() + "("@
                + self.writer + "); } "@,
            EnumType::Tuple => enum_name + "::"@ + self.ident + "("@ + self.field_list()
                + ") => { "@ + self.fn_name() + "("@ + self.writer + ", "@ + self.field_list()
                + "); } "@,
            EnumType::Struct => enum_name + "::"@ + self.ident + " { "@ + self.field_list()
                + " } => { "@ + self.fn_name() + "("@ + self.writer + ", "@ + self.field_list()
                + "); } "@,
        }
    }

    /// The function that writes a value of the variant: the name of the
    /// variant first, then the fields in the order in which they are
    /// declared.
    pub open spec fn tokens(self) -> Seq<char> {
        "let "@ + self.fn_name() + " = |"@ + self.writer + ": &mut W, "@ + joined(
            self.fields.map_values(|field: FieldView| field_parameter(field)),
            ", "@,
        ) + "| { "@ + spec_digest_writer() + "::write("@ + self.writer + ", \""@ + self.ident
            + "\".as_bytes()); "@ + fields_tokens(self.fields) + "}; "@
    }
}

impl Variant {
    /// The variant that is made of the definition `variant`.
    pub fn new(variant: &VariantDef, endian: &str, writer: &str) -> (made: Result<Variant, AttrError>)
        ensures
            parsed(made) == spec_variant(*variant, endian@, writer@),
    {
        let fields = match make_fields(&variant.fields, endian, writer) {
            Ok(fields) => fields,
            Err(error) => {
                return Err(error);
            },
        };
        let enum_type = match variant.shape {
            FieldsShape::Named => EnumType::Struct,
            FieldsShape::Unnamed => EnumType::Tuple,
            FieldsShape::Unit => EnumType::Unit,
        };
        Ok(
            Variant {
                ident: variant.ident.clone(),
                fields,
                endian: String::from_str(endian),
                writer: String::from_str(writer),
                enum_type,
            },
        )
    }

    fn fn_name(&self) -> (name: String)
        ensures
            name@ == self@.fn_name(),
    {
        let mut name = String::from_str("digest_");
        name.append(self.ident.as_str());
        name
    }

    /// The arm that takes a value of the variant apart and hands its
    /// fields to the function that writes it.
    pub fn catch_block(&self, enum_name: &str) -> (text: String)
        ensures
            text@ == self@.catch_block(enum_name@),
    {
        let fields = join(&field_names(&self.fields), ", ");
        let fn_name = self.fn_name();
        let mut text = String::from_str(enum_name);
        text.append("::");
        text.append(self.ident.as_str());
        match self.enum_type {
            EnumType::Unit => {
                text.append(" => { ");
                text.append(fn_name.as_str());
                text.append("(");
                text.append(self.writer.as_str());
                text.append("); } ");
            },
            EnumType::Tuple => {
                text.append("(");
                text.append(fields.as_str());
                text.append(") => { ");
                text.append(fn_name.as_str());
                text.append("(");
                text.append(self.writer.as_str());
                text.append(", ");
                text.append(fields.as_str());
                text.append("); } ");
            },
            EnumType::Struct => {
                text.append(" { ");
                text.append(fields.as_str());
                text.append(" } => { ");
                text.append(fn_name.as_str());
                text.append("(");
                text.append(self.writer.as_str());
                text.append(", ");
                text.append(fields.as_str());
                text.append("); } ");
            },
        }
        text
    }

    fn parameters(&self) -> (text: String)
        ensures
            text@ == joined(
                self@.fields.map_values(|field: FieldView| field_parameter(field)),
                ", "@,
            ),
    {
        let mut parameters: Vec<String> = Vec::new();
        let mut i: usize = 0;
        while i < self.fields.len()
            invariant
                i <= self.fields.len(),
                texts(parameters@) == self@.fields.take(i as int).map_values(
                    |field: FieldView| field_parameter(field),
                ),
            decreases self.fields.len() - i,
        {
            let mut parameter = self.fields[i].ident.clone();
            parameter.append(": &");
            parameter.append(self.fields[i].ty.as_str());
            let ghost before = parameters@;
            parameters.push(parameter);
            proof {
                let field = self.fields@[i as int]@;
                assert(texts(parameters@) =~= texts(before).push(field_parameter(field)));
                assert(self@.fields.take(i + 1).map_values(
                    |field: FieldView| field_parameter(field),
                ) =~= self@.fields.take(i as int).map_values(
                    |field: FieldView| field_parameter(field),
                ).push(field_parameter(field)));
            }
            i += 1;
        }
        proof {
            assert(self@.fields.take(i as int) =~= self@.fields);
        }
        join(&parameters, ", ")
    }

    /// The function that writes a value of the variant.
    pub fn to_tokens(&self) -> (text: String)
        ensures
            text@ == self@.tokens(),
    {
        let mut text = String::from_str("let ");
        text.append(self.fn_name().as_str());
        text.append(" = |");
        text.append(self.writer.as_str());
        text.append(": &mut W, ");
        text.append(self.parameters().as_str());
        text.append("| { ");
        text.append(digest_writer().as_str());
        text.append("::write(");
        text.append(self.writer.as_str());
        text.append(", \"");
        text.append(self.ident.as_str());
        text.append("\".as_bytes()); ");
        text.append(all_tokens(&self.fields).as_str());
        text.append("}; ");
        text
    }
}

/// The variants `variants`, as plain text.
pub open spec fn variants_view(variants: Seq<Variant>) -> Seq<VariantView> {
    variants.map_values(|variant: Variant| variant@)
}

/// The variants that are made of the definitions `defs`, or the first
/// error among them.
pub open spec fn spec_variants(defs: Seq<VariantDef>, endian: Seq<char>, writer: Seq<char>) -> Parsed<Seq<VariantView>>
    decreases defs.len(),
{
    if defs.len() == 0 {
        Ok(Seq::empty())
    } else {
        match spec_variants(defs.drop_last(), endian, writer) {
            Ok(front) => match spec_variant(defs.last(), endian, writer) {
                Ok(variant) => Ok(front.push(variant)),
                Err(error) => Err(error),
            },
            Err(error) => Err(error),
        }
    }
}

/// An error among the first definitions is the error of the whole list.
pub proof fn lemma_first_variant_error_stays(
    defs: Seq<VariantDef>,
    upto: int,
    endian: Seq<char>,
    writer: Seq<char>,
)
    requires
        0 <= upto <= defs.len(),
        spec_variants(defs.take(upto), endian, writer) is Err,
    ensures
        spec_variants(defs, endian, writer) == spec_variants(defs.take(upto), endian, writer),
    decreases defs.len() - upto,
{
    if upto < defs.len() {
        assert(defs.take(upto + 1).drop_last() =~= defs.take(upto));
        lemma_first_variant_error_stays(defs, upto + 1, endian, writer);
    } else {
        assert(defs.take(upto) =~= defs);
    }
}

/// The functions that write the variants `variants`, one after the
/// other.
pub open spec fn variants_tokens(variants: Seq<VariantView>) -> Seq<char>
    decreases variants.len(),
{
    if variants.len() == 0 {
        Seq::empty()
    } else {
        variants_tokens(variants.drop_last()) + variants.last().tokens()
    }
}

/// The arms for the variants `variants`, one after the other.
pub open spec fn catch_blocks(variants: Seq<VariantView>, enum_name: Seq<char>) -> Seq<char>
    decreases variants.len(),
{
    if variants.len() == 0 {
        Seq::empty()
    } else {
        catch_blocks(variants.drop_last(), enum_name) + variants.last().catch_block(enum_name)
    }
}

/// The statements that write the header of an enum: the full name of the
/// type and the separator `::`, or nothing.
pub open spec fn spec_enum_header_write(header: TypeHeaderView) -> Seq<char> {
    match header {
        TypeHeaderView::HashName => spec_digest_writer()
            + "::write(writer, ::core::any::type_name::<Self>().as_bytes()); "@
            + spec_digest_writer() + "::write(writer, b\"::\"); "@,
        _ => Seq::empty(),
    }
}

/// The text of the implementation for an enum with the given parts.
pub open spec fn spec_enum_text(
    ident: Seq<char>,
    params: Seq<GenericParamView>,
    where_text: Seq<char>,
    attrs: ContainerAttrsView,
    variants: Seq<VariantView>,
) -> Seq<char> {
    let impl_generics = spec_impl_generics(params);
    let ty_generics = spec_ty_generics(params);
    let where_clause = spec_where_clause(where_text);
    spec_impl_open(ident, impl_generics, ty_generics, where_clause) + variants_tokens(variants)
        + spec_enum_header_write(attrs.type_header) + "match self { "@ + catch_blocks(
        variants,
        ident,
    ) + "} "@ + spec_impl_close(
        match attrs.impl_hash {
            Some(path) => spec_impl_hash(ident, path, impl_generics, ty_generics, where_clause),
            None => Seq::empty(),
        },
    )
}

/// The implementation that is derived for the enum `input`: the
/// functions that write the variants, the header, and the choice among
/// the variants; or the first error in the directives of the enum and of
/// its fields.
pub open spec fn spec_expand_enum(input: DeriveInput) -> Parsed<Seq<char>> {
    match spec_container_attrs(input.attrs@) {
        Ok(attrs) => match spec_variants(input.data->variants@, "order"@, "writer"@) {
            Ok(variants) => Ok(
                spec_enum_text(
                    input.ident@,
                    params_view(input.generics.params@).map_values(
                        |param: GenericParamView| param.with_digestible(),
                    ),
                    input.generics.where_clause@,
                    attrs,
                    variants,
                ),
            ),
            Err(error) => Err(error),
        },
        Err(error) => Err(error),
    }
}

fn make_variants(defs: &Vec<VariantDef>, endian: &str, writer: &str) -> (made: Result<Vec<Variant>, AttrError>)
    ensures
        match made {
            Ok(variants) => spec_variants(defs@, endian@, writer@) == Ok::<Seq<VariantView>, (int, AttrErrorKind)>(variants_view(variants@)),
            Err(error) => spec_variants(defs@, endian@, writer@) == Err::<Seq<VariantView>, (int, AttrErrorKind)>((error.position as int, error.kind)),
        },
{
    let mut variants: Vec<Variant> = Vec::new();
    let mut index: usize = 0;
    proof {
        assert(variants_view(variants@) =~= Seq::<VariantView>::empty());
        assert(defs@.take(0).len() == 0);
    }
    while index < defs.len()
        invariant
            index <= defs.len(),
            spec_variants(defs@.take(index as int), endian@, writer@) == Ok::<Seq<VariantView>, (int, AttrErrorKind)>(variants_view(variants@)),
        decreases defs.len() - index,
    {
        proof {
            assert(defs@.take(index + 1).drop_last() =~= defs@.take(index as int));
        }
        match Variant::new(&defs[index], endian, writer) {
            Ok(variant) => {
                let ghost before = variants@;
                variants.push(variant);
                proof {
                    assert(variants_view(variants@) =~= variants_view(before).push(variant@));
                }
            },
            Err(error) => {
                proof {
                    lemma_first_variant_error_stays(defs@, index as int + 1, endian@, writer@);
                }
                return Err(error);
            },
        }
        index += 1;
    }
    proof {
        assert(defs@.take(index as int) =~= defs@);
    }
    Ok(variants)
}

fn all_variant_tokens(variants: &Vec<Variant>) -> (text: String)
    ensures
        text@ == variants_tokens(variants_view(variants@)),
{
    let mut text = String::new();
    let mut i: usize = 0;
    while i < variants.len()
        invariant
            i <= variants.len(),
            text@ == variants_tokens(variants_view(variants@).take(i as int)),
        decreases variants.len() - i,
    {
        proof {
            assert(variants_view(variants@).take(i + 1).drop_last() =~= variants_view(
                variants@,
            ).take(i as int));
        }
        text.append(variants[i].to_tokens().as_str());
        i += 1;
    }
    proof {
        assert(variants_view(variants@).take(i as int) =~= variants_view(variants@));
    }
    text
}

fn all_catch_blocks(variants: &Vec<Variant>, enum_name: &str) -> (text: String)
    ensures
        text@ == catch_blocks(variants_view(variants@), enum_name@),
{
    let mut text = String::new();
    let mut i: usize = 0;
    while i < variants.len()
        invariant
            i <= variants.len(),
            text@ == catch_blocks(variants_view(variants@).take(i as int), enum_name@),
        decreases variants.len() - i,
    {
        proof {
            assert(variants_view(variants@).take(i + 1).drop_last() =~= variants_view(
                variants@,
            ).take(i as int));
        }
        text.append(variants[i].catch_block(enum_name).as_str());
        i += 1;
    }
    proof {
        assert(variants_view(variants@).take(i as int) =~= variants_view(variants@));
    }
    text
}

/// The implementation that is derived for the enum `derive_input`.
pub fn expand(derive_input: DeriveInput) -> (expanded: Result<String, AttrError>)
    requires
        derive_input.data is Enum,
    ensures
        parsed(expanded) == spec_expand_enum(derive_input),
{
    let DeriveInput { attrs, ident, generics, data } = derive_input;
    let mut generics = generics;
    add_digestible_trait(&mut generics);
    let impl_generics = impl_generics(&generics.params);
    let ty_generics = ty_generics(&generics.params);
    let where_clause = where_clause(generics.where_clause.as_str());
    let container_attrs = match get_container_attrs(attrs.as_slice()) {
        Ok(attrs) => attrs,
        Err(error) => {
            return Err(error);
        },
    };
    let writer = "writer";
    let order = "order";
    let digest_writer = digest_writer();
    let header_write = match &container_attrs.type_header {
        TypeHeader::HashName => {
            let mut header_write = digest_writer.clone();
            header_write.append("::write(writer, ::core::any::type_name::<Self>().as_bytes()); ");
            header_write.append(digest_writer.as_str());
            header_write.append("::write(writer, b\"::\"); ");
            header_write
        },
        _ => String::new(),
    };
    let variants = match &data {
        Data::Enum { variants } => match make_variants(variants, order, writer) {
            Ok(variants) => variants,
            Err(error) => {
                return Err(error);
            },
        },
        _ => Vec::new(),
    };
    let impl_hash = match &container_attrs.impl_hash {
        Some(path) => impl_hash(
            ident.as_str(),
            path.as_str(),
            impl_generics.as_str(),
            ty_generics.as_str(),
            where_clause.as_str(),
        ),
        None => String::new(),
    };
    let mut text = impl_open(
        ident.as_str(),
        impl_generics.as_str(),
        ty_generics.as_str(),
        where_clause.as_str(),
    );
    text.append(all_variant_tokens(&variants).as_str());
    text.append(header_write.as_str());
    text.append("match self { ");
    text.append(all_catch_blocks(&variants, ident.as_str()).as_str());
    text.append("} ");
    text.append(impl_close(impl_hash.as_str()).as_str());
    Ok(text)
}

} // verus!
