//! The implementation that is derived for a struct.
use crate::derive::container_attrs::get_container_attrs;
use crate::derive::container_attrs::spec_container_attrs;
use crate::derive::container_attrs::ContainerAttrsView;
use crate::derive::container_attrs::TypeHeader;
use crate::derive::container_attrs::TypeHeaderView;
use crate::derive::fields::all_tokens;
use crate::derive::fields::field_idents;
use crate::derive::fields::field_names;
use crate::derive::fields::fields_tokens;
use crate::derive::fields::make_fields;
use crate::derive::fields::spec_fields;
use crate::derive::fields::FieldView;
use crate::derive::input::Parsed;
use crate::derive::input::parsed;
use crate::derive::input::AttrError;
use crate::derive::input::AttrErrorKind;
use crate::derive::input::Data;
use crate::derive::input::DeriveInput;
use crate::derive::input::FieldsShape;
use crate::derive::utils::add_digestible_trait;
use crate::derive::utils::digest_writer;
use crate::derive::utils::impl_close;
use crate::derive::utils::impl_generics;
use crate::derive::utils::impl_hash;
use crate::derive::utils::impl_open;
use crate::derive::utils::join;
use crate::derive::utils::joined;
use crate::derive::utils::params_view;
use crate::derive::utils::spec_digest_writer;
use crate::derive::utils::spec_impl_close;
use crate::derive::utils::spec_impl_generics;
use crate::derive::utils::spec_impl_hash;
use crate::derive::utils::spec_impl_open;
use crate::derive::utils::spec_ty_generics;
use crate::derive::utils::spec_where_clause;
use crate::derive::utils::ty_generics;
use crate::derive::utils::where_clause;
use crate::derive::utils::GenericParamView;
use vstd::prelude::*;
use vstd::string::StringExecFns;

verus! {

/// The statement that writes the header of a struct: the full name of
/// the type, or nothing.
pub open spec fn spec_struct_header_write(header: TypeHeaderView) -> Seq<char> {
    match header {
        TypeHeaderView::HashName => spec_digest_writer()
            + "::write(writer, ::core::any::type_name::<Self>().as_bytes()); "@,
        _ => Seq::empty(),
    }
}

/// The statement that takes the struct apart into its fields.
pub open spec fn spec_expand_fields(shape: FieldsShape, fields: Seq<FieldView>) -> Seq<char> {
    match shape {
        FieldsShape::Named => "let Self { "@ + joined(field_idents(fields), ", "@)
            + " } = self; "@,
        FieldsShape::Unnamed => "let Self("@ + joined(field_idents(fields), ", "@)
            + ") = self; "@,
        FieldsShape::Unit => Seq::empty(),
    }
}

/// The text of the implementation for a struct with the given parts.
pub open spec fn spec_struct_text(
    ident: Seq<char>,
    params: Seq<GenericParamView>,
    where_text: Seq<char>,
    attrs: ContainerAttrsView,
    shape: FieldsShape,
    fields: Seq<FieldView>,
) -> Seq<char> {
    let impl_generics = spec_impl_generics(params);
    let ty_generics = spec_ty_generics(params);
    let where_clause = spec_where_clause(where_text);
    spec_impl_open(ident, impl_generics, ty_generics, where_clause) + spec_struct_header_write(
        attrs.type_header,
    ) + spec_expand_fields(shape, fields) + fields_tokens(fields) + spec_impl_close(
        match attrs.impl_hash {
            Some(path) => spec_impl_hash(ident, path, impl_generics, ty_generics, where_clause),
            None => Seq::empty(),
        },
    )
}

/// The implementation that is derived for the struct `input`: the
/// header, then one statement for each field that is not left out, in
/// the order in which the fields are declared; or the first error in the
/// directives of the struct and of its fields.
pub open spec fn spec_expand_struct(input: DeriveInput) -> Parsed<Seq<char>> {
    match spec_container_attrs(input.attrs@) {
        Ok(attrs) => match spec_fields(input.data->Struct_fields@, "order"@, "writer"@) {
            Ok(fields) => Ok(
                spec_struct_text(
                    input.ident@,
                    params_view(input.generics.params@).map_values(
                        |param: GenericParamView| param.with_digestible(),
                    ),
                    input.generics.where_clause@,
                    attrs,
                    input.data->shape,
                    fields,
                ),
            ),
            Err(error) => Err(error),
        },
        Err(error) => Err(error),
    }
}

/// The implementation that is derived for the struct `derive_input`.
pub fn expand(derive_input: DeriveInput) -> (expanded: Result<String, AttrError>)
    requires
        derive_input.data is Struct,
    ensures
        parsed(expanded) == spec_expand_struct(derive_input),
{
    let DeriveInput { attrs, ident, generics, data } = derive_input;
    let mut generics = generics;
    add_digestible_trait(&mut generics);
    let impl_generics = impl_generics(&generics.params);
    let ty_generics = ty_generics(&generics.params);
    let where_clause = where_clause(generics.where_clause.as_str());
    let container_attrs = match get_container_attrs(attrs.as_slice()) {
        Ok(attrs) => attrs,
        Err(error) => {
            return Err(error);
        },
    };
    let writer = "writer";
    let order = "order";
    let (shape, fields) = match &data {
        Data::Struct { shape, fields } => match make_fields(fields, order, writer) {
            Ok(made) => (*shape, made),
            Err(error) => {
                return Err(error);
            },
        },
        _ => (FieldsShape::Unit, Vec::new()),
    };
    let field_names = join(&field_names(&fields), ", ");
    let expand_fields = match shape {
        FieldsShape::Named => {
            let mut text = String::from_str("let Self { ");
            text.append(field_names.as_str());
            text.append(" } = self; ");
            text
        },
        FieldsShape::Unnamed => {
            let mut text = String::from_str("let Self(");
            text.append(field_names.as_str());
            text.append(") = self; ");
            text
        },
        FieldsShape::Unit => String::new(),
    };
    let header_write = match &container_attrs.type_header {
        TypeHeader::HashName => {
            let mut header_write = digest_writer();
            header_write.append("::write(writer, ::core::any::type_name::<Self>().as_bytes()); ");
            header_write
        },
        _ => String::new(),
    };
    let impl_hash = match &container_attrs.impl_hash {
        Some(path) => impl_hash(
            ident.as_str(),
            path.as_str(),
            impl_generics.as_str(),
            ty_generics.as_str(),
            where_clause.as_str(),
        ),
        None => String::new(),
    };
    let mut text = impl_open(
        ident.as_str(),
        impl_generics.as_str(),
        ty_generics.as_str(),
        where_clause.as_str(),
    );
    text.append(header_write.as_str());
    text.append(expand_fields.as_str());
    text.append(all_tokens(&fields).as_str());
    text.append(impl_close(impl_hash.as_str()).as_str());
    Ok(text)
}

} // verus!
