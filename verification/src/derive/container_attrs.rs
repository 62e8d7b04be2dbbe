//! The directives on a whole struct or enum.
use crate::derive::input::Parsed;
use crate::derive::input::parsed;
use crate::derive::input::equals_at;
use crate::derive::input::find_attribute;
use crate::derive::input::first_with_path;
use crate::derive::input::spec_equals_at;
use crate::derive::input::spec_value_at;
use crate::derive::input::spec_word_at;
use crate::derive::input::tokens_view;
use crate::derive::input::value_at;
use crate::derive::input::word_at;
use crate::derive::input::AttrError;
use crate::derive::input::AttrErrorKind;
use crate::derive::input::AttrToken;
use crate::derive::input::Attribute;
use crate::derive::input::TokenView;
use crate::derive::utils::byte_order_impl_path;
use crate::derive::utils::same_text;
use crate::derive::utils::spec_byte_order_impl_path;
use vstd::prelude::*;

verus! {

/// What is written in front of the fields of a struct or an enum.
#[derive(Debug, Clone, PartialEq, Eq)]
pub enum TypeHeader {
    /// Nothing.
    NoHeader,
    /// The full name of the type.
    HashName,
    /// A numeric identifier of the type, made by the function at the given
    /// path.
    TypeId { path_to_type_id_gen: String },
}

/// A header, with its path as plain text.
pub enum TypeHeaderView {
    NoHeader,
    HashName,
    TypeId { path_to_type_id_gen: Seq<char> },
}

impl View for TypeHeader {
    type V = TypeHeaderView;

    open spec fn view(&self) -> TypeHeaderView {
        match self {
            TypeHeader::NoHeader => TypeHeaderView::NoHeader,
            TypeHeader::HashName => TypeHeaderView::HashName,
            TypeHeader::TypeId { path_to_type_id_gen } => TypeHeaderView::TypeId {
                path_to_type_id_gen: path_to_type_id_gen@,
            },
        }
    }
}

impl Default for TypeHeader {
    fn default() -> (header: TypeHeader)
        ensures
            header == TypeHeader::HashName,
    {
        TypeHeader::HashName
    }
}

/// The header that the word at place `at` names: `none` or `None` for no
/// header, `HashName` for the name of the type.
pub open spec fn spec_parse_type_header(tokens: Seq<TokenView>, at: int) -> Parsed<TypeHeaderView> {
    if at >= tokens.len() {
        Err((at, AttrErrorKind::UnexpectedEnd))
    } else {
        match spec_word_at(tokens, at) {
            Some(word) => if word == "none"@ || word == "None"@ {
                Ok(TypeHeaderView::NoHeader)
            } else if word == "HashName"@ {
                Ok(TypeHeaderView::HashName)
            } else {
                Err((at, AttrErrorKind::UnknownKeyword))
            },
            None => Err((at, AttrErrorKind::UnexpectedToken)),
        }
    }
}

impl TypeHeader {
    /// Reads the header that the word at place `at` of `tokens` names.
    pub fn parse(tokens: &[AttrToken], at: usize) -> (header: Result<TypeHeader, AttrError>)
        ensures
            parsed(header) == spec_parse_type_header(tokens_view(tokens@), at as int),
    {
        if at >= tokens.len() {
            return Err(AttrError { position: at, kind: AttrErrorKind::UnexpectedEnd });
        }
        match word_at(tokens, at) {
            Some(word) => {
                if same_text(word.as_str(), "none") || same_text(word.as_str(), "None") {
                    Ok(TypeHeader::NoHeader)
                } else if same_text(word.as_str(), "HashName") {
                    Ok(TypeHeader::HashName)
                } else {
                    Err(AttrError { position: at, kind: AttrErrorKind::UnknownKeyword })
                }
            },
            None => Err(AttrError { position: at, kind: AttrErrorKind::UnexpectedToken }),
        }
    }
}

/// The directives on a whole struct or enum: the header, and the byte
/// order under which the type is to hash itself as it encodes itself, if
/// it is to.
#[derive(Debug)]
pub struct ContainerAttrs {
    pub type_header: TypeHeader,
    pub impl_hash: Option<String>,
}

/// The directives on a whole struct or enum, as plain text.
pub struct ContainerAttrsView {
    pub type_header: TypeHeaderView,
    pub impl_hash: Option<Seq<char>>,
}

impl View for ContainerAttrs {
    type V = ContainerAttrsView;

    open spec fn view(&self) -> ContainerAttrsView {
        ContainerAttrsView {
            type_header: self.type_header@,
            impl_hash: match self.impl_hash {
                Some(path) => Some(path@),
                None => None,
            },
        }
    }
}

/// The directives of a definition that carries none: the name of the type
/// for a header, and no hashing.
pub open spec fn default_container_attrs() -> ContainerAttrsView {
    ContainerAttrsView { type_header: TypeHeaderView::HashName, impl_hash: None }
}

impl Default for ContainerAttrs {
    fn default() -> (attrs: ContainerAttrs)
        ensures
            attrs@ == default_container_attrs(),
    {
        ContainerAttrs { type_header: TypeHeader::HashName, impl_hash: None }
    }
}

/// The directives that the pieces of `tokens` from place `at` on add to
/// `attrs`. Each directive may have a comma in front of it. The
/// directives are `type_header = ` and a header, and `hash`, alone for the
/// byte order of the machine or with `=` and the name of a byte order.
pub open spec fn spec_parse_container(
    tokens: Seq<TokenView>,
    at: int,
    attrs: ContainerAttrsView,
) -> Result<ContainerAttrsView, (int, AttrErrorKind)>
    decreases tokens.len() - at,
{
    if at < 0 || at >= tokens.len() {
        Ok(attrs)
    } else {
        let start = if tokens[at] is Comma {
            at + 1
        } else {
            at
        };
        if start >= tokens.len() {
            Err((start, AttrErrorKind::UnexpectedEnd))
        } else {
            match tokens[start] {
                TokenView::Word(word) => if word == "type_header"@ {
                    if !spec_equals_at(tokens, start + 1) {
                        Err((start + 1, AttrErrorKind::MissingEquals))
                    } else {
                        match spec_parse_type_header(tokens, start + 2) {
                            Ok(header) => spec_parse_container(
                                tokens,
                                start + 3,
                                ContainerAttrsView { type_header: header, ..attrs },
                            ),
                            Err(error) => Err(error),
                        }
                    }
                } else if word == "hash"@ {
                    if spec_equals_at(tokens, start + 1) {
                        match spec_word_at(tokens, start + 2) {
                            Some(order) => spec_parse_container(
                                tokens,
                                start + 3,
                                ContainerAttrsView {
                                    impl_hash: Some(spec_byte_order_impl_path(order)),
                                    ..attrs
                                },
                            ),
                            None => Err((start + 2, AttrErrorKind::MissingValue)),
                        }
                    } else {
                        spec_parse_container(
                            tokens,
                            start + 1,
                            ContainerAttrsView {
                                impl_hash: Some(spec_byte_order_impl_path("NativeEndian"@)),
                                ..attrs
                            },
                        )
                    }
                } else {
                    Err((start, AttrErrorKind::UnknownKeyword))
                },
                _ => Err((start, AttrErrorKind::UnexpectedToken)),
            }
        }
    }
}

impl ContainerAttrs {
    /// Reads the directives on a whole struct or enum from the arguments
    /// of its attribute.
    pub fn parse(tokens: &[AttrToken]) -> (attrs: Result<ContainerAttrs, AttrError>)
        ensures
            parsed(attrs) == spec_parse_container(
                tokens_view(tokens@),
                0,
                default_container_attrs(),
            ),
    {
        let mut type_header = TypeHeader::HashName;
        let mut impl_hash: Option<String> = None;
        let ghost view = tokens_view(tokens@);
        let mut at: usize = 0;
        while at < tokens.len()
            invariant
                view == tokens_view(tokens@),
                spec_parse_container(view, 0, default_container_attrs()) == spec_parse_container(
                    view,
                    at as int,
                    (ContainerAttrs { type_header, impl_hash })@,
                ),
            decreases tokens@.len() - at,
        {
            let mut start = at;
            if let AttrToken::Comma = &tokens[at] {
                start = at + 1;
            }
            if start >= tokens.len() {
                return Err(AttrError { position: start, kind: AttrErrorKind::UnexpectedEnd });
            }
            match &tokens[start] {
                AttrToken::Word(word) => {
                    if same_text(word.as_str(), "type_header") {
                        if !equals_at(tokens, start + 1) {
                            return Err(
                                AttrError {
                                    position: start + 1,
                                    kind: AttrErrorKind::MissingEquals,
                                },
                            );
                        }
                        match TypeHeader::parse(tokens, start + 2) {
                            Ok(header) => {
                                type_header = header;
                            },
                            Err(error) => {
                                return Err(error);
                            },
                        }
                        at = start + 3;
                    } else if same_text(word.as_str(), "hash") {
                        if equals_at(tokens, start + 1) {
                            match word_at(tokens, start + 2) {
                                Some(order) => {
                                    impl_hash = Some(byte_order_impl_path(order.as_str()));
                                },
                                None => {
                                    return Err(
                                        AttrError {
                                            position: start + 2,
                                            kind: AttrErrorKind::MissingValue,
                                        },
                                    );
                                },
                            }
                            at = start + 3;
                        } else {
                            impl_hash = Some(byte_order_impl_path("NativeEndian"));
                            at = start + 1;
                        }
                    } else {
                        return Err(
                            AttrError { position: start, kind: AttrErrorKind::UnknownKeyword },
                        );
                    }
                },
                _ => {
                    return Err(AttrError { position: start, kind: AttrErrorKind::UnexpectedToken });
                },
            }
        }
        Ok(ContainerAttrs { type_header, impl_hash })
    }
}

/// The directives that the attributes of a definition give: those of the
/// first attribute with the name `digestible`, or the default ones where
/// there is none.
pub open spec fn spec_container_attrs(attrs: Seq<Attribute>) -> Parsed<ContainerAttrsView> {
    match first_with_path(attrs, "digestible"@, 0) {
        Some(place) => spec_parse_container(
            tokens_view(attrs[place].tokens@),
            0,
            default_container_attrs(),
        ),
        None => Ok(default_container_attrs()),
    }
}

/// Reads the directives on a whole struct or enum from its attributes.
pub fn get_container_attrs(attrs: &[Attribute]) -> (found: Result<ContainerAttrs, AttrError>)
    ensures
        parsed(found) == spec_container_attrs(attrs@),
{
    match find_attribute(attrs, "digestible") {
        Some(place) => ContainerAttrs::parse(attrs[place].tokens.as_slice()),
        None => Ok(ContainerAttrs::default()),
    }
}

} // verus!
