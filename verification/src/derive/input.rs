//! The definition of a struct or an enum, as far as deriving reads it.
use crate::derive::utils::same_text;
use vstd::prelude::*;

verus! {

/// One piece of the arguments of a directive.
#[derive(Debug, Clone, PartialEq, Eq)]
pub enum AttrToken {
    /// A keyword, a name, a path or a type: all that stands between
    /// equals signs and commas.
    Word(String),
    /// The sign `=`.
    Equals,
    /// The sign `,`.
    Comma,
}

/// One piece of the arguments of a directive, as plain text.
pub enum TokenView {
    Word(Seq<char>),
    Equals,
    Comma,
}

impl View for AttrToken {
    type V = TokenView;

    open spec fn view(&self) -> TokenView {
        match self {
            AttrToken::Word(word) => TokenView::Word(word@),
            AttrToken::Equals => TokenView::Equals,
            AttrToken::Comma => TokenView::Comma,
        }
    }
}

/// The pieces of `tokens` as plain text.
pub open spec fn tokens_view(tokens: Seq<AttrToken>) -> Seq<TokenView> {
    tokens.map_values(|token: AttrToken| token@)
}

/// What is wrong with the arguments of a directive.
#[derive(Debug, Clone, Copy, PartialEq, Eq, Structural)]
pub enum AttrErrorKind {
    /// A word stands where a keyword is due, and is none.
    UnknownKeyword,
    /// A sign stands where a keyword is due.
    UnexpectedToken,
    /// A keyword that takes a value is not followed by `=`.
    MissingEquals,
    /// No value follows the `=`.
    MissingValue,
    /// The arguments end where a keyword is due.
    UnexpectedEnd,
    /// A second way to write the field is given.
    Conflict,
}

/// An error in the arguments of a directive: what is wrong, and at which
/// piece.
#[derive(Debug, Clone, Copy, PartialEq, Eq, Structural)]
pub struct AttrError {
    pub position: usize,
    pub kind: AttrErrorKind,
}

/// An attribute on a definition or on a field: its name and the pieces of
/// its arguments.
#[derive(Debug, Clone)]
pub struct Attribute {
    pub path: String,
    pub tokens: Vec<AttrToken>,
}

/// A field as it is defined: its attributes, its name if it has one, and
/// its type.
#[derive(Debug, Clone)]
pub struct FieldDef {
    pub attrs: Vec<Attribute>,
    pub ident: Option<String>,
    pub ty: String,
}

/// How the fields of a struct or of a variant are written down.
#[derive(Debug, Clone, Copy, PartialEq, Eq, Structural)]
pub enum FieldsShape {
    /// With names, in braces.
    Named,
    /// Without names, in parentheses.
    Unnamed,
    /// There are none.
    Unit,
}

/// A variant of an enum as it is defined.
#[derive(Debug, Clone)]
pub struct VariantDef {
    pub ident: String,
    pub shape: FieldsShape,
    pub fields: Vec<FieldDef>,
}

/// What kind of parameter a generic parameter is.
#[derive(Debug, Clone, Copy, PartialEq, Eq, Structural)]
pub enum ParamKind {
    Lifetime,
    Type,
    Const,
}

/// A generic parameter: its kind, its name, and its bounds. A constant
/// parameter has its type for its one bound.
#[derive(Debug, Clone)]
pub struct GenericParam {
    pub kind: ParamKind,
    pub name: String,
    pub bounds: Vec<String>,
}

/// The generic parameters of a definition, and its `where` clause as it
/// stands, empty if there is none.
#[derive(Debug, Clone)]
pub struct Generics {
    pub params: Vec<GenericParam>,
    pub where_clause: String,
}

/// What a definition defines.
#[derive(Debug, Clone)]
pub enum Data {
    Struct { shape: FieldsShape, fields: Vec<FieldDef> },
    Enum { variants: Vec<VariantDef> },
    Union,
}

/// A definition that an encoding is to be derived for.
#[derive(Debug, Clone)]
pub struct DeriveInput {
    pub attrs: Vec<Attribute>,
    pub ident: String,
    pub generics: Generics,
    pub data: Data,
}

/// What reading directives gives: what was read, or what is wrong and at
/// which piece.
pub type Parsed<T> = Result<T, (int, AttrErrorKind)>;

/// The word at place `at` of `tokens`, if a word stands there.
pub open spec fn spec_word_at(tokens: Seq<TokenView>, at: int) -> Option<Seq<char>> {
    if 0 <= at < tokens.len() {
        match tokens[at] {
            TokenView::Word(word) => Some(word),
            _ => None,
        }
    } else {
        None
    }
}

/// Whether the sign `=` stands at place `at` of `tokens`.
pub open spec fn spec_equals_at(tokens: Seq<TokenView>, at: int) -> bool {
    0 <= at < tokens.len() && tokens[at] is Equals
}

pub fn word_at(tokens: &[AttrToken], at: usize) -> (word: Option<&String>)
    ensures
        match word {
            Some(word) => spec_word_at(tokens_view(tokens@), at as int) == Some(word@),
            None => spec_word_at(tokens_view(tokens@), at as int) is None,
        },
{
    if at < tokens.len() {
        match &tokens[at] {
            AttrToken::Word(word) => Some(word),
            _ => None,
        }
    } else {
        None
    }
}

pub fn equals_at(tokens: &[AttrToken], at: usize) -> (equals: bool)
    ensures
        equals == spec_equals_at(tokens_view(tokens@), at as int),
{
    if at < tokens.len() {
        match &tokens[at] {
            AttrToken::Equals => true,
            _ => false,
        }
    } else {
        false
    }
}

/// The value of the keyword at place `at`: the word behind the sign `=`
/// that follows the keyword, or what is missing, and where.
pub open spec fn spec_value_at(tokens: Seq<TokenView>, at: int) -> Parsed<Seq<char>> {
    if !spec_equals_at(tokens, at + 1) {
        Err((at + 1, AttrErrorKind::MissingEquals))
    } else {
        match spec_word_at(tokens, at + 2) {
            Some(word) => Ok(word),
            None => Err((at + 2, AttrErrorKind::MissingValue)),
        }
    }
}

/// What `outcome` says, as plain text, and with the place of an error as
/// a plain number.
pub open spec fn parsed<T: View>(outcome: Result<T, AttrError>) -> Parsed<T::V> {
    match outcome {
        Ok(value) => Ok(value@),
        Err(error) => Err((error.position as int, error.kind)),
    }
}

pub fn value_at(tokens: &[AttrToken], at: usize) -> (value: Result<&String, AttrError>)
    requires
        at < tokens@.len(),
    ensures
        parsed(value) == spec_value_at(tokens_view(tokens@), at as int),
{
    let len = tokens.len();
    if at + 1 >= len || !equals_at(tokens, at + 1) {
        Err(AttrError { position: at + 1, kind: AttrErrorKind::MissingEquals })
    } else {
        match word_at(tokens, at + 2) {
            Some(word) => Ok(word),
            None => Err(AttrError { position: at + 2, kind: AttrErrorKind::MissingValue }),
        }
    }
}

/// The place of the first of `attrs` from place `from` on that has the
/// name `name`.
pub open spec fn first_with_path(attrs: Seq<Attribute>, name: Seq<char>, from: int) -> Option<int>
    decreases attrs.len() - from,
{
    if from < 0 || from >= attrs.len() {
        None
    } else if attrs[from].path@ == name {
        Some(from)
    } else {
        first_with_path(attrs, name, from + 1)
    }
}

/// The place of the first of `attrs` that has the name `name`.
pub fn find_attribute(attrs: &[Attribute], name: &str) -> (place: Option<usize>)
    ensures
        match place {
            Some(place) => first_with_path(attrs@, name@, 0) == Some(place as int) && place
                < attrs@.len(),
            None => first_with_path(attrs@, name@, 0) is None,
        },
{
    let mut i: usize = 0;
    while i < attrs.len()
        invariant
            i <= attrs.len(),
            first_with_path(attrs@, name@, 0) == first_with_path(attrs@, name@, i as int),
        decreases attrs.len() - i,
    {
        if same_text(attrs[i].path.as_str(), name) {
            return Some(i);
        }
        i += 1;
    }
    None
}

} // verus!
