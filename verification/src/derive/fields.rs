//! The fields of a struct or of a variant: the directives on a field, and
//! the statement that writes the field.
use crate::derive::input::Parsed;
use crate::derive::input::parsed;
use crate::derive::input::find_attribute;
use crate::derive::input::first_with_path;
use crate::derive::input::spec_value_at;
use crate::derive::input::tokens_view;
use crate::derive::input::value_at;
use crate::derive::input::AttrError;
use crate::derive::input::AttrErrorKind;
use crate::derive::input::AttrToken;
use crate::derive::input::Attribute;
use crate::derive::input::FieldDef;
use crate::derive::input::TokenView;
use crate::derive::utils::decimal;
use crate::derive::utils::decimal_text;
use crate::derive::utils::digest_with_path;
use crate::derive::utils::digestible_path;
use crate::derive::utils::same_text;
use crate::derive::utils::spec_digest_with_path;
use crate::derive::utils::spec_digestible_path;
use crate::derive::utils::texts;
use vstd::prelude::*;
use vstd::string::StringExecFns;

verus! {

/// The directives on a field.
#[derive(Debug, Default)]
pub struct FieldAttr {
    /// The field is left out of the encoding.
    pub skip: bool,
    /// The field is written as the type that it can be borrowed as.
    pub as_ref: Option<String>,
    /// The field is written by the function at this path, not by its own
    /// encoding.
    pub digest_with: Option<String>,
}

/// The directives on a field, as plain text.
pub struct FieldAttrView {
    pub skip: bool,
    pub as_ref: Option<Seq<char>>,
    pub digest_with: Option<Seq<char>>,
}

/// The text of `text`, if there is one.
pub open spec fn text_of(text: Option<String>) -> Option<Seq<char>> {
    match text {
        Some(text) => Some(text@),
        None => None,
    }
}

impl View for FieldAttr {
    type V = FieldAttrView;

    open spec fn view(&self) -> FieldAttrView {
        FieldAttrView {
            skip: self.skip,
            as_ref: text_of(self.as_ref),
            digest_with: text_of(self.digest_with),
        }
    }
}

/// The directives of a field that carries none.
pub open spec fn default_field_attr() -> FieldAttrView {
    FieldAttrView { skip: false, as_ref: None, digest_with: None }
}

/// The directives `attr` with one more way to write the field, at the
/// directive at place `at`: a conflict where it has one already.
pub open spec fn with_writer(attr: FieldAttrView, at: int, path: Seq<char>) -> Parsed<FieldAttrView> {
    if attr.digest_with is Some {
        Err((at, AttrErrorKind::Conflict))
    } else {
        Ok(FieldAttrView { digest_with: Some(path), ..attr })
    }
}

/// The directives that the pieces of `tokens` from place `at` on add to
/// `attr`. The directives stand one after the other, with nothing
/// between them:
///
/// - `skip` leaves the field out;
/// - `with = ` and a path has the function at the path write the field;
/// - `digest_with = ` and a path has one of the functions that the
///   library brings along write the field;
/// - `use_std_hash` has the field written as it hashes itself;
/// - `as_ref = ` and a type has the field written as that type.
///
/// A second way to write the field is a conflict.
pub open spec fn spec_parse_field(tokens: Seq<TokenView>, at: int, attr: FieldAttrView) -> Parsed<FieldAttrView>
    decreases tokens.len() - at,
{
    if at < 0 || at >= tokens.len() {
        Ok(attr)
    } else {
        match tokens[at] {
            TokenView::Word(word) => if word == "skip"@ {
                spec_parse_field(tokens, at + 1, FieldAttrView { skip: true, ..attr })
            } else if word == "use_std_hash"@ {
                match with_writer(attr, at, spec_digest_with_path("digest_with_hash"@)) {
                    Ok(next) => spec_parse_field(tokens, at + 1, next),
                    Err(error) => Err(error),
                }
            } else if word == "with"@ {
                match spec_value_at(tokens, at) {
                    Ok(path) => match with_writer(attr, at, path) {
                        Ok(next) => spec_parse_field(tokens, at + 3, next),
                        Err(error) => Err(error),
                    },
                    Err(error) => Err(error),
                }
            } else if word == "digest_with"@ {
                match spec_value_at(tokens, at) {
                    Ok(path) => match with_writer(attr, at, spec_digest_with_path(path)) {
                        Ok(next) => spec_parse_field(tokens, at + 3, next),
                        Err(error) => Err(error),
                    },
                    Err(error) => Err(error),
                }
            } else if word == "as_ref"@ {
                match spec_value_at(tokens, at) {
                    Ok(ty) => spec_parse_field(
                        tokens,
                        at + 3,
                        FieldAttrView { as_ref: Some(ty), ..attr },
                    ),
                    Err(error) => Err(error),
                }
            } else {
                Err((at, AttrErrorKind::UnknownKeyword))
            },
            _ => Err((at, AttrErrorKind::UnexpectedToken)),
        }
    }
}

impl FieldAttr {
    /// Reads the directives on a field from the arguments of its
    /// attribute.
    pub fn parse(tokens: &[AttrToken]) -> (attr: Result<FieldAttr, AttrError>)
        ensures
            parsed(attr) == spec_parse_field(
                tokens_view(tokens@),
                0,
                default_field_attr(),
            ),
    {
        let mut skip = false;
        let mut as_ref: Option<String> = None;
        let mut digest_with: Option<String> = None;
        let ghost view = tokens_view(tokens@);
        let mut at: usize = 0;
        while at < tokens.len()
            invariant
                view == tokens_view(tokens@),
                spec_parse_field(view, 0, default_field_attr()) == spec_parse_field(
                    view,
                    at as int,
                    (FieldAttr { skip, as_ref, digest_with })@,
                ),
            decreases tokens@.len() - at,
        {
            match &tokens[at] {
                AttrToken::Word(word) => {
                    if same_text(word.as_str(), "skip") {
                        skip = true;
                        at = at + 1;
                    } else if same_text(word.as_str(), "use_std_hash") {
                        if digest_with.is_some() {
                            return Err(AttrError { position: at, kind: AttrErrorKind::Conflict });
                        }
                        digest_with = Some(digest_with_path("digest_with_hash"));
                        at = at + 1;
                    } else if same_text(word.as_str(), "with") {
                        match value_at(tokens, at) {
                            Ok(path) => {
                                if digest_with.is_some() {
                                    return Err(
                                        AttrError { position: at, kind: AttrErrorKind::Conflict },
                                    );
                                }
                                digest_with = Some(path.clone());
                            },
                            Err(error) => {
                                return Err(error);
                            },
                        }
                        at = at + 3;
                    } else if same_text(word.as_str(), "digest_with") {
                        match value_at(tokens, at) {
                            Ok(path) => {
                                if digest_with.is_some() {
                                    return Err(
                                        AttrError { position: at, kind: AttrErrorKind::Conflict },
                                    );
                                }
                                digest_with = Some(digest_with_path(path.as_str()));
                            },
                            Err(error) => {
                                return Err(error);
                            },
                        }
                        at = at + 3;
                    } else if same_text(word.as_str(), "as_ref") {
                        match value_at(tokens, at) {
                            Ok(ty) => {
                                as_ref = Some(ty.clone());
                            },
                            Err(error) => {
                                return Err(error);
                            },
                        }
                        at = at + 3;
                    } else {
                        return Err(AttrError { position: at, kind: AttrErrorKind::UnknownKeyword });
                    }
                },
                _ => {
                    return Err(AttrError { position: at, kind: AttrErrorKind::UnexpectedToken });
                },
            }
        }
        Ok(FieldAttr { skip, as_ref, digest_with })
    }
}

/// A field of a struct or of a variant, ready to be written: its type,
/// the name under which the derived code holds it, its directives, and the
/// names that the derived code has for the byte order and for the sink.
#[derive(Debug)]
pub struct Field {
    pub ty: String,
    pub ident: String,
    pub attr: FieldAttr,
    pub endian: String,
    pub writer: String,
}

/// A field, as plain text.
pub struct FieldView {
    pub ty: Seq<char>,
    pub ident: Seq<char>,
    pub attr: FieldAttrView,
    pub endian: Seq<char>,
    pub writer: Seq<char>,
}

impl View for Field {
    type V = FieldView;

    open spec fn view(&self) -> FieldView {
        FieldView {
            ty: self.ty@,
            ident: self.ident@,
            attr: self.attr@,
            endian: self.endian@,
            writer: self.writer@,
        }
    }
}

/// The directives that the attributes of a field give: those of the first
/// attribute with the name `digestible`, or none.
pub open spec fn spec_field_attr(attrs: Seq<Attribute>) -> Parsed<FieldAttrView> {
    match first_with_path(attrs, "digestible"@, 0) {
        Some(place) => spec_parse_field(tokens_view(attrs[place].tokens@), 0, default_field_attr()),
        None => Ok(default_field_attr()),
    }
}

/// The name under which derived code holds a field: its own name, or
/// `field_` and its place among the fields where it has none.
pub open spec fn spec_field_ident(ident: Option<String>, index: nat) -> Seq<char> {
    match ident {
        Some(ident) => ident@,
        None => "field_"@ + decimal(index),
    }
}

/// The field that is made of the definition `field` at place `index`.
pub open spec fn spec_field(field: FieldDef, index: nat, endian: Seq<char>, writer: Seq<char>) -> Parsed<FieldView> {
    match spec_field_attr(field.attrs@) {
        Ok(attr) => Ok(
            FieldView {
                ty: field.ty@,
                ident: spec_field_ident(field.ident, index),
                attr,
                endian,
                writer,
            },
        ),
        Err(error) => Err(error),
    }
}

impl FieldView {
    /// The type that the field is written as.
    pub open spec fn written_type(self) -> Seq<char> {
        match self.attr.as_ref {
            Some(ty) => ty,
            None => self.ty,
        }
    }

    /// The expression that gives what is written.
    pub open spec fn variable_ref(self) -> Seq<char> {
        if self.attr.as_ref is Some {
            self.ident + ".as_ref()"@
        } else {
            self.ident
        }
    }

    /// The statement that writes the field: nothing for a field that is
    /// left out.
    pub open spec fn tokens(self) -> Seq<char> {
        if self.attr.skip {
            Seq::empty()
        } else {
            match self.attr.digest_with {
                Some(path) => path + "("@ + self.variable_ref() + ", "@ + self.endian + ", "@
                    + self.writer + "); "@,
                None => "<"@ + self.written_type() + " as "@ + spec_digestible_path()
                    + ">::digest("@ + self.variable_ref() + ", "@ + self.endian + ", "@
                    + self.writer + "); "@,
            }
        }
    }
}

impl Field {
    /// The field that is made of the definition `field` at place `index`
    /// among the fields.
    pub fn new(field: &FieldDef, index: usize, endian: &str, writer: &str) -> (made: Result<Field, AttrError>)
        ensures
            parsed(made) == spec_field(*field, index as nat, endian@, writer@),
    {
        let attr = match find_attribute(field.attrs.as_slice(), "digestible") {
            Some(place) => match FieldAttr::parse(field.attrs[place].tokens.as_slice()) {
                Ok(attr) => attr,
                Err(error) => {
                    return Err(error);
                },
            },
            None => FieldAttr { skip: false, as_ref: None, digest_with: None },
        };
        let ident = match &field.ident {
            Some(ident) => ident.clone(),
            None => {
                let mut ident = String::from_str("field_");
                ident.append(decimal_text(index).as_str());
                ident
            },
        };
        Ok(
            Field {
                ty: field.ty.clone(),
                ident,
                attr,
                endian: String::from_str(endian),
                writer: String::from_str(writer),
            },
        )
    }

    /// The statement that writes the field.
    pub fn to_tokens(&self) -> (text: String)
        ensures
            text@ == self@.tokens(),
    {
        if self.attr.skip {
            return String::new();
        }
        let ty = match &self.attr.as_ref {
            Some(as_ref) => as_ref.as_str(),
            None => self.ty.as_str(),
        };
        let mut variable_ref = self.ident.clone();
        if self.attr.as_ref.is_some() {
            variable_ref.append(".as_ref()");
        }
        let mut text = String::new();
        match &self.attr.digest_with {
            Some(digest_with) => {
                text.append(digest_with.as_str());
                proof {
                    assert(text@ =~= digest_with@);
                }
                text.append("(");
            },
            None => {
                text.append("<");
                proof {
                    assert(text@ =~= "<"@);
                }
                text.append(ty);
                text.append(" as ");
                text.append(digestible_path().as_str());
                text.append(">::digest(");
            },
        }
        text.append(variable_ref.as_str());
        text.append(", ");
        text.append(self.endian.as_str());
        text.append(", ");
        text.append(self.writer.as_str());
        text.append("); ");
        text
    }
}

/// The fields `fields`, as plain text.
pub open spec fn fields_view(fields: Seq<Field>) -> Seq<FieldView> {
    fields.map_values(|field: Field| field@)
}

/// The fields that are made of the definitions `defs`, each at its place,
/// or the first error among them.
pub open spec fn spec_fields(defs: Seq<FieldDef>, endian: Seq<char>, writer: Seq<char>) -> Parsed<Seq<FieldView>>
    decreases defs.len(),
{
    if defs.len() == 0 {
        Ok(Seq::empty())
    } else {
        match spec_fields(defs.drop_last(), endian, writer) {
            Ok(front) => match spec_field(defs.last(), (defs.len() - 1) as nat, endian, writer) {
                Ok(field) => Ok(front.push(field)),
                Err(error) => Err(error),
            },
            Err(error) => Err(error),
        }
    }
}

/// What `outcome` says of a list of fields, as plain text.
pub open spec fn fields_outcome(outcome: Result<Vec<Field>, AttrError>) -> Parsed<Seq<FieldView>> {
    match outcome {
        Ok(fields) => Ok(fields_view(fields@)),
        Err(error) => Err((error.position as int, error.kind)),
    }
}

/// The fields that are made of the definitions `defs`.
pub fn make_fields(defs: &Vec<FieldDef>, endian: &str, writer: &str) -> (made: Result<Vec<Field>, AttrError>)
    ensures
        fields_outcome(made) == spec_fields(defs@, endian@, writer@),
{
    let mut fields: Vec<Field> = Vec::new();
    let mut index: usize = 0;
    proof {
        assert(fields_view(fields@) =~= Seq::<FieldView>::empty());
        assert(defs@.take(0).len() == 0);
    }
    while index < defs.len()
        invariant
            index <= defs.len(),
            spec_fields(defs@.take(index as int), endian@, writer@) == Ok::<Seq<FieldView>, (int, AttrErrorKind)>(fields_view(fields@)),
        decreases defs.len() - index,
    {
        proof {
            assert(defs@.take(index + 1).drop_last() =~= defs@.take(index as int));
        }
        match Field::new(&defs[index], index, endian, writer) {
            Ok(field) => {
                let ghost before = fields@;
                fields.push(field);
                proof {
                    assert(fields_view(fields@) =~= fields_view(before).push(field@));
                }
            },
            Err(error) => {
                proof {
                    lemma_first_error_stays(defs@, index as int + 1, endian@, writer@);
                }
                return Err(error);
            },
        }
        index += 1;
    }
    proof {
        assert(defs@.take(index as int) =~= defs@);
    }
    Ok(fields)
}

/// An error among the first definitions is the error of the whole list.
pub proof fn lemma_first_error_stays(
    defs: Seq<FieldDef>,
    upto: int,
    endian: Seq<char>,
    writer: Seq<char>,
)
    requires
        0 <= upto <= defs.len(),
        spec_fields(defs.take(upto), endian, writer) is Err,
    ensures
        spec_fields(defs, endian, writer) == spec_fields(defs.take(upto), endian, writer),
    decreases defs.len() - upto,
{
    if upto < defs.len() {
        assert(defs.take(upto + 1).drop_last() =~= defs.take(upto));
        lemma_first_error_stays(defs, upto + 1, endian, writer);
    } else {
        assert(defs.take(upto) =~= defs);
    }
}

/// The statements that write the fields `fields`, one after the other.
pub open spec fn fields_tokens(fields: Seq<FieldView>) -> Seq<char>
    decreases fields.len(),
{
    if fields.len() == 0 {
        Seq::empty()
    } else {
        fields_tokens(fields.drop_last()) + fields.last().tokens()
    }
}

/// The statements that write the fields `fields`, one after the other.
pub fn all_tokens(fields: &Vec<Field>) -> (text: String)
    ensures
        text@ == fields_tokens(fields_view(fields@)),
{
    let mut text = String::new();
    let mut i: usize = 0;
    while i < fields.len()
        invariant
            i <= fields.len(),
            text@ == fields_tokens(fields_view(fields@).take(i as int)),
        decreases fields.len() - i,
    {
        proof {
            assert(fields_view(fields@).take(i + 1).drop_last() =~= fields_view(fields@).take(
                i as int,
            ));
        }
        text.append(fields[i].to_tokens().as_str());
        i += 1;
    }
    proof {
        assert(fields_view(fields@).take(i as int) =~= fields_view(fields@));
    }
    text
}

/// The names under which derived code holds the fields `fields`.
pub open spec fn field_idents(fields: Seq<FieldView>) -> Seq<Seq<char>> {
    fields.map_values(|field: FieldView| field.ident)
}

/// The names under which derived code holds the fields `fields`.
pub fn field_names(fields: &Vec<Field>) -> (names: Vec<String>)
    ensures
        texts(names@) == field_idents(fields_view(fields@)),
{
    let mut names: Vec<String> = Vec::new();
    let mut i: usize = 0;
    while i < fields.len()
        invariant
            i <= fields.len(),
            texts(names@) == field_idents(fields_view(fields@).take(i as int)),
        decreases fields.len() - i,
    {
        let ghost before = names@;
        names.push(fields[i].ident.clone());
        proof {
            assert(texts(names@) =~= texts(before).push(fields@[i as int].ident@));
            assert(field_idents(fields_view(fields@).take(i + 1)) =~= field_idents(
                fields_view(fields@).take(i as int),
            ).push(fields@[i as int].ident@));
        }
        i += 1;
    }
    proof {
        assert(fields_view(fields@).take(i as int) =~= fields_view(fields@));
    }
    names
}

} // verus!
