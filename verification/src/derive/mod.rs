//! What stands behind deriving an encoding for a struct or an enum: the
//! definition as it is read, the directives that it can carry, and the
//! text of the implementation that they lead to.
pub mod container_attrs;
pub mod expand_enum;
pub mod expand_struct;
pub mod fields;
pub mod input;
pub mod utils;

use crate::derive::expand_enum::spec_expand_enum;
use crate::derive::expand_struct::spec_expand_struct;
use crate::derive::input::AttrError;
use crate::derive::input::AttrErrorKind;
use crate::derive::input::Data;
use crate::derive::input::DeriveInput;
use crate::derive::utils::decimal;
use crate::derive::utils::decimal_text;
use vstd::prelude::*;
use vstd::string::StringExecFns;

verus! {

/// Why no implementation can be derived for a definition.
#[derive(Debug, Clone, Copy, PartialEq, Eq, Structural)]
pub enum DeriveError {
    /// A directive of the definition or of one of its fields is wrong.
    Attr(AttrError),
    /// The definition is neither a struct nor an enum.
    Unsupported,
}

/// What is wrong with a directive, in words.
pub open spec fn spec_kind_message(kind: AttrErrorKind) -> Seq<char> {
    match kind {
        AttrErrorKind::UnknownKeyword => "unknown directive"@,
        AttrErrorKind::UnexpectedToken => "a directive must start with a keyword"@,
        AttrErrorKind::MissingEquals => "expected `=` after the keyword"@,
        AttrErrorKind::MissingValue => "expected a value after `=`"@,
        AttrErrorKind::UnexpectedEnd => "expected a directive after the comma"@,
        AttrErrorKind::Conflict => "the field has a way to be written already"@,
    }
}

/// The message of an error.
pub open spec fn spec_message(error: DeriveError) -> Seq<char> {
    match error {
        DeriveError::Attr(error) => spec_kind_message(error.kind) + " (argument "@ + decimal(
            error.position as nat,
        ) + ")"@,
        DeriveError::Unsupported => "digestible can only be derived for structs and enums"@,
    }
}

/// The text that makes the compiler report the message `message`.
pub open spec fn spec_compile_error(message: Seq<char>) -> Seq<char> {
    "::core::compile_error!(\""@ + message + "\");"@
}

impl DeriveError {
    /// The message of the error.
    pub fn message(&self) -> (text: String)
        ensures
            text@ == spec_message(*self),
    {
        match self {
            DeriveError::Attr(error) => {
                let mut text = String::from_str(
                    match error.kind {
                        AttrErrorKind::UnknownKeyword => "unknown directive",
                        AttrErrorKind::UnexpectedToken => "a directive must start with a keyword",
                        AttrErrorKind::MissingEquals => "expected `=` after the keyword",
                        AttrErrorKind::MissingValue => "expected a value after `=`",
                        AttrErrorKind::UnexpectedEnd => "expected a directive after the comma",
                        AttrErrorKind::Conflict => "the field has a way to be written already",
                    },
                );
                text.append(" (argument ");
                text.append(decimal_text(error.position).as_str());
                text.append(")");
                text
            },
            DeriveError::Unsupported => String::from_str(
                "digestible can only be derived for structs and enums",
            ),
        }
    }

    /// The text that makes the compiler report the error.
    pub fn to_compile_error(&self) -> (text: String)
        ensures
            text@ == spec_compile_error(spec_message(*self)),
    {
        let mut text = String::from_str("::core::compile_error!(\"");
        text.append(self.message().as_str());
        text.append("\");");
        text
    }
}

/// The implementation that is derived for `input`, or why there is none:
/// a struct and an enum have one unless a directive is wrong; anything
/// else has none.
pub open spec fn spec_expand(input: DeriveInput) -> Result<Seq<char>, DeriveError> {
    match input.data {
        Data::Struct { .. } => match spec_expand_struct(input) {
            Ok(text) => Ok(text),
            Err((position, kind)) => Err(
                DeriveError::Attr(AttrError { position: position as usize, kind }),
            ),
        },
        Data::Enum { .. } => match spec_expand_enum(input) {
            Ok(text) => Ok(text),
            Err((position, kind)) => Err(
                DeriveError::Attr(AttrError { position: position as usize, kind }),
            ),
        },
        Data::Union => Err(DeriveError::Unsupported),
    }
}

/// What `outcome` says of a text.
pub open spec fn expand_outcome(outcome: Result<String, DeriveError>) -> Result<
    Seq<char>,
    DeriveError,
> {
    match outcome {
        Ok(text) => Ok(text@),
        Err(error) => Err(error),
    }
}

/// The implementation that is derived for `input`, or why there is none.
pub fn expand(input: DeriveInput) -> (expanded: Result<String, DeriveError>)
    ensures
        expand_outcome(expanded) == spec_expand(input),
{
    match &input.data {
        Data::Struct { .. } => match expand_struct::expand(input) {
            Ok(text) => Ok(text),
            Err(error) => Err(DeriveError::Attr(error)),
        },
        Data::Enum { .. } => match expand_enum::expand(input) {
            Ok(text) => Ok(text),
            Err(error) => Err(DeriveError::Attr(error)),
        },
        Data::Union => Err(DeriveError::Unsupported),
    }
}

/// What deriving puts in the place of the definition `input`: the
/// implementation, or the text that makes the compiler report why there
/// is none.
pub fn digestible(input: DeriveInput) -> (text: String)
    ensures
        text@ == match spec_expand(input) {
            Ok(text) => text,
            Err(error) => spec_compile_error(spec_message(error)),
        },
{
    match expand(input) {
        Ok(text) => text,
        Err(error) => error.to_compile_error(),
    }
}

} // verus!
