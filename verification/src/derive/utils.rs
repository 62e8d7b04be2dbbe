//! The names that derived code refers to, and the pieces of text that all
//! derived code shares.
use crate::derive::input::GenericParam;
use crate::derive::input::Generics;
use crate::derive::input::ParamKind;
use vstd::prelude::*;
use vstd::string::StringExecFns;

verus! {

/// The texts of `items`.
pub open spec fn texts(items: Seq<String>) -> Seq<Seq<char>> {
    items.map_values(|item: String| item@)
}

/// The texts of `items` with `separator` between each two.
pub open spec fn joined(items: Seq<Seq<char>>, separator: Seq<char>) -> Seq<char>
    decreases items.len(),
{
    if items.len() == 0 {
        Seq::empty()
    } else if items.len() == 1 {
        items[0]
    } else {
        joined(items.drop_last(), separator) + separator + items.last()
    }
}

/// Whether two texts are the same.
pub fn same_text(a: &str, b: &str) -> (same: bool)
    ensures
        same == (a@ == b@),
{
    String::from_str(a) == String::from_str(b)
}

/// The texts of `items` with `separator` between each two.
pub fn join(items: &Vec<String>, separator: &str) -> (text: String)
    ensures
        text@ == joined(texts(items@), separator@),
{
    let mut text = String::new();
    let mut i: usize = 0;
    while i < items.len()
        invariant
            i <= items.len(),
            text@ == joined(texts(items@).take(i as int), separator@),
        decreases items.len() - i,
    {
        let ghost before = texts(items@).take(i as int);
        let ghost after = texts(items@).take(i + 1);
        proof {
            assert(after.drop_last() =~= before);
            assert(after.last() == items@[i as int]@);
        }
        if i > 0 {
            text.append(separator);
        } else {
            proof {
                assert(text@ + items@[i as int]@ =~= items@[i as int]@);
            }
        }
        text.append(items[i].as_str());
        i += 1;
    }
    proof {
        assert(texts(items@).take(i as int) =~= texts(items@));
    }
    text
}

/// The path of the trait of values that can write their encoding.
pub open spec fn spec_digestible_path() -> Seq<char> {
    "_digestible::digestible::Digestible"@
}

pub fn digestible_path() -> (path: String)
    ensures
        path@ == spec_digestible_path(),
{
    String::from_str("_digestible::digestible::Digestible")
}

/// The path of the trait of byte sinks.
pub open spec fn spec_digest_writer() -> Seq<char> {
    "_digestible::digester_writer::DigestWriter"@
}

pub fn digest_writer() -> (path: String)
    ensures
        path@ == spec_digest_writer(),
{
    String::from_str("_digestible::digester_writer::DigestWriter")
}

/// The path of one of the ways to write a field that the library brings
/// along.
pub open spec fn spec_digest_with_path(path: Seq<char>) -> Seq<char> {
    "_digestible::digest_with::"@ + path
}

pub fn digest_with_path(path: &str) -> (full: String)
    ensures
        full@ == spec_digest_with_path(path@),
{
    let mut full = String::from_str("_digestible::digest_with::");
    full.append(path);
    full
}

/// The path of the sink that stands in front of a hasher.
pub open spec fn spec_digester_using_hasher() -> Seq<char> {
    "_digestible::hash_digester::DigesterUsingHasher"@
}

pub fn digester_using_hasher() -> (path: String)
    ensures
        path@ == spec_digester_using_hasher(),
{
    String::from_str("_digestible::hash_digester::DigesterUsingHasher")
}

/// The path of the type of byte orders.
pub open spec fn spec_byte_order_path() -> Seq<char> {
    "_digestible::byte_order::ByteOrder"@
}

pub fn byte_order_path() -> (path: String)
    ensures
        path@ == spec_byte_order_path(),
{
    String::from_str("_digestible::byte_order::ByteOrder")
}

/// The expression that gives the byte order of the name `ident`. The
/// order of the network is the big-endian one; the order of the machine
/// is found when the code runs; any other name is taken for a byte order
/// as it stands.
pub open spec fn spec_byte_order_impl_path(ident: Seq<char>) -> Seq<char> {
    if ident == "NativeEndian"@ {
        "_digestible::byte_order::ByteOrder::native()"@
    } else if ident == "NetworkEndian"@ {
        "_digestible::byte_order::ByteOrder::BigEndian"@
    } else {
        "_digestible::byte_order::ByteOrder::"@ + ident
    }
}

pub fn byte_order_impl_path(ident: &str) -> (path: String)
    ensures
        path@ == spec_byte_order_impl_path(ident@),
{
    if same_text(ident, "NativeEndian") {
        String::from_str("_digestible::byte_order::ByteOrder::native()")
    } else if same_text(ident, "NetworkEndian") {
        String::from_str("_digestible::byte_order::ByteOrder::BigEndian")
    } else {
        let mut path = String::from_str("_digestible::byte_order::ByteOrder::");
        path.append(ident);
        path
    }
}

/// The decimal digit for `digit`, which is below ten.
pub open spec fn digit_char(digit: nat) -> char {
    if digit == 0 {
        '0'
    } else if digit == 1 {
        '1'
    } else if digit == 2 {
        '2'
    } else if digit == 3 {
        '3'
    } else if digit == 4 {
        '4'
    } else if digit == 5 {
        '5'
    } else if digit == 6 {
        '6'
    } else if digit == 7 {
        '7'
    } else if digit == 8 {
        '8'
    } else {
        '9'
    }
}

/// The number `n` in decimal digits, without leading zeros.
pub open spec fn decimal(n: nat) -> Seq<char>
    decreases n,
{
    if n < 10 {
        seq![digit_char(n)]
    } else {
        decimal(n / 10).push(digit_char(n % 10))
    }
}

fn digit_text(digit: usize) -> (text: &'static str)
    requires
        digit < 10,
    ensures
        text@ == seq![digit_char(digit as nat)],
{
    proof {
        reveal_strlit("0");
        reveal_strlit("1");
        reveal_strlit("2");
        reveal_strlit("3");
        reveal_strlit("4");
        reveal_strlit("5");
        reveal_strlit("6");
        reveal_strlit("7");
        reveal_strlit("8");
        reveal_strlit("9");
    }
    let text = if digit == 0 {
        "0"
    } else if digit == 1 {
        "1"
    } else if digit == 2 {
        "2"
    } else if digit == 3 {
        "3"
    } else if digit == 4 {
        "4"
    } else if digit == 5 {
        "5"
    } else if digit == 6 {
        "6"
    } else if digit == 7 {
        "7"
    } else if digit == 8 {
        "8"
    } else {
        "9"
    };
    proof {
        assert(text@ =~= seq![digit_char(digit as nat)]);
    }
    text
}

/// The number `n` in decimal digits.
pub fn decimal_text(n: usize) -> (text: String)
    ensures
        text@ == decimal(n as nat),
    decreases n,
{
    if n < 10 {
        String::from_str(digit_text(n))
    } else {
        let mut text = decimal_text(n / 10);
        text.append(digit_text(n % 10));
        proof {
            assert(decimal((n / 10) as nat) + seq![digit_char((n % 10) as nat)] =~= decimal(
                (n / 10) as nat,
            ).push(digit_char((n % 10) as nat)));
        }
        text
    }
}

/// A generic parameter, as plain text.
pub struct GenericParamView {
    pub kind: ParamKind,
    pub name: Seq<char>,
    pub bounds: Seq<Seq<char>>,
}

impl View for GenericParam {
    type V = GenericParamView;

    open spec fn view(&self) -> GenericParamView {
        GenericParamView { kind: self.kind, name: self.name@, bounds: texts(self.bounds@) }
    }
}

/// The generic parameters `params`, as plain text.
pub open spec fn params_view(params: Seq<GenericParam>) -> Seq<GenericParamView> {
    params.map_values(|param: GenericParam| param@)
}

impl GenericParamView {
    /// The parameter with the bound that derived code needs: a type must
    /// be able to write its encoding. Lifetimes and constants stay as they
    /// are.
    pub open spec fn with_digestible(self) -> GenericParamView {
        if self.kind == ParamKind::Type {
            GenericParamView { bounds: self.bounds.push(spec_digestible_path()), ..self }
        } else {
            self
        }
    }

    /// The parameter as it is declared: with its bounds, and a constant
    /// with `const` and its type.
    pub open spec fn declaration(self) -> Seq<char> {
        if self.kind == ParamKind::Const {
            "const "@ + self.name + ": "@ + joined(self.bounds, " + "@)
        } else if self.bounds.len() == 0 {
            self.name
        } else {
            self.name + ": "@ + joined(self.bounds, " + "@)
        }
    }
}

/// The generic parameters as they stand behind `impl`: in angle brackets
/// with their bounds, or nothing where there are none.
pub open spec fn spec_impl_generics(params: Seq<GenericParamView>) -> Seq<char> {
    if params.len() == 0 {
        Seq::empty()
    } else {
        "<"@ + joined(params.map_values(|param: GenericParamView| param.declaration()), ", "@)
            + ">"@
    }
}

/// The generic parameters as they stand behind the name of the type: the
/// names in angle brackets, or nothing where there are none.
pub open spec fn spec_ty_generics(params: Seq<GenericParamView>) -> Seq<char> {
    if params.len() == 0 {
        Seq::empty()
    } else {
        "<"@ + joined(params.map_values(|param: GenericParamView| param.name), ", "@) + ">"@
    }
}

/// Gives every type among the generic parameters the bound that derived
/// code needs.
pub fn add_digestible_trait(generics: &mut Generics)
    ensures
        params_view(final(generics).params@) == params_view(old(generics).params@).map_values(
            |param: GenericParamView| param.with_digestible(),
        ),
        final(generics).where_clause == old(generics).where_clause,
{
    let mut params: Vec<GenericParam> = Vec::new();
    let mut i: usize = 0;
    while i < generics.params.len()
        invariant
            i <= generics.params.len(),
            *generics == *old(generics),
            params_view(params@) == params_view(generics.params@).take(i as int).map_values(
                |param: GenericParamView| param.with_digestible(),
            ),
        decreases generics.params.len() - i,
    {
        let param = &generics.params[i];
        let mut bounds = param.bounds.clone();
        proof {
            assert(texts(bounds@) =~= texts(param.bounds@)) by {
                assert(bounds@.len() == param.bounds@.len());
                assert forall|k: int| 0 <= k < bounds@.len() implies bounds@[k]@
                    == param.bounds@[k]@ by {
                    assert(vstd::pervasive::cloned(param.bounds@[k], bounds@[k]));
                }
            }
        }
        if let ParamKind::Type = param.kind {
            let ghost before = bounds@;
            bounds.push(digestible_path());
            proof {
                assert(texts(bounds@) =~= texts(before).push(spec_digestible_path()));
            }
        }
        let ghost before = params@;
        params.push(GenericParam { kind: param.kind, name: param.name.clone(), bounds });
        proof {
            assert(params_view(params@) =~= params_view(before).push(param@.with_digestible()));
            assert(params_view(generics.params@).take(i + 1) =~= params_view(
                generics.params@,
            ).take(i as int).push(param@));
            assert(params_view(generics.params@).take(i + 1).map_values(
                |param: GenericParamView| param.with_digestible(),
            ) =~= params_view(generics.params@).take(i as int).map_values(
                |param: GenericParamView| param.with_digestible(),
            ).push(param@.with_digestible()));
        }
        i += 1;
    }
    proof {
        assert(params_view(generics.params@).take(i as int) =~= params_view(generics.params@));
    }
    generics.params = params;
}

/// The declaration of a generic parameter.
pub fn declaration(param: &GenericParam) -> (text: String)
    ensures
        text@ == param@.declaration(),
{
    let bounds = join(&param.bounds, " + ");
    match param.kind {
        ParamKind::Const => {
            let mut text = String::from_str("const ");
            text.append(param.name.as_str());
            text.append(": ");
            text.append(bounds.as_str());
            text
        },
        _ => {
            let mut text = param.name.clone();
            if param.bounds.len() > 0 {
                text.append(": ");
                text.append(bounds.as_str());
            }
            text
        },
    }
}

/// The generic parameters as they stand behind `impl`.
pub fn impl_generics(params: &Vec<GenericParam>) -> (text: String)
    ensures
        text@ == spec_impl_generics(params_view(params@)),
{
    if params.len() == 0 {
        return String::new();
    }
    let mut declarations: Vec<String> = Vec::new();
    let mut i: usize = 0;
    while i < params.len()
        invariant
            i <= params.len(),
            texts(declarations@) == params_view(params@).take(i as int).map_values(
                |param: GenericParamView| param.declaration(),
            ),
        decreases params.len() - i,
    {
        let ghost before = declarations@;
        declarations.push(declaration(&params[i]));
        proof {
            assert(texts(declarations@) =~= texts(before).push(params@[i as int]@.declaration()));
            assert(params_view(params@).take(i + 1).map_values(
                |param: GenericParamView| param.declaration(),
            ) =~= params_view(params@).take(i as int).map_values(
                |param: GenericParamView| param.declaration(),
            ).push(params@[i as int]@.declaration()));
        }
        i += 1;
    }
    proof {
        assert(params_view(params@).take(i as int) =~= params_view(params@));
    }
    let mut text = String::from_str("<");
    text.append(join(&declarations, ", ").as_str());
    text.append(">");
    text
}

/// The generic parameters as they stand behind the name of the type.
pub fn ty_generics(params: &Vec<GenericParam>) -> (text: String)
    ensures
        text@ == spec_ty_generics(params_view(params@)),
{
    if params.len() == 0 {
        return String::new();
    }
    let mut names: Vec<String> = Vec::new();
    let mut i: usize = 0;
    while i < params.len()
        invariant
            i <= params.len(),
            texts(names@) == params_view(params@).take(i as int).map_values(
                |param: GenericParamView| param.name,
            ),
        decreases params.len() - i,
    {
        let ghost before = names@;
        names.push(params[i].name.clone());
        proof {
            assert(texts(names@) =~= texts(before).push(params@[i as int]@.name));
            assert(params_view(params@).take(i + 1).map_values(
                |param: GenericParamView| param.name,
            ) =~= params_view(params@).take(i as int).map_values(
                |param: GenericParamView| param.name,
            ).push(params@[i as int]@.name));
        }
        i += 1;
    }
    proof {
        assert(params_view(params@).take(i as int) =~= params_view(params@));
    }
    let mut text = String::from_str("<");
    text.append(join(&names, ", ").as_str());
    text.append(">");
    text
}

/// The implementation of hashing for a type that is to hash itself as it
/// encodes itself: a sink is put in front of the hasher, and the value
/// writes its encoding under the given byte order to it.
pub open spec fn spec_impl_hash(
    container: Seq<char>,
    endian_path: Seq<char>,
    impl_generics: Seq<char>,
    ty_generics: Seq<char>,
    where_clause: Seq<char>,
) -> Seq<char> {
    "#[automatically_derived] impl"@ + impl_generics + " ::core::hash::Hash for "@ + container
        + ty_generics + where_clause
        + " { fn hash<H: ::core::hash::Hasher>(&self, state: &mut H) { let mut digester = "@
        + spec_digester_using_hasher() + "::new(state); <Self as "@ + spec_digestible_path()
        + ">::digest(self, "@ + endian_path + ", &mut digester); } } "@
}

pub fn impl_hash(
    container: &str,
    endian_path: &str,
    impl_generics: &str,
    ty_generics: &str,
    where_clause: &str,
) -> (text: String)
    ensures
        text@ == spec_impl_hash(
            container@,
            endian_path@,
            impl_generics@,
            ty_generics@,
            where_clause@,
        ),
{
    let mut text = String::from_str("#[automatically_derived] impl");
    text.append(impl_generics);
    text.append(" ::core::hash::Hash for ");
    text.append(container);
    text.append(ty_generics);
    text.append(where_clause);
    text.append(
        " { fn hash<H: ::core::hash::Hasher>(&self, state: &mut H) { let mut digester = ",
    );
    text.append(digester_using_hasher().as_str());
    text.append("::new(state); <Self as ");
    text.append(digestible_path().as_str());
    text.append(">::digest(self, ");
    text.append(endian_path);
    text.append(", &mut digester); } } ");
    text
}

/// The `where` clause as it stands behind the name of the type: with a
/// space in front of it, or nothing where there is none.
pub open spec fn spec_where_clause(text: Seq<char>) -> Seq<char> {
    if text.len() == 0 {
        Seq::empty()
    } else {
        " "@ + text
    }
}

pub fn where_clause(text: &str) -> (clause: String)
    ensures
        clause@ == spec_where_clause(text@),
{
    let mut clause = String::new();
    if text.unicode_len() > 0 {
        clause.append(" ");
        proof {
            assert(clause@ =~= " "@);
        }
        clause.append(text);
    }
    clause
}

/// The text that every derived implementation starts with, up to the
/// body of the function that writes the encoding. A derived
/// implementation promises nothing of the bytes that it writes but that
/// they come behind those that the sink held.
pub open spec fn spec_impl_open(
    ident: Seq<char>,
    impl_generics: Seq<char>,
    ty_generics: Seq<char>,
    where_clause: Seq<char>,
) -> Seq<char> {
    "const _: () = { #[allow(unused_extern_crates, clippy::useless_attribute)] extern crate digestible as _digestible; ::vstd::prelude::verus! { #[automatically_derived] impl"@
        + impl_generics + " "@ + spec_digestible_path() + " for "@ + ident + ty_generics
        + where_clause
        + " { open spec fn deterministic(&self) -> bool { false } open spec fn encoding(&self, order: "@
        + spec_byte_order_path()
        + ") -> ::vstd::seq::Seq<u8> { ::vstd::seq::Seq::empty() } #[verifier::external_body] fn digest<W: "@
        + spec_digest_writer() + ">(&self, order: "@ + spec_byte_order_path()
        + ", writer: &mut W) { "@
}

pub fn impl_open(
    ident: &str,
    impl_generics: &str,
    ty_generics: &str,
    where_clause: &str,
) -> (text: String)
    ensures
        text@ == spec_impl_open(ident@, impl_generics@, ty_generics@, where_clause@),
{
    let mut text = String::from_str(
        "const _: () = { #[allow(unused_extern_crates, clippy::useless_attribute)] extern crate digestible as _digestible; ::vstd::prelude::verus! { #[automatically_derived] impl",
    );
    text.append(impl_generics);
    text.append(" ");
    text.append(digestible_path().as_str());
    text.append(" for ");
    text.append(ident);
    text.append(ty_generics);
    text.append(where_clause);
    text.append(
        " { open spec fn deterministic(&self) -> bool { false } open spec fn encoding(&self, order: ",
    );
    text.append(byte_order_path().as_str());
    text.append(
        ") -> ::vstd::seq::Seq<u8> { ::vstd::seq::Seq::empty() } #[verifier::external_body] fn digest<W: ",
    );
    text.append(digest_writer().as_str());
    text.append(">(&self, order: ");
    text.append(byte_order_path().as_str());
    text.append(", writer: &mut W) { ");
    text
}

/// The text that every derived implementation ends with: the end of the
/// function and of the implementation, and the implementation of hashing
/// if there is one.
pub open spec fn spec_impl_close(impl_hash: Seq<char>) -> Seq<char> {
    "} } } "@ + impl_hash + "};"@
}

pub fn impl_close(impl_hash: &str) -> (text: String)
    ensures
        text@ == spec_impl_close(impl_hash@),
{
    let mut text = String::from_str("} } } ");
    text.append(impl_hash);
    text.append("};");
    text
}

} // verus!
