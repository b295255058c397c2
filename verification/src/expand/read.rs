//! Reading the text that the attributes and the block macros receive: the
//! argument list of an attribute, the item it stands on, the body of a
//! block. `syn` does the parsing, piece by piece; what the rules need of the
//! syntax comes back as the plain models of `args` and `attrs`.
//!
//! Little is stated of what `syn` gives back (only, of `read_bound`, that a
//! plain ASCII trait path keeps its segments): `proc-macro2` lexes and
//! prints tokens with the compiler inside a procedural macro and with its
//! own code elsewhere, so the same text need not give the same answer in
//! every process. What each read gave is handed, as it came back, to the
//! functions of `input` and `plan`, which are verified for every value of
//! it; the reading function gives the reads back with what they give.

use vstd::prelude::*;
use vstd::string::StringExecFns;

use proc_macro2::TokenStream;
use quote::ToTokens;
use syn::parse::Parser;
use syn::punctuated::Punctuated;
use syn::token::Comma;
use syn::{
    AngleBracketedGenericArguments, Expr, FnArg, GenericArgument, Ident, Item, Pat, Path,
    ReturnType, Type, TypeParamBound,
};

use super::args::{ArgPattern, FnArgShape};
use super::attrs::{bound_name, BoundShape, ReturnShape};
use super::input::{
    bound_read, fn_input_from, fn_read_from, FnReads, MetaExprRead, PathRead, PathSegmentRead,
};

verus! {

/// The pieces of a function item, as token text.
#[derive(Debug, Clone, PartialEq, Eq)]
pub struct FnParts {
    /// Each argument.
    pub args: Vec<String>,
    /// The return type, where the function names one.
    pub output: Option<String>,
    /// Whether it is variadic.
    pub variadic: bool,
}

/// What the text of an item holds.
#[derive(Debug, Clone, PartialEq, Eq)]
pub enum ItemRead {
    /// It does not parse as an item.
    NotParsed,
    /// It is an item other than a function.
    NotFunction,
    /// It is a function item.
    Function(FnParts),
}

/// A segment of a path: its identifier, and the token text of its generic
/// arguments (empty where it has none).
#[derive(Debug, Clone, PartialEq, Eq)]
pub struct SegmentShape {
    pub name: String,
    pub args: String,
}

/// The shape of a type, with the token text of its bounds.
#[derive(Debug, Clone, PartialEq, Eq)]
pub enum TypeShape {
    /// A path type, with its segments.
    Path(Vec<SegmentShape>),
    /// An `impl Trait` type, with each bound.
    ImplTrait(Vec<String>),
    /// A trait object, with each bound.
    TraitObject(Vec<String>),
    /// Any other type.
    Other,
}

/// What the rules need of a function item.
#[derive(Debug, Clone, PartialEq, Eq)]
pub struct FnInput {
    /// Its arguments.
    pub args: Vec<FnArgShape>,
    /// Its return type (`Other` where it names none).
    pub output: ReturnShape,
    /// Whether it is variadic.
    pub variadic: bool,
}

/// What the text of an item gives the rules.
#[derive(Debug, Clone, PartialEq, Eq)]
pub enum FnRead {
    /// It, or one of its pieces, does not parse.
    NotParsed,
    /// It is an item other than a function.
    NotFunction,
    /// It is a function item.
    Function(FnInput),
}

/// Parses the text with `Punctuated::<Ident, Comma>::parse_terminated` and
/// gives the identifiers' names, or `None` where the text is no such list.
/// Nothing is stated of the result (see the module's comment).
#[verifier::external_body]
pub(crate) fn read_attr_args(attribute: &str) -> Option<Vec<String>> {
    let args = Punctuated::<Ident, Comma>::parse_terminated.parse_str(attribute).ok()?;
    Some(args.iter().map(ToString::to_string).collect())
}

/// Parses the text with `syn::parse_str::<Item>`; for a function item, gives
/// the token text of each argument and of the return type, and whether it is
/// variadic. Nothing is stated of the result (see the module's comment).
#[verifier::external_body]
pub(crate) fn read_item(function: &str) -> ItemRead {
    let f = match syn::parse_str::<Item>(function) {
        Err(_) => return ItemRead::NotParsed,
        Ok(Item::Fn(f)) => f,
        Ok(_) => return ItemRead::NotFunction,
    };
    let args: Vec<TokenStream> = f.sig.inputs.iter().map(ToTokens::to_token_stream).collect();
    let output = match &f.sig.output {
        ReturnType::Type(_, t) => Some(t.to_token_stream().to_string()),
        ReturnType::Default => None,
    };
    let args = args.iter().map(ToString::to_string).collect();
    ItemRead::Function(FnParts { args, output, variadic: f.sig.variadic.is_some() })
}

/// Parses the text with `syn::parse_str::<FnArg>` and reads the variant of
/// the argument and of its pattern. Nothing is stated of the result (see the
/// module's comment).
#[verifier::external_body]
pub(crate) fn read_fn_arg(arg: &str) -> Option<FnArgShape> {
    Some(match syn::parse_str::<FnArg>(arg).ok()? {
        FnArg::Receiver(_) => FnArgShape::Receiver,
        FnArg::Typed(t) => FnArgShape::Typed(match *t.pat {
            Pat::Ident(p) => ArgPattern::Ident { name: p.ident.to_string(), by_ref: p.by_ref.is_some() },
            _ => ArgPattern::Other,
        }),
    })
}

/// Parses the text with `syn::parse_str::<Type>` and reads the variant of the
/// type, with the segments of a path and the token text of bounds. Nothing
/// is stated of the result (see the module's comment).
#[verifier::external_body]
pub(crate) fn read_type(text: &str) -> Option<TypeShape> {
    Some(match syn::parse_str::<Type>(text).ok()? {
        Type::Path(p) => TypeShape::Path(p.path.segments.iter().map(|s| SegmentShape {
            name: s.ident.to_string(),
            args: s.arguments.to_token_stream().to_string(),
        }).collect()),
        Type::ImplTrait(i) => TypeShape::ImplTrait(i.bounds.iter().map(|b| b.to_token_stream().to_string()).collect()),
        Type::TraitObject(o) => TypeShape::TraitObject(o.bounds.iter().map(|b| b.to_token_stream().to_string()).collect()),
        _ => TypeShape::Other,
    })
}

/// Whether a character may stand in an ASCII identifier.
pub open spec fn ident_char(c: char) -> bool {
    ('a' <= c && c <= 'z') || ('A' <= c && c <= 'Z') || ('0' <= c && c <= '9') || c == '_'
}

/// Whether a text is made of ASCII identifier characters alone, and is not
/// empty.
pub open spec fn ident_text(s: Seq<char>) -> bool {
    s.len() > 0 && forall|i: int| 0 <= i < s.len() ==> ident_char(#[trigger] s[i])
}

/// `n` spaces.
pub open spec fn spaces(n: nat) -> Seq<char> {
    Seq::new(n, |i: int| ' ')
}

/// The text of a path whose segments are `segs`, with `::` between each two
/// of them and, around the `i`-th `::`, `gaps[i].0` spaces before and
/// `gaps[i].1` after.
pub open spec fn path_text(segs: Seq<Seq<char>>, gaps: Seq<(nat, nat)>) -> Seq<char>
    decreases segs.len(),
{
    if segs.len() <= 1 {
        if segs.len() == 1 {
            segs[0]
        } else {
            Seq::empty()
        }
    } else {
        path_text(segs.drop_last(), gaps.drop_last()) + spaces(gaps.last().0) + seq![':', ':']
            + spaces(gaps.last().1) + segs.last()
    }
}

/// Whether what follows a path is nothing, or spaces and then generic
/// arguments opened by `<`, with no `:` anywhere in it.
pub open spec fn plain_tail(tail: Seq<char>) -> bool {
    tail.len() == 0 || ((exists|n: nat|
        n < tail.len() && #[trigger] tail.subrange(0, n as int) == spaces(n) && tail[n as int]
            == '<') && forall|i: int| 0 <= i < tail.len() ==> #[trigger] tail[i] != ':')
}

/// Whether `text` is a trait bound written as a path of the ASCII
/// identifiers `segs`, `::` between them with any spaces around, and
/// optionally generic arguments after the last, with no `:` in them.
pub open spec fn plain_bound_text(
    text: Seq<char>,
    segs: Seq<Seq<char>>,
    gaps: Seq<(nat, nat)>,
    tail: Seq<char>,
) -> bool {
    &&& segs.len() >= 1
    &&& gaps.len() + 1 == segs.len()
    &&& forall|i: int| 0 <= i < segs.len() ==> ident_text(#[trigger] segs[i])
    &&& plain_tail(tail)
    &&& text == path_text(segs, gaps) + tail
}

/// The texts of the identifiers of a trait's path.
pub open spec fn name_texts(names: Seq<String>) -> Seq<Seq<char>> {
    names.map_values(|n: String| n@)
}

/// Whether `r`, the read of the bound written `text`, keeps the path as
/// written: where `text` is a plain trait bound (`plain_bound_text`) and
/// `r` is a trait, its identifiers are the segments of that path in order.
pub open spec fn plain_bound_read(text: Seq<char>, r: Option<BoundShape>) -> bool {
    forall|segs: Seq<Seq<char>>, gaps: Seq<(nat, nat)>, tail: Seq<char>|
        #[trigger] plain_bound_text(text, segs, gaps, tail) ==> (r matches Some(
            BoundShape::Trait(names),
        ) ==> name_texts(names@) == segs)
}

/// Parses the text with `syn::parse_str::<TypeParamBound>`; for a trait,
/// gives the identifiers of the segments of its path.
///
/// Stated: a trait bound written as a path of ASCII identifiers (`::`
/// between them, with any spaces around) and optionally generic arguments
/// with no `:` in them is read, where it is read as a trait, with every
/// segment of that path in order (syn's `TraitBound` parses exactly that
/// path, and an ASCII identifier prints as written under either lexer).
/// Not stated: whether such a text parses (a keyword among the identifiers
/// refuses it), nor anything of other texts (see the module's comment).
#[verifier::external_body]
pub(crate) fn read_bound(text: &str) -> (r: Option<BoundShape>)
    ensures
        plain_bound_read(text@, r),
{
    Some(match syn::parse_str::<TypeParamBound>(text).ok()? {
        TypeParamBound::Trait(t) => BoundShape::Trait(t.path.segments.iter().map(|s| s.ident.to_string()).collect()),
        _ => BoundShape::Other,
    })
}

/// Parses the text with `syn::parse_str::<AngleBracketedGenericArguments>`
/// and gives, for each argument, its token text where it is a type. Nothing
/// is stated of the result (see the module's comment).
#[verifier::external_body]
pub(crate) fn read_generic_args(text: &str) -> Option<Vec<Option<String>>> {
    let args = syn::parse_str::<AngleBracketedGenericArguments>(text).ok()?;
    Some(args.args.iter().map(|a| match a {
        GenericArgument::Type(t) => Some(t.to_token_stream().to_string()),
        _ => None,
    }).collect())
}

/// Parses the text with `Punctuated::<Expr, Comma>::parse_terminated` and
/// gives, for each item, the variant of the expression: for a path, whether
/// it starts with `::` and each segment's identifier and whether it has no
/// generic arguments; for an assignment, its left side where that is a path
/// and the token text of its right side. Nothing is stated of the result
/// (see the module's comment).
#[verifier::external_body]
pub(crate) fn read_meta_list(attribute: &str) -> Option<Vec<MetaExprRead>> {
    let items = Punctuated::<Expr, Comma>::parse_terminated.parse_str(attribute).ok()?;
    let path = |p: &Path| PathRead {
        global: p.leading_colon.is_some(),
        segments: p.segments.iter().map(|s| PathSegmentRead { name: s.ident.to_string(), plain: s.arguments.is_none() }).collect(),
    };
    Some(items.iter().map(|e| match e {
        Expr::Path(p) => MetaExprRead::Path(path(&p.path)),
        Expr::Assign(a) => MetaExprRead::Assign(match &*a.left {
            Expr::Path(p) => Some(path(&p.path)),
            _ => None,
        }, a.right.to_token_stream().to_string()),
        _ => MetaExprRead::Other,
    }).collect())
}

/// Parses the text with `syn::parse_str::<Expr>` and tells whether that
/// succeeds. Nothing is stated of the result (see the module's comment).
#[verifier::external_body]
pub(crate) fn parses_as_expr(text: &str) -> bool {
    syn::parse_str::<Expr>(text).is_ok()
}

/// Whether `read` is what the reader `f` gave for the text `text`.
pub open spec fn read_from<T, F: Fn(&str) -> T>(f: F, text: String, read: T) -> bool {
    exists|t: &str| t@ == text@ && call_ensures(f, (t,), read)
}

/// Reads each text with `f`, in order: the `i`-th read is what `f` gave for
/// the `i`-th text.
fn read_each<T, F: Fn(&str) -> T>(texts: &Vec<String>, f: F) -> (r: Vec<T>)
    requires
        forall|t: &str| call_requires(f, (t,)),
    ensures
        r.len() == texts.len(),
        forall|i: int| 0 <= i < texts.len() ==> read_from(f, texts@[i], #[trigger] r@[i]),
{
    let mut out: Vec<T> = Vec::new();
    let mut i: usize = 0;
    while i < texts.len()
        invariant
            i <= texts.len(),
            out.len() == i,
            forall|t: &str| call_requires(f, (t,)),
            forall|k: int| 0 <= k < i ==> read_from(f, texts@[k], #[trigger] out@[k]),
        decreases texts.len() - i,
    {
        let t = texts[i].as_str();
        let x = f(t);
        assert(read_from(f, texts@[i as int], x));
        out.push(x);
        i = i + 1;
    }
    out
}

/// Whether the reads have the shape that reading gives them, whatever each
/// read came back as: one read for each argument of a function item, none
/// of the return type where the function has none, one read for each bound
/// of an `impl Trait` return type or of the trait object that a path return
/// type boxes, and nothing else read of an item that is not a function.
pub open spec fn reads_shaped(reads: FnReads) -> bool {
    &&& match reads.item {
        ItemRead::Function(parts) => {
            &&& reads.args.len() == parts.args.len()
            &&& parts.output is None ==> reads.output is None
        },
        _ => reads.args.len() == 0 && reads.output is None,
    }
    &&& !(reads.output matches Some(TypeShape::Path(_))) ==> reads.generic_args is None
        && reads.boxed is None
    &&& match reads.output {
        Some(TypeShape::ImplTrait(texts)) => reads.bounds.len() == texts.len(),
        Some(TypeShape::Path(_)) => match reads.boxed {
            Some(TypeShape::TraitObject(texts)) => reads.bounds.len() == texts.len(),
            _ => reads.bounds.len() == 0,
        },
        _ => reads.bounds.len() == 0,
    }
}

/// Reads each bound text, in order: the `i`-th read is what `read_bound`
/// gave for the `i`-th text.
fn read_bounds(texts: &Vec<String>) -> (r: Vec<Option<BoundShape>>)
    ensures
        r.len() == texts.len(),
        forall|i: int| 0 <= i < texts.len() ==> read_from(read_bound, texts@[i], #[trigger] r@[i]),
{
    read_each(texts, read_bound)
}

/// Whether each read of an argument or of a bound is the read of the text
/// in the same place: the `i`-th argument read is what `read_fn_arg` gave
/// for the `i`-th argument's text, and the `i`-th bound read what
/// `read_bound` gave for the `i`-th bound's text, of the `impl Trait`
/// return type or of the trait object that a path return type boxes.
pub closed spec fn reads_in_order(reads: FnReads) -> bool {
    &&& reads.item matches ItemRead::Function(parts) ==> forall|i: int|
        0 <= i < reads.args.len() && i < parts.args.len() ==> read_from(
            read_fn_arg,
            parts.args@[i],
            #[trigger] reads.args@[i],
        )
    &&& forall|texts: Vec<String>|
        (reads.output == Some(TypeShape::ImplTrait(texts)) || (reads.output is Some
            && reads.output->0 is Path && reads.boxed == Some(TypeShape::TraitObject(texts))))
            ==> forall|i: int|
            0 <= i < reads.bounds.len() && i < texts.len() ==> read_from(
                read_bound,
                texts@[i],
                #[trigger] reads.bounds@[i],
            )
}

/// Reads the item that the text holds, piece by piece: the item, each of
/// its arguments, its return type and, as the return type calls for them,
/// the generic arguments of a path type's last segment, the type that the
/// first of them names, and the bounds of an `impl Trait` type or of a
/// boxed trait object. Gives every read as it came back, and what they give
/// the rules.
pub fn read_fn_input(function: &str) -> (r: (FnReads, FnRead))
    ensures
        reads_shaped(r.0),
        reads_in_order(r.0),
        fn_read_from(r.0, r.1),
{
    let item = read_item(function);
    let mut args: Vec<Option<FnArgShape>> = Vec::new();
    let mut output: Option<TypeShape> = None;
    let mut generic_args: Option<Vec<Option<String>>> = None;
    let mut boxed: Option<TypeShape> = None;
    let mut bounds: Vec<Option<BoundShape>> = Vec::new();
    if let ItemRead::Function(parts) = &item {
        let mut i: usize = 0;
        args = read_each(&parts.args, read_fn_arg);
        if let Some(text) = &parts.output {
            output = read_type(text.as_str());
        }
    }
    match &output {
        Some(TypeShape::ImplTrait(texts)) => {
            bounds = read_bounds(texts);
        },
        Some(TypeShape::Path(segments)) => {
            if segments.len() > 0 {
                generic_args = read_generic_args(segments[segments.len() - 1].args.as_str());
            }
            if let Some(ga) = &generic_args {
                if ga.len() > 0 {
                    if let Some(t) = &ga[0] {
                        boxed = read_type(t.as_str());
                    }
                }
            }
            if let Some(TypeShape::TraitObject(texts)) = &boxed {
                bounds = read_bounds(texts);
            }
        },
        _ => {},
    }
    let reads = FnReads { item, args, output, generic_args, boxed, bounds };
    let r = fn_input_from(&reads);
    (reads, r)
}

/// An `impl Trait` return type is taken by the name of its first bound as
/// written: where the text of the first bound is a path of ASCII
/// identifiers (any generic arguments after it, no `:` among them) and it
/// is read as a trait, the first bound that the rules see is named by the
/// last of those identifiers, whatever bounds are written after it.
pub proof fn lemma_first_written_bound_names(
    reads: FnReads,
    r: FnRead,
    segs: Seq<Seq<char>>,
    gaps: Seq<(nat, nat)>,
    tail: Seq<char>,
)
    requires
        reads_shaped(reads),
        reads_in_order(reads),
        fn_read_from(reads, r),
        r is Function,
        reads.output matches Some(TypeShape::ImplTrait(texts)) && texts@.len() > 0
            && plain_bound_text(texts@[0]@, segs, gaps, tail),
        reads.bounds@.len() > 0,
        reads.bounds@[0] matches Some(BoundShape::Trait(_)),
    ensures
        r->Function_0.output is ImplTrait,
        r->Function_0.output->ImplTrait_0@.len() == reads.bounds@.len(),
        bound_name(r->Function_0.output->ImplTrait_0@[0]) == Some(segs.last()),
{
    let texts = reads.output->0->ImplTrait_0;
    assert(read_from(read_bound, texts@[0], reads.bounds@[0]));
    let t: &str = choose|t: &str| t@ == texts@[0]@ && call_ensures(read_bound, (t,), reads.bounds@[0]);
    assert(plain_bound_text(t@, segs, gaps, tail));
    assert(plain_bound_read(t@, reads.bounds@[0]));
    let names = reads.bounds@[0]->0->Trait_0;
    assert(name_texts(names@) == segs);
    let b = r->Function_0.output->ImplTrait_0;
    assert(bound_read(reads.bounds@[0], b@[0]));
}

/// The text of a block: the input between braces.
pub open spec fn braced(input: Seq<char>) -> Seq<char> {
    seq!['{', ' '] + input + seq![' ', '}']
}

/// Puts the input between braces, as the block macros read it.
pub fn braced_text(input: &str) -> (r: String)
    ensures
        r@ == braced(input@),
{
    proof {
        reveal_strlit("{ ");
        reveal_strlit(" }");
    }
    let mut text = String::from_str("{ ");
    text.append(input);
    text.append(" }");
    assert(text@ =~= braced(input@));
    text
}

} // verus!
