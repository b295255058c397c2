//! What the arguments of the attributes, the return type of an `#[async]`
//! function and the attributes on a `for` loop select.

use vstd::prelude::*;
use vstd::string::StrSliceExecFns;
use vstd::string::StringExecFns;

use super::text::str_eq;

verus! {

/// The characters of `boxed`.
pub open spec fn boxed_word() -> Seq<char> {
    seq!['b', 'o', 'x', 'e', 'd']
}

/// The characters of `unpinned`.
pub open spec fn unpinned_word() -> Seq<char> {
    seq!['u', 'n', 'p', 'i', 'n', 'n', 'e', 'd']
}

/// The characters of `async`.
pub open spec fn async_word() -> Seq<char> {
    seq!['a', 's', 'y', 'n', 'c']
}

/// The characters of `item`.
pub open spec fn item_word() -> Seq<char> {
    seq!['i', 't', 'e', 'm']
}

/// The text of the argument list `(boxed)` as the first form of the
/// attribute receives it.
pub open spec fn legacy_boxed_text() -> Seq<char> {
    seq!['(', ' ', 'b', 'o', 'x', 'e', 'd', ' ', ')']
}

fn is_word(s: &String, word: &str) -> (r: bool)
    ensures
        r == (s@ == word@),
{
    str_eq(s.as_str(), word)
}

fn is_boxed(s: &String) -> (r: bool)
    ensures
        r == (s@ == boxed_word()),
{
    proof {
        reveal_strlit("boxed");
        assert("boxed"@ =~= boxed_word());
    }
    is_word(s, "boxed")
}

fn is_unpinned(s: &String) -> (r: bool)
    ensures
        r == (s@ == unpinned_word()),
{
    proof {
        reveal_strlit("unpinned");
        assert("unpinned"@ =~= unpinned_word());
    }
    is_word(s, "unpinned")
}

fn is_async(s: &String) -> (r: bool)
    ensures
        r == (s@ == async_word()),
{
    proof {
        reveal_strlit("async");
        assert("async"@ =~= async_word());
    }
    is_word(s, "async")
}

fn is_item(s: &String) -> (r: bool)
    ensures
        r == (s@ == item_word()),
{
    proof {
        reveal_strlit("item");
        assert("item"@ =~= item_word());
    }
    is_word(s, "item")
}

/// Why the first form of the attribute refuses its arguments.
#[derive(Debug, Clone, PartialEq, Eq)]
pub enum LegacyAsyncError {
    /// It takes no argument but `boxed`.
    OnlyBoxedArgument,
    /// The text does not parse as an item.
    NotParsed,
    /// The item is not a function.
    NotAFunction,
    /// The function is variadic.
    Variadic,
}

/// Whether the first form of the attribute boxes the future, given the text
/// of its argument list: `(boxed)` boxes, no arguments do not, anything else
/// is refused.
pub fn legacy_async_boxed(attribute: &str) -> (r: Result<bool, LegacyAsyncError>)
    ensures
        r == if attribute@ == legacy_boxed_text() {
            Ok::<bool, LegacyAsyncError>(true)
        } else if attribute@.len() == 0 {
            Ok(false)
        } else {
            Err(LegacyAsyncError::OnlyBoxedArgument)
        },
{
    proof {
        reveal_strlit("( boxed )");
        assert("( boxed )"@ =~= legacy_boxed_text());
    }
    if str_eq(attribute, "( boxed )") {
        Ok(true)
    } else if attribute.unicode_len() == 0 {
        Ok(false)
    } else {
        Err(LegacyAsyncError::OnlyBoxedArgument)
    }
}

/// The text of an argument list as the first form of the attribute
/// receives it: nothing for no arguments, the arguments between `( ` and
/// ` )` otherwise.
pub open spec fn legacy_text(attribute: Seq<char>) -> Seq<char> {
    if attribute.len() == 0 {
        Seq::empty()
    } else {
        seq!['(', ' '] + attribute + seq![' ', ')']
    }
}

/// The text of an argument list as the first form of the attribute
/// receives it, from the text of the arguments themselves.
pub fn legacy_attribute_text(attribute: &str) -> (r: String)
    ensures
        r@ == legacy_text(attribute@),
{
    proof {
        reveal_strlit("( ");
        reveal_strlit(" )");
    }
    if attribute.unicode_len() == 0 {
        return String::new();
    }
    let mut text = String::from_str("( ");
    text.append(attribute);
    text.append(" )");
    assert(text@ =~= legacy_text(attribute@));
    text
}

/// The wrapping that an argument list of the attribute selects, given the
/// wrapping the return type selects: no arguments keep the latter;
/// `(unpinned)` leaves the generator movable and the future unboxed;
/// `(boxed, unpinned)` leaves it movable and boxes the future. Any other
/// list is refused (`None`).
pub open spec fn args_options(args: Seq<String>, by_return: AsyncOptions) -> Option<AsyncOptions> {
    if args.len() == 0 {
        Some(by_return)
    } else if args.len() == 1 && args[0]@ == unpinned_word() {
        Some(AsyncOptions { pinned: false, boxed: false })
    } else if args.len() == 2 && args[0]@ == boxed_word() && args[1]@ == unpinned_word() {
        Some(AsyncOptions { pinned: false, boxed: true })
    } else {
        None
    }
}

/// Whether the attribute accepts an argument list: none, `(unpinned)` or
/// `(boxed, unpinned)`.
pub open spec fn accepted_args(args: Seq<String>) -> bool {
    args_options(args, AsyncOptions { pinned: false, boxed: false }) is Some
}

/// How the attribute wraps a function, given the identifiers of its
/// arguments and the shape of its return type; or why it refuses it.
pub open spec fn async_options_of(args: Seq<String>, shape: ReturnShape) -> Result<
    AsyncOptions,
    AsyncError,
> {
    if !accepted_args(args) {
        Err(AsyncError::UnsupportedArguments)
    } else {
        match classify_return(shape) {
            Ok(o) => Ok(args_options(args, o).unwrap()),
            Err(e) => Err(e),
        }
    }
}

/// A bound of an `impl Trait` type or of a trait object.
#[derive(Debug, Clone, PartialEq, Eq)]
pub enum BoundShape {
    /// A trait, with the identifiers of the segments of its path.
    Trait(Vec<String>),
    /// A lifetime, or any other bound.
    Other,
}

/// The shape of the return type of an `#[async]` function.
#[derive(Debug, Clone, PartialEq, Eq)]
pub enum ReturnShape {
    /// A path type, such as `Box<Future<..>>`, with the bounds of the trait
    /// that the first type argument of its last segment names (none where
    /// there is no such trait).
    Path(Vec<BoundShape>),
    /// An `impl Trait` type, with its bounds.
    ImplTrait(Vec<BoundShape>),
    /// Any other type, or no return type.
    Other,
}

/// How the generator of an `#[async]` function is wrapped.
#[derive(Debug, Clone, PartialEq, Eq)]
pub struct AsyncOptions {
    /// The generator is immovable and polled through a pin.
    pub pinned: bool,
    /// The future is boxed.
    pub boxed: bool,
}

/// Why the attribute refuses a function.
#[derive(Debug, Clone, PartialEq, Eq)]
pub enum AsyncError {
    /// The argument list is none of `()`, `(unpinned)` and
    /// `(boxed, unpinned)`.
    UnsupportedArguments,
    /// The return type is `impl Trait` whose first bound is none of
    /// `Future`, `Stream`, `StableFuture` and `StableStream`.
    ImplTraitBound,
    /// The return type is neither a path nor `impl Trait`.
    ReturnType,
    /// The text does not parse as an item.
    NotParsed,
    /// The item is not a function.
    NotAFunction,
    /// The function is variadic.
    Variadic,
}

/// The characters of `Future`.
pub open spec fn future_word() -> Seq<char> {
    seq!['F', 'u', 't', 'u', 'r', 'e']
}

/// The characters of `Stream`.
pub open spec fn stream_word() -> Seq<char> {
    seq!['S', 't', 'r', 'e', 'a', 'm']
}

/// The characters of `StableFuture`.
pub open spec fn stable_future_word() -> Seq<char> {
    seq!['S', 't', 'a', 'b', 'l', 'e'] + future_word()
}

/// The characters of `StableStream`.
pub open spec fn stable_stream_word() -> Seq<char> {
    seq!['S', 't', 'a', 'b', 'l', 'e'] + stream_word()
}

/// The last segment of the path of the first bound, where that bound is a
/// trait with a path.
pub open spec fn first_bound_name(bounds: Seq<BoundShape>) -> Option<Seq<char>> {
    if bounds.len() == 0 {
        None
    } else {
        match bounds[0] {
            BoundShape::Trait(segs) => if segs@.len() == 0 {
                None
            } else {
                Some(segs@.last()@)
            },
            BoundShape::Other => None,
        }
    }
}

/// What the return type selects: a path is a boxed future; `impl Future`
/// and `impl Stream` are movable, `impl StableFuture` and `impl
/// StableStream` pinned (by the first bound); anything else is refused.
pub open spec fn classify_return(shape: ReturnShape) -> Result<AsyncOptions, AsyncError> {
    match shape {
        ReturnShape::Path(_) => Ok(AsyncOptions { pinned: false, boxed: true }),
        ReturnShape::ImplTrait(bounds) => match first_bound_name(bounds@) {
            Some(bound) => if bound == future_word() || bound == stream_word() {
                Ok(AsyncOptions { pinned: false, boxed: false })
            } else if bound == stable_future_word() || bound == stable_stream_word() {
                Ok(AsyncOptions { pinned: true, boxed: false })
            } else {
                Err(AsyncError::ImplTraitBound)
            },
            None => Err(AsyncError::ImplTraitBound),
        },
        ReturnShape::Other => Err(AsyncError::ReturnType),
    }
}

fn first_bound(bounds: &Vec<BoundShape>) -> (r: Option<&String>)
    ensures
        match r {
            Some(s) => first_bound_name(bounds@) == Some(s@),
            None => first_bound_name(bounds@) is None,
        },
{
    if bounds.len() == 0 {
        return None;
    }
    match &bounds[0] {
        BoundShape::Trait(segs) => {
            if segs.len() == 0 {
                None
            } else {
                Some(&segs[segs.len() - 1])
            }
        },
        BoundShape::Other => None,
    }
}

fn is_future_or_stream(s: &String) -> (r: (bool, bool))
    ensures
        r.0 == (s@ == future_word() || s@ == stream_word()),
        r.1 == (s@ == stable_future_word() || s@ == stable_stream_word()),
{
    proof {
        reveal_strlit("Future");
        reveal_strlit("Stream");
        reveal_strlit("StableFuture");
        reveal_strlit("StableStream");
        assert("Future"@ =~= future_word());
        assert("Stream"@ =~= stream_word());
        assert("StableFuture"@ =~= stable_future_word());
        assert("StableStream"@ =~= stable_stream_word());
    }
    (
        is_word(s, "Future") || is_word(s, "Stream"),
        is_word(s, "StableFuture") || is_word(s, "StableStream"),
    )
}

/// What the return type of an `#[async]` function selects.
pub fn classify_return_type(shape: &ReturnShape) -> (r: Result<AsyncOptions, AsyncError>)
    ensures
        r == classify_return(*shape),
{
    match shape {
        ReturnShape::Path(_) => Ok(AsyncOptions { pinned: false, boxed: true }),
        ReturnShape::ImplTrait(bounds) => match first_bound(bounds) {
            Some(bound) => {
                let (movable, pinned) = is_future_or_stream(bound);
                if movable {
                    Ok(AsyncOptions { pinned: false, boxed: false })
                } else if pinned {
                    Ok(AsyncOptions { pinned: true, boxed: false })
                } else {
                    Err(AsyncError::ImplTraitBound)
                }
            },
            None => Err(AsyncError::ImplTraitBound),
        },
        ReturnShape::Other => Err(AsyncError::ReturnType),
    }
}

/// Whether the generated function is a future or a stream.
#[derive(Debug, Clone, PartialEq, Eq)]
pub enum DriverKind {
    Future,
    Stream,
}

/// The kind that the return type names: a stream where the first bound of
/// the `impl Trait`, or of the trait that a path type boxes, is `Stream` or
/// `StableStream`; a future otherwise.
pub open spec fn driver_of(shape: ReturnShape) -> DriverKind {
    let bounds = match shape {
        ReturnShape::Path(b) => b@,
        ReturnShape::ImplTrait(b) => b@,
        ReturnShape::Other => Seq::empty(),
    };
    match first_bound_name(bounds) {
        Some(n) => if n == stream_word() || n == stable_stream_word() {
            DriverKind::Stream
        } else {
            DriverKind::Future
        },
        None => DriverKind::Future,
    }
}

fn is_stream_word(s: &String) -> (r: bool)
    ensures
        r == (s@ == stream_word() || s@ == stable_stream_word()),
{
    proof {
        reveal_strlit("Stream");
        reveal_strlit("StableStream");
        assert("Stream"@ =~= stream_word());
        assert("StableStream"@ =~= stable_stream_word());
    }
    is_word(s, "Stream") || is_word(s, "StableStream")
}

/// Whether the generated function is a future or a stream, by its return
/// type.
pub fn driver_kind(shape: &ReturnShape) -> (r: DriverKind)
    ensures
        r == driver_of(*shape),
{
    let name = match shape {
        ReturnShape::Path(b) => first_bound(b),
        ReturnShape::ImplTrait(b) => first_bound(b),
        ReturnShape::Other => None,
    };
    match name {
        Some(n) => if is_stream_word(n) {
            DriverKind::Stream
        } else {
            DriverKind::Future
        },
        None => DriverKind::Future,
    }
}

pub(crate) fn args_accepted(args: &Vec<String>) -> (r: bool)
    ensures
        r == accepted_args(args@),
{
    if args.len() == 0 {
        true
    } else if args.len() == 1 {
        is_unpinned(&args[0])
    } else if args.len() == 2 {
        is_boxed(&args[0]) && is_unpinned(&args[1])
    } else {
        false
    }
}

/// How the attribute wraps a function, given the identifiers of its
/// arguments and the shape of the return type. The argument list must be
/// none, `(unpinned)` or `(boxed, unpinned)`, and the return type one that
/// `classify_return` accepts. Without arguments the return type selects the
/// wrapping; `unpinned` leaves the generator movable and `boxed` boxes the
/// future.
pub fn async_options(args: &Vec<String>, shape: &ReturnShape) -> (r: Result<
    AsyncOptions,
    AsyncError,
>)
    ensures
        r == async_options_of(args@, *shape),
{
    if !args_accepted(args) {
        return Err(AsyncError::UnsupportedArguments);
    }
    match classify_return_type(shape) {
        Ok(o) => {
            if args.len() == 0 {
                Ok(o)
            } else if args.len() == 1 {
                Ok(AsyncOptions { pinned: false, boxed: false })
            } else {
                Ok(AsyncOptions { pinned: false, boxed: true })
            }
        },
        Err(e) => Err(e),
    }
}

/// Whether an expression is a `for` loop that the attribute expands into a
/// polling loop: one whose only attribute is `#[async]`. `attrs` holds the
/// first path segment of each attribute on the expression.
pub fn expands_async_for(is_for_loop: bool, attrs: &Vec<String>) -> (r: bool)
    ensures
        r == (is_for_loop && attrs@.len() == 1 && attrs@[0]@ == async_word()),
{
    if is_for_loop && attrs.len() == 1 {
        is_async(&attrs[0])
    } else {
        false
    }
}

/// Why the first form of the attribute refuses an expression.
#[derive(Debug, Clone, PartialEq, Eq)]
pub enum AsyncForError {
    /// `#[async]` stands on an expression that is not a `for` loop.
    NotForLoop,
}

/// Whether the first form of the attribute expands an expression into a
/// polling loop: an expression whose only attribute is `#[async]` is
/// expanded when it is a `for` loop and refused otherwise; any other is left
/// as it is.
pub fn legacy_expands_async_for(is_for_loop: bool, attrs: &Vec<String>) -> (r: Result<
    bool,
    AsyncForError,
>)
    ensures
        r == if attrs@.len() != 1 || attrs@[0]@ != async_word() {
            Ok::<bool, AsyncForError>(false)
        } else if !is_for_loop {
            Err(AsyncForError::NotForLoop)
        } else {
            Ok(true)
        },
{
    if attrs.len() != 1 {
        return Ok(false);
    }
    if !is_async(&attrs[0]) {
        return Ok(false);
    }
    if !is_for_loop {
        Err(AsyncForError::NotForLoop)
    } else {
        Ok(true)
    }
}


/// An item of the argument list of `#[async_stream(..)]`.
#[derive(Debug, Clone, PartialEq, Eq)]
pub enum NestedMeta {
    /// A bare word, such as `boxed`.
    Word(String),
    /// `name = literal`, with the literal as written, quotes included.
    NameValue(String, String),
    /// Anything else.
    Other,
}

/// The form of the `#[async_stream]` attribute.
#[derive(Debug, Clone, PartialEq, Eq)]
pub enum StreamAttr {
    /// `#[async_stream]`, without arguments.
    Word,
    /// `#[async_stream(..)]`.
    List(Vec<NestedMeta>),
    /// `#[async_stream = ..]`.
    NameValue,
}

/// Why `#[async_stream]` refuses its arguments.
#[derive(Debug, Clone, PartialEq, Eq)]
pub enum StreamAttrError {
    /// It was written `#[async_stream = ..]`.
    NameValueForm,
    /// An `item = ..` argument is not a string literal.
    ItemNotString,
    /// No `item = ".."` argument gives the item type.
    MissingItem,
    /// The argument list is not a comma-separated list of meta items.
    AttributeSyntax,
}

/// Whether a literal, as written, is enclosed in double quotes.
pub open spec fn quoted(lit: Seq<char>) -> bool {
    lit.len() >= 2 && lit[0] == '"' && lit.last() == '"'
}

/// The text between the enclosing quotes of a literal.
pub open spec fn unquote(lit: Seq<char>) -> Seq<char> {
    lit.subrange(1, lit.len() - 1)
}

/// Reads the items of `#[async_stream(..)]` from first to last: whether
/// `boxed` occurs, and the item type given by the last `item = ".."`. An
/// `item` whose literal is not quoted stops the reading with an error.
pub open spec fn scan_stream_args(items: Seq<NestedMeta>) -> Result<
    (bool, Option<Seq<char>>),
    StreamAttrError,
>
    decreases items.len(),
{
    if items.len() == 0 {
        Ok((false, None))
    } else {
        match scan_stream_args(items.drop_last()) {
            Err(e) => Err(e),
            Ok((boxed, item)) => match items.last() {
                NestedMeta::Word(w) => if w@ == boxed_word() {
                    Ok((true, item))
                } else {
                    Ok((boxed, item))
                },
                NestedMeta::NameValue(name, lit) => if name@ == item_word() {
                    if quoted(lit@) {
                        Ok((boxed, Some(unquote(lit@))))
                    } else {
                        Err(StreamAttrError::ItemNotString)
                    }
                } else {
                    Ok((boxed, item))
                },
                NestedMeta::Other => Ok((boxed, item)),
            },
        }
    }
}

/// Whether `#[async_stream]` is asked for a boxed stream, and the item type
/// it selects; or why it refuses its arguments.
pub open spec fn stream_item(attr: StreamAttr) -> Result<(bool, Seq<char>), StreamAttrError> {
    match attr {
        StreamAttr::NameValue => Err(StreamAttrError::NameValueForm),
        StreamAttr::Word => Err(StreamAttrError::MissingItem),
        StreamAttr::List(items) => match scan_stream_args(items@) {
            Err(e) => Err(e),
            Ok((_, None)) => Err(StreamAttrError::MissingItem),
            Ok((boxed, Some(item))) => Ok((boxed, item)),
        },
    }
}

fn unquote_literal(lit: &String) -> (r: Option<String>)
    ensures
        match r {
            Some(s) => quoted(lit@) && s@ == unquote(lit@),
            None => !quoted(lit@),
        },
{
    let s = lit.as_str();
    let n = s.unicode_len();
    if n < 2 {
        return None;
    }
    if s.get_char(0) != '"' || s.get_char(n - 1) != '"' {
        return None;
    }
    Some(String::from_str(s.substring_char(1, n - 1)))
}

/// Whether `#[async_stream]` is asked for a boxed stream (a `boxed`
/// argument), and the item type it selects: the text of the last
/// `item = ".."` argument.
pub fn legacy_stream_item(attr: &StreamAttr) -> (r: Result<(bool, String), StreamAttrError>)
    ensures
        match r {
            Ok((boxed, item)) => stream_item(*attr) == Ok::<(bool, Seq<char>), StreamAttrError>(
                (boxed, item@),
            ),
            Err(e) => stream_item(*attr) == Err::<(bool, Seq<char>), StreamAttrError>(e),
        },
{
    match attr {
        StreamAttr::NameValue => Err(StreamAttrError::NameValueForm),
        StreamAttr::Word => Err(StreamAttrError::MissingItem),
        StreamAttr::List(items) => {
            let mut boxed = false;
            let mut item: Option<String> = None;
            let mut i: usize = 0;
            while i < items.len()
                invariant
                    *attr == StreamAttr::List(*items),
                    i <= items@.len(),
                    scan_stream_args(items@.take(i as int)) == Ok::<
                        (bool, Option<Seq<char>>),
                        StreamAttrError,
                    >(
                        (
                            boxed,
                            match item {
                                Some(s) => Some(s@),
                                None => None,
                            },
                        ),
                    ),
                decreases items@.len() - i,
            {
                assert(items@.take(i + 1).drop_last() =~= items@.take(i as int));
                match &items[i] {
                    NestedMeta::Word(w) => {
                        if is_boxed(w) {
                            boxed = true;
                        }
                    },
                    NestedMeta::NameValue(name, lit) => {
                        if is_item(name) {
                            match unquote_literal(lit) {
                                Some(s) => {
                                    item = Some(s);
                                },
                                None => {
                                    assert(scan_stream_args(items@.take(i + 1))
                                        == Err::<(bool, Option<Seq<char>>), StreamAttrError>(
                                        StreamAttrError::ItemNotString,
                                    ));
                                    assert(items@.take(items@.len() as int) =~= items@);
                                    proof {
                                        lemma_scan_error_sticks(items@, i as int + 1);
                                    }
                                    return Err(StreamAttrError::ItemNotString);
                                },
                            }
                        }
                    },
                    NestedMeta::Other => {},
                }
                i = i + 1;
            }
            assert(items@.take(items@.len() as int) =~= items@);
            match item {
                None => Err(StreamAttrError::MissingItem),
                Some(s) => Ok((boxed, s)),
            }
        },
    }
}

/// The identifier that names the trait of a bound: the last segment of its
/// path, where the bound is a trait with a path.
pub open spec fn bound_name(b: BoundShape) -> Option<Seq<char>> {
    match b {
        BoundShape::Trait(segs) => if segs@.len() == 0 {
            None
        } else {
            Some(segs@.last()@)
        },
        BoundShape::Other => None,
    }
}

/// For an `impl Trait` return type, the wrapping and whether the function
/// is a future or a stream depend on the name of its first bound alone:
/// the bounds written after it (lifetimes, marker traits, ...) and the
/// module path before the trait's name change neither.
pub proof fn lemma_first_bound_decides(a: ReturnShape, b: ReturnShape)
    requires
        a matches ReturnShape::ImplTrait(x) && x@.len() > 0,
        b matches ReturnShape::ImplTrait(y) && y@.len() > 0,
        bound_name(a->ImplTrait_0@[0]) == bound_name(b->ImplTrait_0@[0]),
    ensures
        classify_return(a) == classify_return(b),
        driver_of(a) == driver_of(b),
{
}

/// What the first bound of an `impl Trait` return type selects, by the name
/// of its trait: `Future` a movable future, `Stream` a movable stream,
/// `StableFuture` a pinned future, `StableStream` a pinned stream, none of
/// them boxed; any other first bound, or none, is refused, whatever follows
/// it.
pub proof fn lemma_first_bound_selects(s: ReturnShape)
    requires
        s is ImplTrait,
    ensures
        ({
            let bounds = s->ImplTrait_0@;
            let name = if bounds.len() == 0 {
                None
            } else {
                bound_name(bounds[0])
            };
            &&& name == Some(future_word()) ==> classify_return(s) == Ok::<
                AsyncOptions,
                AsyncError,
            >(AsyncOptions { pinned: false, boxed: false }) && driver_of(s) == DriverKind::Future
            &&& name == Some(stream_word()) ==> classify_return(s) == Ok::<
                AsyncOptions,
                AsyncError,
            >(AsyncOptions { pinned: false, boxed: false }) && driver_of(s) == DriverKind::Stream
            &&& name == Some(stable_future_word()) ==> classify_return(s) == Ok::<
                AsyncOptions,
                AsyncError,
            >(AsyncOptions { pinned: true, boxed: false }) && driver_of(s) == DriverKind::Future
            &&& name == Some(stable_stream_word()) ==> classify_return(s) == Ok::<
                AsyncOptions,
                AsyncError,
            >(AsyncOptions { pinned: true, boxed: false }) && driver_of(s) == DriverKind::Stream
            &&& !(name == Some(future_word()) || name == Some(stream_word()) || name == Some(
                stable_future_word(),
            ) || name == Some(stable_stream_word())) ==> classify_return(s) == Err::<
                AsyncOptions,
                AsyncError,
            >(AsyncError::ImplTraitBound)
        }),
{
    assert(future_word() != stream_word());
    assert(future_word().len() != stable_future_word().len());
    assert(future_word().len() != stable_stream_word().len());
    assert(stream_word().len() != stable_future_word().len());
    assert(stream_word().len() != stable_stream_word().len());
    assert(stable_future_word()[6] != stable_stream_word()[6]);
}

/// Once reading the items has failed, reading more of them fails the same
/// way.
proof fn lemma_scan_error_sticks(items: Seq<NestedMeta>, k: int)
    requires
        0 <= k <= items.len(),
        scan_stream_args(items.take(k)) is Err,
    ensures
        scan_stream_args(items) == scan_stream_args(items.take(k)),
    decreases items.len() - k,
{
    if k < items.len() {
        assert(items.take(k + 1).drop_last() =~= items.take(k));
        lemma_scan_error_sticks(items, k + 1);
    } else {
        assert(items.take(k) =~= items);
    }
}

} // verus!
