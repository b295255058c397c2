//! What the attributes and the block macros decide about the text they
//! receive: whether they accept it, how the generator is wrapped, which
//! arguments are rebound and what the stream's item type is.
//!
//! Each `plan_*` function reads its input (see `read`) and hands what it
//! read to a `decide_*` function, which is verified for every value of it;
//! the `plan_*` function gives back what it read with the decision.

use vstd::prelude::*;
use vstd::string::StrSliceExecFns;

use super::args::{legacy_rebind_args, plan_for, rebind_args, ArgPlan};
use super::attrs::{
    accepted_args, args_accepted, async_options, async_options_of, driver_kind, driver_of,
    lemma_first_bound_selects, future_word, stream_word, stable_future_word, stable_stream_word,
    BoundShape,
    legacy_async_boxed, legacy_attribute_text, legacy_boxed_text, legacy_stream_item, legacy_text,
    stream_item, AsyncError, AsyncOptions, DriverKind, LegacyAsyncError, StreamAttr,
    StreamAttrError,
};
use super::input::{fn_read_from, nested_metas, nested_metas_of, FnReads, MetaExprRead};
use super::read::{
    braced, braced_text, lemma_first_written_bound_names, parses_as_expr, plain_bound_text,
    read_attr_args, read_fn_input, read_meta_list, reads_in_order, reads_shaped, FnRead, TypeShape,
};

verus! {

/// How `#[async]` rewrites a function.
#[derive(Debug, Clone, PartialEq, Eq)]
pub struct AsyncPlan {
    /// How the generator is wrapped.
    pub options: AsyncOptions,
    /// Whether the function becomes a future or a stream.
    pub driver: DriverKind,
    /// What becomes of each argument.
    pub args: Vec<ArgPlan>,
}

/// Whether `item` is what the reads of an item give the rules, where the
/// item was read (the reads having the shape and order that reading gives
/// them), and `None` where it was not.
pub open spec fn item_from(reads: Option<FnReads>, item: Option<FnRead>) -> bool {
    match reads {
        Some(x) => item matches Some(i) && fn_read_from(x, i) && reads_shaped(x) && reads_in_order(
            x,
        ),
        None => item is None,
    }
}

/// What `#[async]` read of its input: the identifiers of its argument list,
/// and the item, which is read only when the argument list is accepted:
/// each read of it, and what they give the rules.
#[derive(Debug, Clone, PartialEq, Eq)]
pub struct AsyncRead {
    pub attr_args: Option<Vec<String>>,
    pub reads: Option<FnReads>,
    pub item: Option<FnRead>,
}

/// Whether `r` is what `#[async]` decides, given the identifiers of its
/// argument list (`None` where the list did not parse) and what its item
/// gave (`None` where it was not read). The argument list must be a list of
/// identifiers that is accepted; the item must be a function that is not variadic, and its
/// return type must be accepted. The arguments are rebound as `rebind_args`
/// says, and the return type tells a future from a stream.
pub open spec fn async_fn_decision(
    attr_args: Option<Vec<String>>,
    item: Option<FnRead>,
    r: Result<AsyncPlan, AsyncError>,
) -> bool {
    match attr_args {
        None => r == Err::<AsyncPlan, AsyncError>(AsyncError::UnsupportedArguments),
        Some(a) => if !accepted_args(a@) {
            r == Err::<AsyncPlan, AsyncError>(AsyncError::UnsupportedArguments)
        } else {
            match item {
                None => r == Err::<AsyncPlan, AsyncError>(AsyncError::NotParsed),
                Some(FnRead::NotParsed) => r == Err::<AsyncPlan, AsyncError>(AsyncError::NotParsed),
                Some(FnRead::NotFunction) => r == Err::<AsyncPlan, AsyncError>(
                    AsyncError::NotAFunction,
                ),
                Some(FnRead::Function(f)) => if f.variadic {
                    r == Err::<AsyncPlan, AsyncError>(AsyncError::Variadic)
                } else {
                    match async_options_of(a@, f.output) {
                        Err(e) => r == Err::<AsyncPlan, AsyncError>(e),
                        Ok(o) => r matches Ok(p) && p.options == o && p.driver == driver_of(
                            f.output,
                        ) && plan_for(f.args@, p.args@, false),
                    }
                },
            }
        },
    }
}

/// What `#[async]` decides, given what it read of its argument list and of
/// its item.
pub fn decide_async_fn(attr_args: &Option<Vec<String>>, item: &Option<FnRead>) -> (r: Result<
    AsyncPlan,
    AsyncError,
>)
    ensures
        async_fn_decision(*attr_args, *item, r),
{
    let args = match attr_args {
        None => return Err(AsyncError::UnsupportedArguments),
        Some(a) => a,
    };
    if !args_accepted(args) {
        return Err(AsyncError::UnsupportedArguments);
    }
    let f = match item {
        None => return Err(AsyncError::NotParsed),
        Some(FnRead::NotParsed) => return Err(AsyncError::NotParsed),
        Some(FnRead::NotFunction) => return Err(AsyncError::NotAFunction),
        Some(FnRead::Function(f)) => f,
    };
    if f.variadic {
        return Err(AsyncError::Variadic);
    }
    match async_options(args, &f.output) {
        Err(e) => Err(e),
        Ok(options) => Ok(
            AsyncPlan { options, driver: driver_kind(&f.output), args: rebind_args(&f.args) },
        ),
    }
}

/// Reads the argument list `attribute` of `#[async]` and, where it is
/// accepted, the item `function`, both as text; gives what was read and
/// what `#[async]` decides for it.
pub fn plan_async_fn(attribute: &str, function: &str) -> (r: (AsyncRead, Result<AsyncPlan, AsyncError>))
    ensures
        r.0.reads is Some <==> (r.0.attr_args matches Some(a) && accepted_args(a@)),
        item_from(r.0.reads, r.0.item),
        async_fn_decision(r.0.attr_args, r.0.item, r.1),
{
    let attr_args = read_attr_args(attribute);
    let accepted = match &attr_args {
        Some(a) => args_accepted(a),
        None => false,
    };
    let (reads, item) = if accepted {
        let (x, i) = read_fn_input(function);
        (Some(x), Some(i))
    } else {
        (None, None)
    };
    let r = decide_async_fn(&attr_args, &item);
    (AsyncRead { attr_args, reads, item }, r)
}

/// Whether `r` plans an unboxed generator, pinned or not, for a future or
/// a stream.
pub open spec fn plans_unboxed(
    r: Result<AsyncPlan, AsyncError>,
    pinned: bool,
    driver: DriverKind,
) -> bool {
    r matches Ok(p) && p.options == AsyncOptions { pinned, boxed: false } && p.driver == driver
}

/// Whether the item was read, as a function that is not variadic, whose
/// return type is `impl` of some bounds, the first of which is written as
/// a plain trait path (`plain_bound_text`) and was read as a trait.
pub open spec fn first_bound_written(
    reads: Option<FnReads>,
    item: Option<FnRead>,
    segs: Seq<Seq<char>>,
    gaps: Seq<(nat, nat)>,
    tail: Seq<char>,
) -> bool {
    (item matches Some(FnRead::Function(f)) && !f.variadic) && match reads {
        Some(x) => match x.output {
            Some(TypeShape::ImplTrait(texts)) => texts@.len() > 0 && plain_bound_text(
                texts@[0]@,
                segs,
                gaps,
                tail,
            ) && x.bounds@.len() > 0 && x.bounds@[0] matches Some(BoundShape::Trait(_)),
            _ => false,
        },
        None => false,
    }
}

/// `#[async]` without arguments, on a function that returns `impl` of some
/// bounds, decides by the first bound as it is written: where that bound is
/// a path of ASCII identifiers (any generic arguments after it) read as a
/// trait, the last of those identifiers selects, whatever bounds follow:
/// `Future` a movable future, `Stream` a movable stream, `StableFuture` a
/// pinned future, `StableStream` a pinned stream, none boxed; any other
/// name is refused.
pub proof fn lemma_async_fn_by_first_written_bound(
    read: AsyncRead,
    r: Result<AsyncPlan, AsyncError>,
    segs: Seq<Seq<char>>,
    gaps: Seq<(nat, nat)>,
    tail: Seq<char>,
)
    requires
        item_from(read.reads, read.item),
        async_fn_decision(read.attr_args, read.item, r),
        read.attr_args is Some,
        read.attr_args->0@.len() == 0,
        first_bound_written(read.reads, read.item, segs, gaps, tail),
    ensures
        segs.last() == future_word() ==> plans_unboxed(r, false, DriverKind::Future),
        segs.last() == stream_word() ==> plans_unboxed(r, false, DriverKind::Stream),
        segs.last() == stable_future_word() ==> plans_unboxed(r, true, DriverKind::Future),
        segs.last() == stable_stream_word() ==> plans_unboxed(r, true, DriverKind::Stream),
        !(segs.last() == future_word() || segs.last() == stream_word() || segs.last()
            == stable_future_word() || segs.last() == stable_stream_word()) ==> r == Err::<
            AsyncPlan,
            AsyncError,
        >(AsyncError::ImplTraitBound),
{
    let x = read.reads->0;
    let item = read.item->0;
    lemma_first_written_bound_names(x, item, segs, gaps, tail);
    let f = item->Function_0;
    lemma_first_bound_selects(f.output);
    assert(accepted_args(read.attr_args->0@));
}

/// How the first form of `#[async]` rewrites a function.
#[derive(Debug, Clone, PartialEq, Eq)]
pub struct LegacyAsyncPlan {
    /// Whether the future is boxed.
    pub boxed: bool,
    /// What becomes of each argument.
    pub args: Vec<ArgPlan>,
}

/// Whether `r` is what the first form of `#[async]` decides for the text of
/// its arguments (`boxed` or nothing) and what its item gave (`None` where
/// it was not read).
pub open spec fn legacy_async_fn_decision(
    attribute: Seq<char>,
    item: Option<FnRead>,
    r: Result<LegacyAsyncPlan, LegacyAsyncError>,
) -> bool {
    let text = legacy_text(attribute);
    if text != legacy_boxed_text() && text.len() != 0 {
        r == Err::<LegacyAsyncPlan, LegacyAsyncError>(LegacyAsyncError::OnlyBoxedArgument)
    } else {
        match item {
            None => r == Err::<LegacyAsyncPlan, LegacyAsyncError>(LegacyAsyncError::NotParsed),
            Some(FnRead::NotParsed) => r == Err::<LegacyAsyncPlan, LegacyAsyncError>(
                LegacyAsyncError::NotParsed,
            ),
            Some(FnRead::NotFunction) => r == Err::<LegacyAsyncPlan, LegacyAsyncError>(
                LegacyAsyncError::NotAFunction,
            ),
            Some(FnRead::Function(f)) => if f.variadic {
                r == Err::<LegacyAsyncPlan, LegacyAsyncError>(LegacyAsyncError::Variadic)
            } else {
                r matches Ok(p) && p.boxed == (text == legacy_boxed_text()) && plan_for(
                    f.args@,
                    p.args@,
                    true,
                )
            },
        }
    }
}

/// What the first form of `#[async]` decides, given the text of its
/// arguments and what its item gave.
pub fn decide_legacy_async_fn(attribute: &str, item: &Option<FnRead>) -> (r: Result<
    LegacyAsyncPlan,
    LegacyAsyncError,
>)
    ensures
        legacy_async_fn_decision(attribute@, *item, r),
{
    let text = legacy_attribute_text(attribute);
    let boxed = match legacy_async_boxed(text.as_str()) {
        Ok(b) => b,
        Err(e) => return Err(e),
    };
    let f = match item {
        None => return Err(LegacyAsyncError::NotParsed),
        Some(FnRead::NotParsed) => return Err(LegacyAsyncError::NotParsed),
        Some(FnRead::NotFunction) => return Err(LegacyAsyncError::NotAFunction),
        Some(FnRead::Function(f)) => f,
    };
    if f.variadic {
        return Err(LegacyAsyncError::Variadic);
    }
    Ok(LegacyAsyncPlan { boxed, args: legacy_rebind_args(&f.args) })
}

/// What the first form of `#[async]` read of its item, which it reads only
/// when it accepts its arguments: each read, and what they give the rules.
#[derive(Debug, Clone, PartialEq, Eq)]
pub struct LegacyAsyncRead {
    pub reads: Option<FnReads>,
    pub item: Option<FnRead>,
}

/// Reads the item `function` where the first form of `#[async]` accepts its
/// arguments `attribute`; gives what was read and what it decides.
pub fn plan_legacy_async_fn(attribute: &str, function: &str) -> (r: (
    LegacyAsyncRead,
    Result<LegacyAsyncPlan, LegacyAsyncError>,
))
    ensures
        r.0.reads is Some <==> (legacy_text(attribute@) == legacy_boxed_text() || attribute@.len()
            == 0),
        item_from(r.0.reads, r.0.item),
        legacy_async_fn_decision(attribute@, r.0.item, r.1),
{
    let text = legacy_attribute_text(attribute);
    let (reads, item) = if legacy_async_boxed(text.as_str()).is_ok() {
        let (x, i) = read_fn_input(function);
        (Some(x), Some(i))
    } else {
        (None, None)
    };
    let r = decide_legacy_async_fn(attribute, &item);
    (LegacyAsyncRead { reads, item }, r)
}

/// Whether `#[async_stream]` is asked for a boxed stream, and the item type
/// it selects, given what it read of its argument list (`None` where the
/// list did not parse); or why it refuses it.
pub open spec fn stream_item_for(attr: Option<StreamAttr>) -> Result<
    (bool, Seq<char>),
    StreamAttrError,
> {
    match attr {
        None => Err(StreamAttrError::AttributeSyntax),
        Some(a) => stream_item(a),
    }
}

/// Whether `attr` is the form of `#[async_stream]` that its argument list
/// `attribute` takes, given what the list read as: no text is the bare
/// attribute and is not read; other text is the list of the meta items that
/// its items read as, and nothing where it did not parse.
pub open spec fn stream_attr_from(
    attribute: Seq<char>,
    meta: Option<Vec<MetaExprRead>>,
    attr: Option<StreamAttr>,
) -> bool {
    if attribute.len() == 0 {
        meta is None && attr == Some(StreamAttr::Word)
    } else {
        match meta {
            None => attr is None,
            Some(items) => attr matches Some(StreamAttr::List(list)) && list@ == nested_metas_of(
                items@,
            ),
        }
    }
}

/// Reads the argument list of `#[async_stream]`: nothing is the bare
/// attribute, any other text a list of meta items. Gives what the list read
/// as, the form of the attribute, and whether it asks for a boxed stream and
/// the item type it selects.
pub fn stream_item_of(attribute: &str) -> (r: (
    Option<Vec<MetaExprRead>>,
    Option<StreamAttr>,
    Result<(bool, String), StreamAttrError>,
))
    ensures
        stream_attr_from(attribute@, r.0, r.1),
        match r.2 {
            Ok((boxed, item)) => stream_item_for(r.1) == Ok::<(bool, Seq<char>), StreamAttrError>(
                (boxed, item@),
            ),
            Err(e) => stream_item_for(r.1) == Err::<(bool, Seq<char>), StreamAttrError>(e),
        },
{
    let (meta, attr) = if attribute.unicode_len() == 0 {
        (None, Some(StreamAttr::Word))
    } else {
        let meta = read_meta_list(attribute);
        let attr = match &meta {
            None => None,
            Some(items) => Some(StreamAttr::List(nested_metas(items))),
        };
        (meta, attr)
    };
    let r = match &attr {
        None => Err(StreamAttrError::AttributeSyntax),
        Some(a) => legacy_stream_item(a),
    };
    (meta, attr, r)
}

/// Why `#[async_stream]` refuses a function.
#[derive(Debug, Clone, PartialEq, Eq)]
pub enum AsyncStreamError {
    /// Its argument list is refused.
    Attribute(StreamAttrError),
    /// The text does not parse as an item.
    NotParsed,
    /// The item is not a function.
    NotAFunction,
    /// The function is variadic.
    Variadic,
    /// A boxed stream is asked for, which is not supported.
    BoxedUnsupported,
}

/// How `#[async_stream]` rewrites a function.
#[derive(Debug, Clone, PartialEq, Eq)]
pub struct AsyncStreamPlan {
    /// The type of the stream's items.
    pub item: String,
    /// What becomes of each argument.
    pub args: Vec<ArgPlan>,
}

/// Whether `r` is what `#[async_stream]` decides, given what it read of its
/// argument list and of its item (`None` where it was not read): the
/// argument list first, then the item, which must be a function that is not
/// variadic, and last whether a boxed stream is asked for, which is refused;
/// the arguments are rebound as in the first form of `#[async]`.
pub open spec fn async_stream_decision(
    attr: Option<StreamAttr>,
    item: Option<FnRead>,
    r: Result<AsyncStreamPlan, AsyncStreamError>,
) -> bool {
    match stream_item_for(attr) {
        Err(e) => r == Err::<AsyncStreamPlan, AsyncStreamError>(AsyncStreamError::Attribute(e)),
        Ok((boxed, ty)) => match item {
            None => r == Err::<AsyncStreamPlan, AsyncStreamError>(AsyncStreamError::NotParsed),
            Some(FnRead::NotParsed) => r == Err::<AsyncStreamPlan, AsyncStreamError>(
                AsyncStreamError::NotParsed,
            ),
            Some(FnRead::NotFunction) => r == Err::<AsyncStreamPlan, AsyncStreamError>(
                AsyncStreamError::NotAFunction,
            ),
            Some(FnRead::Function(f)) => if f.variadic {
                r == Err::<AsyncStreamPlan, AsyncStreamError>(AsyncStreamError::Variadic)
            } else if boxed {
                r == Err::<AsyncStreamPlan, AsyncStreamError>(AsyncStreamError::BoxedUnsupported)
            } else {
                r matches Ok(p) && p.item@ == ty && plan_for(f.args@, p.args@, true)
            },
        },
    }
}

/// What `#[async_stream]` decides, given what it read of its argument list
/// and of its item.
pub fn decide_async_stream(attr: &Option<StreamAttr>, item: &Option<FnRead>) -> (r: Result<
    AsyncStreamPlan,
    AsyncStreamError,
>)
    ensures
        async_stream_decision(*attr, *item, r),
{
    let (boxed, ty) = match attr {
        None => return Err(AsyncStreamError::Attribute(StreamAttrError::AttributeSyntax)),
        Some(a) => match legacy_stream_item(a) {
            Ok(x) => x,
            Err(e) => return Err(AsyncStreamError::Attribute(e)),
        },
    };
    let f = match item {
        None => return Err(AsyncStreamError::NotParsed),
        Some(FnRead::NotParsed) => return Err(AsyncStreamError::NotParsed),
        Some(FnRead::NotFunction) => return Err(AsyncStreamError::NotAFunction),
        Some(FnRead::Function(f)) => f,
    };
    if f.variadic {
        return Err(AsyncStreamError::Variadic);
    }
    if boxed {
        return Err(AsyncStreamError::BoxedUnsupported);
    }
    Ok(AsyncStreamPlan { item: ty, args: legacy_rebind_args(&f.args) })
}

/// What `#[async_stream]` read of its input: what its argument list read
/// as and the form of the attribute it gives, and the item, which is read
/// only when the argument list gives an item type: each read of it, and
/// what they give the rules.
#[derive(Debug, Clone, PartialEq, Eq)]
pub struct AsyncStreamRead {
    pub meta: Option<Vec<MetaExprRead>>,
    pub attr: Option<StreamAttr>,
    pub reads: Option<FnReads>,
    pub item: Option<FnRead>,
}

/// Reads the argument list `attribute` of `#[async_stream]` and, where it
/// gives an item type, the item `function`; gives what was read and what
/// `#[async_stream]` decides for it.
pub fn plan_async_stream(attribute: &str, function: &str) -> (r: (
    AsyncStreamRead,
    Result<AsyncStreamPlan, AsyncStreamError>,
))
    ensures
        stream_attr_from(attribute@, r.0.meta, r.0.attr),
        r.0.reads is Some <==> stream_item_for(r.0.attr) is Ok,
        item_from(r.0.reads, r.0.item),
        async_stream_decision(r.0.attr, r.0.item, r.1),
{
    let (meta, attr, ty) = stream_item_of(attribute);
    let (reads, item) = match ty {
        Ok(_) => {
            let (x, i) = read_fn_input(function);
            (Some(x), Some(i))
        },
        Err(_) => (None, None),
    };
    let r = decide_async_stream(&attr, &item);
    (AsyncStreamRead { meta, attr, reads, item }, r)
}

/// Why a block macro refuses its input.
#[derive(Debug, Clone, PartialEq, Eq)]
pub enum BlockError {
    /// The input, between braces, does not parse as an expression.
    NotAnExpression,
}

/// Whether `async_block!`, `async_stream_block!` accept their input: it
/// must parse, between braces, as an expression. Gives the text that was
/// parsed, whether it parsed, and the verdict.
pub fn check_block(input: &str) -> (r: (String, bool, Result<(), BlockError>))
    ensures
        r.0@ == braced(input@),
        r.2 == if r.1 {
            Ok::<(), BlockError>(())
        } else {
            Err(BlockError::NotAnExpression)
        },
{
    let text = braced_text(input);
    let parses = parses_as_expr(text.as_str());
    let verdict = if parses {
        Ok(())
    } else {
        Err(BlockError::NotAnExpression)
    };
    (text, parses, verdict)
}

} // verus!
