//! What the rules take from the pieces that were read of an attribute's
//! input. Reading is piecewise (see `read`): the item, then each argument,
//! the return type, the generic arguments of a path return type, the type
//! that a boxed return type names, and each bound. The functions here take
//! those reads as they came back and say, for every value of them, what the
//! item gives the rules; likewise for the items of an `#[async_stream(..)]`
//! argument list.

use vstd::prelude::*;

use super::args::{ArgPattern, FnArgShape};
use super::attrs::{BoundShape, NestedMeta, ReturnShape};
use super::read::{FnInput, FnParts, FnRead, ItemRead, SegmentShape, TypeShape};

verus! {

/// The pieces read of a function item, each as it came back.
#[derive(Debug, Clone, PartialEq, Eq)]
pub struct FnReads {
    /// What the item read as.
    pub item: ItemRead,
    /// What each argument read as, in order.
    pub args: Vec<Option<FnArgShape>>,
    /// What the return type read as (`None` where there is none, or where it
    /// did not parse).
    pub output: Option<TypeShape>,
    /// The generic arguments of the last segment of a path return type, each
    /// as token text where it is a type.
    pub generic_args: Option<Vec<Option<String>>>,
    /// What the first of those generic arguments read as, as a type.
    pub boxed: Option<TypeShape>,
    /// What each bound read as: those of an `impl Trait` return type, or of
    /// the trait object that a path return type boxes.
    pub bounds: Vec<Option<BoundShape>>,
}

/// Whether every read succeeded.
pub open spec fn all_read<T>(reads: Seq<Option<T>>) -> bool {
    forall|i: int| 0 <= i < reads.len() ==> #[trigger] reads[i] is Some
}

/// Whether `values` are the reads, in order, each of which succeeded.
pub open spec fn read_as<T>(reads: Seq<Option<T>>, values: Seq<T>) -> bool {
    &&& reads.len() == values.len()
    &&& forall|i: int| 0 <= i < reads.len() ==> #[trigger] reads[i] == Some(values[i])
}

/// Whether two bounds name the same trait path, or are both not traits.
pub open spec fn same_bound(a: BoundShape, b: BoundShape) -> bool {
    match a {
        BoundShape::Trait(names) => b matches BoundShape::Trait(others) && others@ == names@,
        BoundShape::Other => b == BoundShape::Other,
    }
}

/// Whether a read of a bound succeeded and gave `b`.
pub open spec fn bound_read(read: Option<BoundShape>, b: BoundShape) -> bool {
    match read {
        Some(a) => same_bound(a, b),
        None => false,
    }
}

/// Whether `bounds` are the reads of bounds, in order, each of which
/// succeeded.
pub open spec fn bounds_read(reads: Seq<Option<BoundShape>>, bounds: Seq<BoundShape>) -> bool {
    &&& reads.len() == bounds.len()
    &&& forall|i: int| 0 <= i < reads.len() ==> #[trigger] bound_read(reads[i], bounds[i])
}

/// The identifiers of the segments of a path.
pub open spec fn segment_names(segments: Seq<SegmentShape>) -> Seq<String> {
    segments.map_values(|s: SegmentShape| s.name)
}

/// Whether the reads name a boxed type: the path type has a last segment,
/// whose generic arguments parsed, and the first of them is a type.
pub open spec fn names_boxed_type(segments: Seq<SegmentShape>, reads: FnReads) -> bool {
    segments.len() > 0 && match reads.generic_args {
        Some(args) => args@.len() > 0 && args@[0] is Some,
        None => false,
    }
}

/// Whether `bounds` are those of the trait that a path return type boxes:
/// the trait that its boxed type names where that type is a path, the bounds
/// of the trait object where it is one and each of them parsed, and none
/// otherwise.
pub open spec fn boxed_bounds_are(
    segments: Seq<SegmentShape>,
    reads: FnReads,
    bounds: Seq<BoundShape>,
) -> bool {
    if !names_boxed_type(segments, reads) {
        bounds.len() == 0
    } else {
        match reads.boxed {
            Some(TypeShape::Path(path)) => bounds.len() == 1 && (bounds[0] matches BoundShape::Trait(
                names,
            ) && names@ == segment_names(path@)),
            Some(TypeShape::TraitObject(_)) => if all_read(reads.bounds@) {
                bounds_read(reads.bounds@, bounds)
            } else {
                bounds.len() == 0
            },
            _ => bounds.len() == 0,
        }
    }
}

/// Whether the return type, written as `output`, fails to read: its text
/// does not parse as a type, or it is `impl Trait` and one of its bounds
/// does not parse.
pub open spec fn return_unreadable(output: Option<String>, reads: FnReads) -> bool {
    output is Some && match reads.output {
        None => true,
        Some(TypeShape::ImplTrait(_)) => !all_read(reads.bounds@),
        Some(_) => false,
    }
}

/// Whether `shape` is what the return type, written as `output`, gives the
/// rules: no return type is `Other`; a path type is `Path` with the bounds
/// of the trait it boxes; `impl Trait` is `ImplTrait` with its bounds in
/// order; any other type is `Other`.
pub open spec fn return_shape_is(output: Option<String>, reads: FnReads, shape: ReturnShape) -> bool {
    match output {
        None => shape == ReturnShape::Other,
        Some(_) => match reads.output {
            Some(TypeShape::Path(segments)) => shape matches ReturnShape::Path(bounds)
                && boxed_bounds_are(segments@, reads, bounds@),
            Some(TypeShape::ImplTrait(_)) => shape matches ReturnShape::ImplTrait(bounds)
                && bounds_read(reads.bounds@, bounds@),
            _ => shape == ReturnShape::Other,
        },
    }
}

/// Whether `r` is what the reads of a function item give the rules: an item
/// that does not parse, or one of whose arguments or whose return type does
/// not parse, is `NotParsed`; an item other than a function is
/// `NotFunction`; a function gives its arguments in order, whether it is
/// variadic, and the shape of its return type.
pub open spec fn fn_read_from(reads: FnReads, r: FnRead) -> bool {
    match reads.item {
        ItemRead::NotParsed => r == FnRead::NotParsed,
        ItemRead::NotFunction => r == FnRead::NotFunction,
        ItemRead::Function(parts) => if !all_read(reads.args@) || return_unreadable(
            parts.output,
            reads,
        ) {
            r == FnRead::NotParsed
        } else {
            r matches FnRead::Function(f) && read_as(reads.args@, f.args@) && f.variadic
                == parts.variadic && return_shape_is(parts.output, reads, f.output)
        },
    }
}

fn copy_arg(arg: &FnArgShape) -> (r: FnArgShape)
    ensures
        r == *arg,
{
    match arg {
        FnArgShape::Receiver => FnArgShape::Receiver,
        FnArgShape::Typed(ArgPattern::Other) => FnArgShape::Typed(ArgPattern::Other),
        FnArgShape::Typed(ArgPattern::Ident { name, by_ref }) => FnArgShape::Typed(
            ArgPattern::Ident { name: name.clone(), by_ref: *by_ref },
        ),
    }
}

fn copy_names(names: &Vec<String>) -> (r: Vec<String>)
    ensures
        r@ == names@,
{
    let mut out: Vec<String> = Vec::new();
    let mut i: usize = 0;
    while i < names.len()
        invariant
            i <= names.len(),
            out@ == names@.take(i as int),
        decreases names.len() - i,
    {
        out.push(names[i].clone());
        i = i + 1;
        assert(out@ =~= names@.take(i as int));
    }
    assert(names@.take(names.len() as int) =~= names@);
    out
}

fn copy_bound(b: &BoundShape) -> (r: BoundShape)
    ensures
        same_bound(*b, r),
{
    match b {
        BoundShape::Trait(names) => BoundShape::Trait(copy_names(names)),
        BoundShape::Other => BoundShape::Other,
    }
}

fn names_of(segments: &Vec<SegmentShape>) -> (r: Vec<String>)
    ensures
        r@ == segment_names(segments@),
{
    let mut out: Vec<String> = Vec::new();
    let mut i: usize = 0;
    while i < segments.len()
        invariant
            i <= segments.len(),
            out@ == segment_names(segments@.take(i as int)),
        decreases segments.len() - i,
    {
        out.push(segments[i].name.clone());
        i = i + 1;
        assert(out@ =~= segment_names(segments@.take(i as int)));
    }
    assert(segments@.take(segments.len() as int) =~= segments@);
    out
}

/// The arguments that were read, or `None` where one did not parse.
fn args_from(reads: &Vec<Option<FnArgShape>>) -> (r: Option<Vec<FnArgShape>>)
    ensures
        match r {
            Some(args) => all_read(reads@) && read_as(reads@, args@),
            None => !all_read(reads@),
        },
{
    let mut args: Vec<FnArgShape> = Vec::new();
    let mut i: usize = 0;
    while i < reads.len()
        invariant
            i <= reads.len(),
            args.len() == i,
            forall|k: int| 0 <= k < i ==> #[trigger] reads@[k] == Some(args@[k]),
            forall|k: int| 0 <= k < i ==> #[trigger] reads@[k] is Some,
        decreases reads.len() - i,
    {
        match &reads[i] {
            Some(a) => args.push(copy_arg(a)),
            None => {
                assert(reads@[i as int] is None);
                return None;
            },
        }
        i = i + 1;
    }
    Some(args)
}

/// The bounds that were read, or `None` where one did not parse.
fn bounds_from(reads: &Vec<Option<BoundShape>>) -> (r: Option<Vec<BoundShape>>)
    ensures
        match r {
            Some(bounds) => all_read(reads@) && bounds_read(reads@, bounds@),
            None => !all_read(reads@),
        },
{
    let mut bounds: Vec<BoundShape> = Vec::new();
    let mut i: usize = 0;
    while i < reads.len()
        invariant
            i <= reads.len(),
            bounds.len() == i,
            forall|k: int| 0 <= k < i ==> #[trigger] bound_read(reads@[k], bounds@[k]),
            forall|k: int| 0 <= k < i ==> #[trigger] reads@[k] is Some,
        decreases reads.len() - i,
    {
        match &reads[i] {
            Some(b) => bounds.push(copy_bound(b)),
            None => {
                assert(reads@[i as int] is None);
                return None;
            },
        }
        i = i + 1;
    }
    Some(bounds)
}

/// The bounds of the trait that a path return type boxes, from the reads.
fn boxed_bounds_from(segments: &Vec<SegmentShape>, reads: &FnReads) -> (r: Vec<BoundShape>)
    ensures
        boxed_bounds_are(segments@, *reads, r@),
{
    if segments.len() == 0 {
        return Vec::new();
    }
    match &reads.generic_args {
        None => return Vec::new(),
        Some(args) => {
            if args.len() == 0 {
                return Vec::new();
            }
            if args[0].is_none() {
                return Vec::new();
            }
        },
    }
    assert(names_boxed_type(segments@, *reads));
    match &reads.boxed {
        Some(TypeShape::Path(path)) => {
            let mut bounds: Vec<BoundShape> = Vec::new();
            let names = names_of(path);
            bounds.push(BoundShape::Trait(names));
            assert(bounds@[0] == BoundShape::Trait(names));
            bounds
        },
        Some(TypeShape::TraitObject(_)) => match bounds_from(&reads.bounds) {
            Some(b) => b,
            None => Vec::new(),
        },
        _ => Vec::new(),
    }
}

/// The shape of the return type written as `output`, from the reads; `None`
/// where it does not read.
fn return_shape_from(output: &Option<String>, reads: &FnReads) -> (r: Option<ReturnShape>)
    ensures
        match r {
            Some(shape) => !return_unreadable(*output, *reads) && return_shape_is(
                *output,
                *reads,
                shape,
            ),
            None => return_unreadable(*output, *reads),
        },
{
    if output.is_none() {
        return Some(ReturnShape::Other);
    }
    match &reads.output {
        None => None,
        Some(TypeShape::Path(segments)) => Some(
            ReturnShape::Path(boxed_bounds_from(segments, reads)),
        ),
        Some(TypeShape::ImplTrait(_)) => match bounds_from(&reads.bounds) {
            Some(b) => Some(ReturnShape::ImplTrait(b)),
            None => None,
        },
        Some(_) => Some(ReturnShape::Other),
    }
}

/// What the reads of a function item give the rules (see `fn_read_from`).
pub fn fn_input_from(reads: &FnReads) -> (r: FnRead)
    ensures
        fn_read_from(*reads, r),
{
    let parts: &FnParts = match &reads.item {
        ItemRead::NotParsed => return FnRead::NotParsed,
        ItemRead::NotFunction => return FnRead::NotFunction,
        ItemRead::Function(p) => p,
    };
    let args = match args_from(&reads.args) {
        Some(a) => a,
        None => return FnRead::NotParsed,
    };
    match return_shape_from(&parts.output, reads) {
        None => FnRead::NotParsed,
        Some(output) => FnRead::Function(FnInput { args, output, variadic: parts.variadic }),
    }
}

/// A segment of a path in an argument list: its identifier, and whether it
/// has no generic arguments.
#[derive(Debug, Clone, PartialEq, Eq)]
pub struct PathSegmentRead {
    pub name: String,
    pub plain: bool,
}

/// A path in an argument list: whether it starts with `::`, and its
/// segments.
#[derive(Debug, Clone, PartialEq, Eq)]
pub struct PathRead {
    pub global: bool,
    pub segments: Vec<PathSegmentRead>,
}

/// An item of an argument list, read as an expression.
#[derive(Debug, Clone, PartialEq, Eq)]
pub enum MetaExprRead {
    /// A path.
    Path(PathRead),
    /// An assignment: its left side where that is a path, and the token
    /// text of its right side.
    Assign(Option<PathRead>, String),
    /// Any other expression, a literal among them.
    Other,
}

/// The identifier that a path is, where it is one identifier alone.
pub open spec fn path_word(p: PathRead) -> Option<String> {
    if !p.global && p.segments@.len() == 1 && p.segments@[0].plain {
        Some(p.segments@[0].name)
    } else {
        None
    }
}

/// The meta item that an item of an argument list is: an identifier alone
/// is a word, an assignment to one is `name = value`, anything else is
/// `Other`.
pub open spec fn nested_meta_of(e: MetaExprRead) -> NestedMeta {
    match e {
        MetaExprRead::Path(p) => match path_word(p) {
            Some(w) => NestedMeta::Word(w),
            None => NestedMeta::Other,
        },
        MetaExprRead::Assign(Some(p), value) => match path_word(p) {
            Some(w) => NestedMeta::NameValue(w, value),
            None => NestedMeta::Other,
        },
        MetaExprRead::Assign(None, _) => NestedMeta::Other,
        MetaExprRead::Other => NestedMeta::Other,
    }
}

/// The meta items of an argument list, one for each item that was read.
pub open spec fn nested_metas_of(reads: Seq<MetaExprRead>) -> Seq<NestedMeta> {
    reads.map_values(|e: MetaExprRead| nested_meta_of(e))
}

fn word_of(p: &PathRead) -> (r: Option<String>)
    ensures
        r == path_word(*p),
{
    if !p.global && p.segments.len() == 1 && p.segments[0].plain {
        Some(p.segments[0].name.clone())
    } else {
        None
    }
}

fn nested_meta(e: &MetaExprRead) -> (r: NestedMeta)
    ensures
        r == nested_meta_of(*e),
{
    match e {
        MetaExprRead::Path(p) => match word_of(p) {
            Some(w) => NestedMeta::Word(w),
            None => NestedMeta::Other,
        },
        MetaExprRead::Assign(Some(p), value) => match word_of(p) {
            Some(w) => NestedMeta::NameValue(w, value.clone()),
            None => NestedMeta::Other,
        },
        MetaExprRead::Assign(None, _) => NestedMeta::Other,
        MetaExprRead::Other => NestedMeta::Other,
    }
}

/// The meta items of an argument list, from what each item read as.
pub fn nested_metas(reads: &Vec<MetaExprRead>) -> (r: Vec<NestedMeta>)
    ensures
        r@ == nested_metas_of(reads@),
{
    let mut out: Vec<NestedMeta> = Vec::new();
    let mut i: usize = 0;
    while i < reads.len()
        invariant
            i <= reads.len(),
            out@ == nested_metas_of(reads@.take(i as int)),
        decreases reads.len() - i,
    {
        out.push(nested_meta(&reads[i]));
        i = i + 1;
        assert(out@ =~= nested_metas_of(reads@.take(i as int)));
    }
    assert(reads@.take(reads.len() as int) =~= reads@);
    out
}

} // verus!
