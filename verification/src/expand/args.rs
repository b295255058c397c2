//! Which arguments of an `#[async]` function are rebound.
//!
//! The body of the function moves into a generator. An argument whose
//! pattern does more than bind a name (`ref a`, `(x, y)`, ...) is taken
//! under a fresh name `__arg_<position>` in the signature, and its pattern
//! is bound from that name at the top of the generator, so that every
//! local moves into the generator and is bound as its pattern says.

use vstd::prelude::*;

use super::text::{lemma_temp_names_distinct, str_eq, temp_binding_name, temp_name};

verus! {

/// The pattern of a typed argument.
#[derive(Debug, Clone, PartialEq, Eq)]
pub enum ArgPattern {
    /// A pattern that binds one name: `a`, `mut a`, `ref a`.
    Ident { name: String, by_ref: bool },
    /// Any other pattern.
    Other,
}

/// An argument of a function signature.
#[derive(Debug, Clone, PartialEq, Eq)]
pub enum FnArgShape {
    /// An argument written `pattern: Type`.
    Typed(ArgPattern),
    /// A receiver such as `self`, `&self` or `&mut self`.
    Receiver,
}

/// What becomes of an argument in the rewritten signature.
#[derive(Debug, Clone, PartialEq, Eq)]
pub enum ArgPlan {
    /// It stays as it is written.
    Keep,
    /// It is taken under this name, and its pattern is bound from it in the
    /// generator.
    Rebind(String),
}

/// The characters of `self`.
pub open spec fn self_word() -> Seq<char> {
    seq!['s', 'e', 'l', 'f']
}

/// Whether an argument is written `self: Type`, which the generator
/// captures as it is.
pub open spec fn is_typed_self(arg: FnArgShape) -> bool {
    arg matches FnArgShape::Typed(ArgPattern::Ident { name, .. }) && name@ == self_word()
}

/// Whether the attribute rebinds an argument: a typed argument, other than
/// `self: Type`, whose pattern is not a plain name (a name bound by
/// reference counts as a pattern).
pub open spec fn rebinds(arg: FnArgShape) -> bool {
    &&& arg is Typed
    &&& !is_typed_self(arg)
    &&& !(arg matches FnArgShape::Typed(ArgPattern::Ident { by_ref, .. }) && !by_ref)
}

/// Whether the first form of the attribute rebinds an argument: every typed
/// argument other than `self: Type`.
pub open spec fn legacy_rebinds(arg: FnArgShape) -> bool {
    arg is Typed && !is_typed_self(arg)
}

/// Whether `plan` says, position by position, what becomes of `args`: an
/// argument that `rebinds` (or, in the first form, `legacy_rebinds`) is
/// taken under the fresh name of its position, and any other stays.
pub open spec fn plan_for(args: Seq<FnArgShape>, plan: Seq<ArgPlan>, legacy: bool) -> bool {
    &&& plan.len() == args.len()
    &&& forall|i: int|
        0 <= i < args.len() ==> if (if legacy {
            legacy_rebinds(args[i])
        } else {
            rebinds(args[i])
        }) {
            #[trigger] plan[i] matches ArgPlan::Rebind(name) && name@ == temp_name(i as nat)
        } else {
            plan[i] is Keep
        }
}

fn is_self_word(name: &String) -> (r: bool)
    ensures
        r == (name@ == self_word()),
{
    proof {
        reveal_strlit("self");
        assert("self"@ =~= self_word());
    }
    str_eq(name.as_str(), "self")
}

fn arg_rebinds(arg: &FnArgShape, legacy: bool) -> (r: bool)
    ensures
        r == if legacy {
            legacy_rebinds(*arg)
        } else {
            rebinds(*arg)
        },
{
    match arg {
        FnArgShape::Receiver => false,
        FnArgShape::Typed(ArgPattern::Other) => true,
        FnArgShape::Typed(ArgPattern::Ident { name, by_ref }) => {
            if is_self_word(name) {
                false
            } else {
                legacy || *by_ref
            }
        },
    }
}

fn plan_args(args: &Vec<FnArgShape>, legacy: bool) -> (plan: Vec<ArgPlan>)
    ensures
        plan_for(args@, plan@, legacy),
{
    let mut plan: Vec<ArgPlan> = Vec::new();
    let mut i: usize = 0;
    while i < args.len()
        invariant
            i <= args.len(),
            plan.len() == i,
            forall|k: int|
                0 <= k < i ==> if (if legacy {
                    legacy_rebinds(args@[k])
                } else {
                    rebinds(args@[k])
                }) {
                    #[trigger] plan@[k] matches ArgPlan::Rebind(name) && name@ == temp_name(
                        k as nat,
                    )
                } else {
                    plan@[k] is Keep
                },
        decreases args.len() - i,
    {
        if arg_rebinds(&args[i], legacy) {
            plan.push(ArgPlan::Rebind(temp_binding_name(i)));
        } else {
            plan.push(ArgPlan::Keep);
        }
        i = i + 1;
    }
    plan
}

/// What becomes of each argument of an `#[async]` function: plain names
/// and receivers stay, every other typed argument is rebound to the fresh
/// name of its position.
pub fn rebind_args(args: &Vec<FnArgShape>) -> (plan: Vec<ArgPlan>)
    ensures
        plan_for(args@, plan@, false),
{
    plan_args(args, false)
}

/// What becomes of each argument in the first form of the attribute: every
/// typed argument other than `self: Type` is rebound to the fresh name of its
/// position.
pub fn legacy_rebind_args(args: &Vec<FnArgShape>) -> (plan: Vec<ArgPlan>)
    ensures
        plan_for(args@, plan@, true),
{
    plan_args(args, true)
}

/// No two arguments of one signature are rebound to the same name, so the
/// fresh names never capture one another.
pub proof fn lemma_rebound_names_distinct(
    args: Seq<FnArgShape>,
    plan: Seq<ArgPlan>,
    legacy: bool,
    i: int,
    j: int,
)
    requires
        plan_for(args, plan, legacy),
        0 <= i < plan.len(),
        0 <= j < plan.len(),
        i != j,
        plan[i] is Rebind,
        plan[j] is Rebind,
    ensures
        plan[i]->Rebind_0@ != plan[j]->Rebind_0@,
{
    assert(plan[i] matches ArgPlan::Rebind(name) && name@ == temp_name(i as nat));
    assert(plan[j] matches ArgPlan::Rebind(name) && name@ == temp_name(j as nat));
    lemma_temp_names_distinct(i as nat, j as nat);
}

} // verus!
