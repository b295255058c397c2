//! Handing out spans and placeholders over generated tokens.
//!
//! Tokens are seen through plain data: their spans, or whether each is a
//! `!` placeholder. What the functions here return says, token by token,
//! which span it takes or what takes its place.

use vstd::prelude::*;

verus! {

/// The spans that generated code borrows from a piece of the input: the
/// span of its first token and that of its last, or `default` twice when the
/// piece has no token.
pub fn first_last<S: Copy>(spans: &Vec<S>, default: S) -> (r: (S, S))
    ensures
        spans@.len() == 0 ==> r == (default, default),
        spans@.len() > 0 ==> r == (spans@[0], spans@.last()),
{
    if spans.len() == 0 {
        (default, default)
    } else {
        let first = spans[0];
        let last = spans[spans.len() - 1];
        (first, last)
    }
}

/// Gives the first token the span `first` and every other token the span
/// `last`, so that errors in generated code point at the input.
pub fn respan<S: Copy>(spans: &mut Vec<S>, first: S, last: S)
    ensures
        final(spans)@.len() == old(spans)@.len(),
        forall|i: int|
            0 <= i < final(spans)@.len() ==> #[trigger] final(spans)@[i] == if i == 0 {
                first
            } else {
                last
            },
{
    let n = spans.len();
    let mut i: usize = 0;
    while i < n
        invariant
            n == spans@.len(),
            i <= n,
            forall|k: int|
                0 <= k < i ==> #[trigger] spans@[k] == if k == 0 {
                    first
                } else {
                    last
                },
        decreases n - i,
    {
        if i == 0 {
            spans.set(i, first);
        } else {
            spans.set(i, last);
        }
        i = i + 1;
    }
}

/// How many of the flags are set.
pub open spec fn count_true(s: Seq<bool>) -> nat
    decreases s.len(),
{
    if s.len() == 0 {
        0
    } else {
        count_true(s.drop_last()) + if s.last() {
            1nat
        } else {
            0nat
        }
    }
}

/// What takes the place of each token when the `!` placeholders among them
/// are filled from `n` replacements used in turn: `None` keeps the token,
/// `Some(j)` puts the `j`-th replacement in its place.
pub open spec fn bang_plan(is_bang: Seq<bool>, n: nat, i: int) -> Option<nat> {
    if is_bang[i] {
        Some(count_true(is_bang.take(i)) % n)
    } else {
        None
    }
}

proof fn lemma_count_step(s: Seq<bool>, i: int)
    requires
        0 <= i < s.len(),
    ensures
        count_true(s.take(i + 1)) == count_true(s.take(i)) + if s[i] {
            1nat
        } else {
            0nat
        },
{
    assert(s.take(i + 1).drop_last() =~= s.take(i));
}

proof fn lemma_count_prefix(s: Seq<bool>, i: int, j: int)
    requires
        0 <= i <= j <= s.len(),
    ensures
        count_true(s.take(i)) <= count_true(s.take(j)),
    decreases j - i,
{
    if i < j {
        lemma_count_step(s, j - 1);
        lemma_count_prefix(s, i, j - 1);
    }
}

/// Fills every `!` placeholder among the tokens from `replacements`
/// replacements, used in turn and from the first again once all are used:
/// the `k`-th placeholder (from 0) gets replacement `k % replacements`.
/// Other tokens stay.
pub fn replace_bangs(is_bang: &Vec<bool>, replacements: usize) -> (plan: Vec<Option<usize>>)
    requires
        replacements > 0 || forall|i: int| 0 <= i < is_bang@.len() ==> !is_bang@[i],
    ensures
        plan@.len() == is_bang@.len(),
        forall|i: int|
            0 <= i < is_bang@.len() ==> #[trigger] plan@[i] == match bang_plan(
                is_bang@,
                replacements as nat,
                i,
            ) {
                Some(j) => Some(j as usize),
                None => None,
            },
{
    let mut plan: Vec<Option<usize>> = Vec::new();
    let mut used: usize = 0;
    let mut i: usize = 0;
    while i < is_bang.len()
        invariant
            replacements > 0 || forall|k: int| 0 <= k < is_bang@.len() ==> !is_bang@[k],
            i <= is_bang@.len(),
            plan@.len() == i,
            used == count_true(is_bang@.take(i as int)),
            used <= i,
            forall|k: int|
                0 <= k < i ==> #[trigger] plan@[k] == match bang_plan(
                    is_bang@,
                    replacements as nat,
                    k,
                ) {
                    Some(j) => Some(j as usize),
                    None => None,
                },
        decreases is_bang@.len() - i,
    {
        proof {
            lemma_count_step(is_bang@, i as int);
        }
        if is_bang[i] {
            plan.push(Some(used % replacements));
            used = used + 1;
        } else {
            plan.push(None);
        }
        i = i + 1;
    }
    plan
}

/// Puts one replacement in place of every `!` placeholder among the tokens.
pub fn replace_bang(is_bang: &Vec<bool>) -> (plan: Vec<Option<usize>>)
    ensures
        plan@.len() == is_bang@.len(),
        forall|i: int|
            0 <= i < is_bang@.len() ==> #[trigger] plan@[i] == if is_bang@[i] {
                Some(0usize)
            } else {
                None
            },
{
    let plan = replace_bangs(is_bang, 1);
    assert forall|i: int| 0 <= i < is_bang@.len() implies #[trigger] plan@[i] == if is_bang@[i] {
        Some(0usize)
    } else {
        None
    } by {
        assert(plan@[i] == match bang_plan(is_bang@, 1, i) {
            Some(j) => Some(j as usize),
            None => None,
        });
    }
    plan
}

/// With exactly as many replacements as placeholders, each replacement is
/// used once, in order: the `k`-th placeholder gets the `k`-th replacement.
pub proof fn lemma_replacements_used_once(is_bang: Seq<bool>, i: int)
    requires
        0 <= i < is_bang.len(),
        is_bang[i],
    ensures
        bang_plan(is_bang, count_true(is_bang), i) == Some(count_true(is_bang.take(i))),
{
    lemma_count_step(is_bang, i);
    lemma_count_prefix(is_bang, i + 1, is_bang.len() as int);
    assert(is_bang.take(is_bang.len() as int) =~= is_bang);
    let k = count_true(is_bang.take(i));
    let n = count_true(is_bang);
    assert(k < n);
    assert(k % n == k) by (nonlinear_arith)
        requires
            k < n,
    ;
}

} // verus!
