//! Runtime support that the expanded code relies on.

use vstd::prelude::*;

pub mod maybe_box;
pub mod shim;
pub mod steps;

pub use maybe_box::{MaybeBox, NotBox};
pub use shim::{GenAsync, GenAsyncMove, GenFuture, gen, gen_async, gen_async_move};
pub use steps::{AwaitStep, ForStep, await_step, for_step};

verus! {

/// A type with no values: its invariant can never hold, so no value of it
/// is ever built. It is the yield type of a generator behind a future,
/// which only ever yields `Async::Pending`.
pub struct Mu {
    unreachable: (),
}

impl Mu {
    #[verifier::type_invariant]
    spec fn never(self) -> bool {
        false
    }
}

/// Produces a value of any type from a value that cannot exist; no call of
/// it is ever reached.
pub fn diverge<T>(mu: Mu) -> T
    decreases 0nat,
{
    proof {
        use_type_invariant(&mu);
    }
    diverge(mu)
}

/// The readiness of a polled computation.
#[derive(Debug, Clone, PartialEq, Eq)]
pub enum Async<T> {
    /// The computation has produced a value.
    Ready(T),
    /// The computation cannot go on yet.
    Pending,
}

/// What resuming a generator gave back.
#[derive(Debug, Clone, PartialEq, Eq)]
pub enum Resumed<Y, R> {
    /// The generator suspended with a value.
    Yielded(Y),
    /// The generator ran to its end and returned a value.
    Complete(R),
}

/// The return type of a function written with the `#[async]` attribute: a
/// `Result`, or a type that stands for one.
pub trait IsResult: Sized {
    type Ok;
    type Err;

    /// The `Result` that this value stands for.
    spec fn as_result(&self) -> Result<Self::Ok, Self::Err>;

    fn into_result(self) -> (r: Result<Self::Ok, Self::Err>)
        ensures
            r == self.as_result(),
    ;
}

impl<T, E> IsResult for Result<T, E> {
    type Ok = T;
    type Err = E;

    open spec fn as_result(&self) -> Result<T, E> {
        *self
    }

    fn into_result(self) -> (r: Result<T, E>) {
        self
    }
}


/// A `Result` stands for itself: turning it into a `Result` gives it back.
pub proof fn lemma_result_is_its_own_result<T, E>(r: Result<T, E>)
    ensures
        r.as_result() == r,
{
}

} // verus!
