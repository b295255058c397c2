//! The decisions taken at each turn of the loops that `await!` and
//! `#[async] for` expand to: a loop polls a future or a stream, and after
//! each poll either finishes, hands on an item, or yields to wait.

use vstd::prelude::*;

use super::Async;

verus! {

/// What an `await!` loop does after polling its future once.
#[derive(Debug, PartialEq, Eq)]
pub enum AwaitStep<T, E> {
    /// Leave the loop with this result.
    Finish(Result<T, E>),
    /// Yield `Async::Pending` and poll again when resumed.
    Wait,
}

/// The step of an `await!` loop after a poll that answered `polled`: a
/// ready value or an error ends the loop with it; a pending poll waits.
pub fn await_step<T, E>(polled: Result<Async<T>, E>) -> (step: AwaitStep<T, E>)
    ensures
        step == match polled {
            Ok(Async::Ready(v)) => AwaitStep::Finish(Ok(v)),
            Ok(Async::Pending) => AwaitStep::Wait,
            Err(e) => AwaitStep::Finish(Err(e)),
        },
{
    match polled {
        Ok(Async::Ready(v)) => AwaitStep::Finish(Ok(v)),
        Ok(Async::Pending) => AwaitStep::Wait,
        Err(e) => AwaitStep::Finish(Err(e)),
    }
}

/// What the loop of an `#[async] for` does after polling its stream once.
#[derive(Debug, Clone, PartialEq, Eq)]
pub enum ForStep<T, E> {
    /// Run the body of the loop with this item.
    Item(T),
    /// The stream has no more items: leave the loop.
    Exhausted,
    /// Yield `Async::Pending` and poll again when resumed.
    Wait,
    /// Return this error from the enclosing function.
    Fail(E),
}

/// The step of an `#[async] for` loop after a poll of its stream that
/// answered `polled`.
pub fn for_step<T, E>(polled: Result<Async<Option<T>>, E>) -> (step: ForStep<T, E>)
    ensures
        step == match polled {
            Ok(Async::Ready(Some(v))) => ForStep::Item(v),
            Ok(Async::Ready(None)) => ForStep::Exhausted,
            Ok(Async::Pending) => ForStep::Wait,
            Err(e) => ForStep::Fail(e),
        },
{
    match polled {
        Ok(Async::Ready(Some(v))) => ForStep::Item(v),
        Ok(Async::Ready(None)) => ForStep::Exhausted,
        Ok(Async::Pending) => ForStep::Wait,
        Err(e) => ForStep::Fail(e),
    }
}

} // verus!
