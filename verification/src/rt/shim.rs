//! The shims that turn the steps of a generator into polls of a future or
//! of a stream.
//!
//! A poll of a stream first asks `poll_next_start`: a stream that has
//! finished answers at once, without touching its generator; otherwise the
//! generator is resumed and what it gives back goes to `poll_next_resumed`,
//! which answers the poll. A poll of a future resumes the generator and hands
//! the step to `poll_resumed`.

use vstd::prelude::*;

use core::marker::PhantomData;

use super::{Async, IsResult, Mu, Resumed, diverge};

verus! {

/// What a poll of an unfinished stream answers, given the step its generator
/// made, together with whether the stream is finished afterwards.
pub open spec fn stream_resumed<Y, R: IsResult<Ok = ()>>(r: Resumed<Async<Y>, R>) -> (
    bool,
    Result<Async<Option<Y>>, R::Err>,
) {
    match r {
        Resumed::Yielded(Async::Ready(e)) => (false, Ok(Async::Ready(Some(e)))),
        Resumed::Yielded(Async::Pending) => (false, Ok(Async::Pending)),
        Resumed::Complete(v) => match v.as_result() {
            Ok(_) => (true, Ok(Async::Ready(None))),
            Err(e) => (true, Err(e)),
        },
    }
}

/// What a poll of a stream answers before its generator is resumed: a
/// finished stream answers that it has no more items; an unfinished one
/// answers nothing yet (`None`) and has its generator resumed.
pub open spec fn stream_start<Y, E>(done: bool) -> Option<Result<Async<Option<Y>>, E>> {
    if done {
        Some(Ok(Async::Ready(None)))
    } else {
        None
    }
}

/// What a poll of a future answers when its generator has returned `v`.
pub open spec fn future_completed<R: IsResult>(v: R) -> Result<Async<R::Ok>, R::Err> {
    match v.as_result() {
        Ok(x) => Ok(Async::Ready(x)),
        Err(e) => Err(e),
    }
}

/// The answers of `polls` successive polls of a stream that starts finished
/// or not (`done`) and whose generator, each time it is resumed, makes the
/// next step of `steps`. The trace stops early when the generator would be
/// resumed and no step is left.
pub open spec fn stream_trace<Y, R: IsResult<Ok = ()>>(
    done: bool,
    steps: Seq<Resumed<Async<Y>, R>>,
    polls: nat,
) -> Seq<Result<Async<Option<Y>>, R::Err>>
    decreases polls,
{
    if polls == 0 {
        Seq::empty()
    } else {
        match stream_start::<Y, R::Err>(done) {
            Some(answer) => seq![answer] + stream_trace(done, steps, (polls - 1) as nat),
            None => if steps.len() == 0 {
                Seq::empty()
            } else {
                let (now_done, answer) = stream_resumed(steps[0]);
                seq![answer] + stream_trace(now_done, steps.drop_first(), (polls - 1) as nat)
            },
        }
    }
}

/// Whether an answer ends a stream: an error, or no more items.
pub open spec fn ends_stream<Y, E>(answer: Result<Async<Option<Y>>, E>) -> bool {
    match answer {
        Err(_) => true,
        Ok(Async::Ready(None)) => true,
        _ => false,
    }
}

/// A finished stream answers every later poll with "no more items".
proof fn lemma_finished_stream_stays_finished<Y, R: IsResult<Ok = ()>>(
    steps: Seq<Resumed<Async<Y>, R>>,
    polls: nat,
)
    ensures
        forall|k: int|
            0 <= k < stream_trace(true, steps, polls).len() ==> #[trigger] stream_trace(
                true,
                steps,
                polls,
            )[k] == Ok::<Async<Option<Y>>, R::Err>(Async::Ready(None)),
    decreases polls,
{
    if polls > 0 {
        lemma_finished_stream_stays_finished(steps, (polls - 1) as nat);
    }
}

/// Once a stream has answered a poll with an error or with "no more items",
/// it answers every later poll with "no more items", whatever its generator
/// would do: a stream built by the shim is fused.
pub proof fn lemma_stream_fused<Y, R: IsResult<Ok = ()>>(
    done: bool,
    steps: Seq<Resumed<Async<Y>, R>>,
    polls: nat,
    i: int,
    j: int,
)
    requires
        0 <= i < j < stream_trace(done, steps, polls).len(),
        ends_stream(stream_trace(done, steps, polls)[i]),
    ensures
        stream_trace(done, steps, polls)[j] == Ok::<Async<Option<Y>>, R::Err>(
            Async::Ready(None),
        ),
    decreases polls,
{
    let t = stream_trace(done, steps, polls);
    if done {
        lemma_finished_stream_stays_finished(steps, polls);
        assert(t[j] == Ok::<Async<Option<Y>>, R::Err>(Async::Ready(None)));
    } else {
        let (now_done, answer) = stream_resumed(steps[0]);
        let rest = stream_trace(now_done, steps.drop_first(), (polls - 1) as nat);
        assert(t == seq![answer] + rest);
        if i == 0 {
            assert(now_done);
            lemma_finished_stream_stays_finished(steps.drop_first(), (polls - 1) as nat);
            assert(t[j] == rest[j - 1]);
        } else {
            assert(t[i] == rest[i - 1]);
            assert(t[j] == rest[j - 1]);
            lemma_stream_fused(now_done, steps.drop_first(), (polls - 1) as nat, i - 1, j - 1);
        }
    }
}

fn stream_step<Y, R: IsResult<Ok = ()>>(r: Resumed<Async<Y>, R>) -> (out: (
    bool,
    Result<Async<Option<Y>>, R::Err>,
))
    ensures
        out == stream_resumed(r),
{
    match r {
        Resumed::Yielded(Async::Ready(e)) => (false, Ok(Async::Ready(Some(e)))),
        Resumed::Yielded(Async::Pending) => (false, Ok(Async::Pending)),
        Resumed::Complete(v) => match v.into_result() {
            Ok(_) => (true, Ok(Async::Ready(None))),
            Err(e) => (true, Err(e)),
        },
    }
}

fn stream_first<Y, E>(done: bool) -> (out: Option<Result<Async<Option<Y>>, E>>)
    ensures
        out == stream_start::<Y, E>(done),
{
    if done {
        Some(Ok(Async::Ready(None)))
    } else {
        None
    }
}

fn future_step<R: IsResult>(r: Resumed<Async<Mu>, R>) -> (out: Result<Async<R::Ok>, R::Err>)
    ensures
        r matches Resumed::Yielded(Async::Pending) ==> out == Ok::<Async<R::Ok>, R::Err>(
            Async::Pending,
        ),
        r matches Resumed::Complete(v) ==> out == future_completed(v),
{
    match r {
        Resumed::Yielded(Async::Pending) => Ok(Async::Pending),
        Resumed::Yielded(Async::Ready(mu)) => diverge(mu),
        Resumed::Complete(v) => match v.into_result() {
            Ok(x) => Ok(Async::Ready(x)),
            Err(e) => Err(e),
        },
    }
}

/// Adapts a generator to the future and stream protocols. The generator
/// stays where the shim keeps it; whoever polls resumes it through
/// `generator_mut` and hands the step it made to the shim.
pub struct GenAsync<Gen, Yield> {
    gen: Gen,
    done: bool,
    phantom: PhantomData<Yield>,
}

/// Builds the shim over a generator that has not run yet.
pub fn gen_async<Gen, Yield>(gen: Gen) -> (s: GenAsync<Gen, Yield>)
    ensures
        s.generator() == gen,
        !s.is_done(),
{
    GenAsync { gen, done: false, phantom: PhantomData }
}

impl<Gen, Yield> GenAsync<Gen, Yield> {
    /// The generator the shim drives.
    pub closed spec fn generator(&self) -> Gen {
        self.gen
    }

    /// Whether the stream has finished: its generator has returned.
    pub closed spec fn is_done(&self) -> bool {
        self.done
    }

    /// The generator, to be resumed.
    pub fn generator_mut(&mut self) -> (g: &mut Gen)
        ensures
            *g == old(self).generator(),
            final(self).generator() == *final(g),
            final(self).is_done() == old(self).is_done(),
    {
        &mut self.gen
    }

    /// Begins a poll of the stream: the answer of a finished stream, or
    /// `None` when the generator is to be resumed.
    pub fn poll_next_start<E>(&self) -> (out: Option<Result<Async<Option<Yield>>, E>>)
        ensures
            out == stream_start::<Yield, E>(self.is_done()),
    {
        stream_first(self.done)
    }

    /// Ends a poll of the stream whose generator made the step `r`.
    pub fn poll_next_resumed<R: IsResult<Ok = ()>>(&mut self, r: Resumed<Async<Yield>, R>) -> (out:
        Result<Async<Option<Yield>>, R::Err>)
        requires
            !old(self).is_done(),
        ensures
            (final(self).is_done(), out) == stream_resumed(r),
            final(self).generator() == old(self).generator(),
    {
        let (done, out) = stream_step(r);
        self.done = done;
        out
    }
}

impl<Gen> GenAsync<Gen, Mu> {
    /// Answers a poll of the future whose generator made the step `r`.
    pub fn poll_resumed<R: IsResult>(&self, r: Resumed<Async<Mu>, R>) -> (out: Result<
        Async<R::Ok>,
        R::Err,
    >)
        ensures
            r matches Resumed::Yielded(Async::Pending) ==> out == Ok::<Async<R::Ok>, R::Err>(
                Async::Pending,
            ),
            r matches Resumed::Complete(v) ==> out == future_completed(v),
    {
        future_step(r)
    }
}

/// Adapts a movable generator to the future and stream protocols; it
/// behaves as `GenAsync`, whose pinned counterpart it is not.
pub struct GenAsyncMove<Gen, Yield> {
    gen: Gen,
    done: bool,
    phantom: PhantomData<Yield>,
}

/// Builds the movable shim over a generator that has not run yet.
pub fn gen_async_move<Gen, Yield>(gen: Gen) -> (s: GenAsyncMove<Gen, Yield>)
    ensures
        s.generator() == gen,
        !s.is_done(),
{
    GenAsyncMove { gen, done: false, phantom: PhantomData }
}

impl<Gen, Yield> GenAsyncMove<Gen, Yield> {
    /// The generator the shim drives.
    pub closed spec fn generator(&self) -> Gen {
        self.gen
    }

    /// Whether the stream has finished: its generator has returned.
    pub closed spec fn is_done(&self) -> bool {
        self.done
    }

    /// The generator, to be resumed.
    pub fn generator_mut(&mut self) -> (g: &mut Gen)
        ensures
            *g == old(self).generator(),
            final(self).generator() == *final(g),
            final(self).is_done() == old(self).is_done(),
    {
        &mut self.gen
    }

    /// Begins a poll of the stream: the answer of a finished stream, or
    /// `None` when the generator is to be resumed.
    pub fn poll_next_start<E>(&self) -> (out: Option<Result<Async<Option<Yield>>, E>>)
        ensures
            out == stream_start::<Yield, E>(self.is_done()),
    {
        stream_first(self.done)
    }

    /// Ends a poll of the stream whose generator made the step `r`.
    pub fn poll_next_resumed<R: IsResult<Ok = ()>>(&mut self, r: Resumed<Async<Yield>, R>) -> (out:
        Result<Async<Option<Yield>>, R::Err>)
        requires
            !old(self).is_done(),
        ensures
            (final(self).is_done(), out) == stream_resumed(r),
            final(self).generator() == old(self).generator(),
    {
        let (done, out) = stream_step(r);
        self.done = done;
        out
    }
}

impl<Gen> GenAsyncMove<Gen, Mu> {
    /// Answers a poll of the future whose generator made the step `r`.
    pub fn poll_resumed<R: IsResult>(&self, r: Resumed<Async<Mu>, R>) -> (out: Result<
        Async<R::Ok>,
        R::Err,
    >)
        ensures
            r matches Resumed::Yielded(Async::Pending) ==> out == Ok::<Async<R::Ok>, R::Err>(
                Async::Pending,
            ),
            r matches Resumed::Complete(v) ==> out == future_completed(v),
    {
        future_step(r)
    }
}

/// The first form of the shim, for generators that yield `Async` values:
/// it behaves as `GenAsync`.
pub struct GenFuture<Gen, Yield> {
    gen: Gen,
    done: bool,
    phantom: PhantomData<Yield>,
}

/// Builds the first form of the shim over a generator that has not run yet.
pub fn gen<Gen, Yield>(generator: Gen) -> (s: GenFuture<Gen, Yield>)
    ensures
        s.generator() == generator,
        !s.is_done(),
{
    GenFuture { gen: generator, done: false, phantom: PhantomData }
}

impl<Gen, Yield> GenFuture<Gen, Yield> {
    /// The generator the shim drives.
    pub closed spec fn generator(&self) -> Gen {
        self.gen
    }

    /// Whether the stream has finished: its generator has returned.
    pub closed spec fn is_done(&self) -> bool {
        self.done
    }

    /// The generator, to be resumed.
    pub fn generator_mut(&mut self) -> (g: &mut Gen)
        ensures
            *g == old(self).generator(),
            final(self).generator() == *final(g),
            final(self).is_done() == old(self).is_done(),
    {
        &mut self.gen
    }

    /// Begins a poll of the stream: the answer of a finished stream, or
    /// `None` when the generator is to be resumed.
    pub fn poll_next_start<E>(&self) -> (out: Option<Result<Async<Option<Yield>>, E>>)
        ensures
            out == stream_start::<Yield, E>(self.is_done()),
    {
        stream_first(self.done)
    }

    /// Ends a poll of the stream whose generator made the step `r`.
    pub fn poll_next_resumed<R: IsResult<Ok = ()>>(&mut self, r: Resumed<Async<Yield>, R>) -> (out:
        Result<Async<Option<Yield>>, R::Err>)
        requires
            !old(self).is_done(),
        ensures
            (final(self).is_done(), out) == stream_resumed(r),
            final(self).generator() == old(self).generator(),
    {
        let (done, out) = stream_step(r);
        self.done = done;
        out
    }
}

impl<Gen> GenFuture<Gen, Mu> {
    /// Answers a poll of the future whose generator made the step `r`.
    pub fn poll_resumed<R: IsResult>(&self, r: Resumed<Async<Mu>, R>) -> (out: Result<
        Async<R::Ok>,
        R::Err,
    >)
        ensures
            r matches Resumed::Yielded(Async::Pending) ==> out == Ok::<Async<R::Ok>, R::Err>(
                Async::Pending,
            ),
            r matches Resumed::Complete(v) ==> out == future_completed(v),
    {
        future_step(r)
    }
}

} // verus!
