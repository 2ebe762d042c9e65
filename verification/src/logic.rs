//! Pull-based source logics: state machines that produce one element per pull.
use vstd::prelude::*;
use crate::error::StreamError;
use crate::body::StreamEnd;
use crate::mat::StreamNotUsed;
use crate::source::Source;

verus! {

/// A pull-based producer of stream elements, implemented by users to feed custom sources.
///
/// `pull` returns `Ok(Some(v))` for the next element, `Ok(None)` when the source is finished,
/// `Err(StreamError::WouldBlock)` when no element is ready yet, and any other error to fail the stream.
pub trait SourceLogic<Out>: Sized {
    /// Whether the logic can be pulled; logics without preconditions are always ready.
    open spec fn ready(&self) -> bool {
        true
    }

    /// Whether a pull of `self` may return `result` and leave `after`; a logic that states nothing
    /// of its pulls admits every answer.
    open spec fn pulls(&self, result: Result<Option<Out>, StreamError>, after: Self) -> bool {
        true
    }

    /// Produces the next element, reports the end of the source, or reports an error.
    fn pull(&mut self) -> (r: Result<Option<Out>, StreamError>)
        requires old(self).ready(),
        ensures final(self).ready(), old(self).pulls(r, *final(self));
}

/// One pull of a logic: the state before it, its answer and the state after it.
pub type PullStep<L, Out> = (L, Result<Option<Out>, StreamError>, L);

/// `steps` records pulling `logic` over and over: each pull starts where the previous one ended.
pub open spec fn pulled_steps<Out, L: SourceLogic<Out>>(logic: L, steps: Seq<PullStep<L, Out>>) -> bool {
    &&& steps.len() > 0 ==> steps[0].0 == logic
    &&& forall|j: int| 0 <= j < steps.len() ==> (#[trigger] steps[j]).0.pulls(steps[j].1, steps[j].2)
    &&& forall|j: int, k: int| #![trigger steps[j], steps[k]] 0 <= j && k == j + 1 && k < steps.len() ==> steps[k].0 == steps[j].2
}

/// The number of `WouldBlock` answers in a row after which a pulled source stalls.
pub const IDLE_PULL_LIMIT: usize = 1024;

/// What a pulled source has after the answers `answers`: the elements so far, the number of
/// `WouldBlock` answers since the last element, and how it ended once it has. An element resets
/// the count; `Ok(None)` completes; a `WouldBlock` beyond `IDLE_PULL_LIMIT` in a row stalls; any
/// other error fails. Answers after the end change nothing.
pub open spec fn pull_run<Out>(answers: Seq<Result<Option<Out>, StreamError>>) -> (Seq<Out>, nat, Option<StreamEnd>)
    decreases answers.len(),
{
    if answers.len() == 0 {
        (Seq::empty(), 0, None)
    } else {
        let (xs, idle, end) = pull_run(answers.drop_last());
        if end is Some {
            (xs, idle, end)
        } else {
            match answers.last() {
                Ok(Some(v)) => (xs.push(v), 0, None),
                Ok(None) => (xs, idle, Some(StreamEnd::Completed)),
                Err(StreamError::WouldBlock) => if idle >= IDLE_PULL_LIMIT {
                    (xs, idle, Some(StreamEnd::Stalled))
                } else {
                    (xs, idle + 1, None)
                },
                Err(e) => (xs, idle, Some(StreamEnd::Failed(e))),
            }
        }
    }
}

/// The pull at which each element that `pull_run` keeps arrived: one pull is one drive step.
pub open spec fn pull_ticks<Out>(answers: Seq<Result<Option<Out>, StreamError>>) -> Seq<int>
    decreases answers.len(),
{
    if answers.len() == 0 {
        Seq::empty()
    } else {
        let prior = pull_ticks(answers.drop_last());
        if pull_run(answers.drop_last()).2 is Some {
            prior
        } else {
            match answers.last() {
                Ok(Some(_)) => prior.push(answers.len() - 1),
                _ => prior,
            }
        }
    }
}

/// The answers of the recorded pulls, in order.
pub open spec fn pull_answers<L, Out>(steps: Seq<PullStep<L, Out>>) -> Seq<Result<Option<Out>, StreamError>> {
    steps.map_values(|s: PullStep<L, Out>| s.1)
}

/// Recording one more pull keeps a record of pulling `logic`.
pub proof fn lemma_pulled_push<Out, L: SourceLogic<Out>>(logic: L, steps: Seq<PullStep<L, Out>>, step: PullStep<L, Out>)
    requires
        pulled_steps(logic, steps),
        step.0 == if steps.len() == 0 { logic } else { steps.last().2 },
        step.0.pulls(step.1, step.2),
    ensures pulled_steps(logic, steps.push(step)),
{
    let next = steps.push(step);
    let n = steps.len() as int;
    assert forall|j: int| 0 <= j < next.len() implies (#[trigger] next[j]).0.pulls(next[j].1, next[j].2) by {
        if j < n {
            assert(next[j] == steps[j]);
        }
    }
    assert forall|j: int, k: int| #![trigger next[j], next[k]] 0 <= j && k == j + 1 && k < next.len() implies
        next[k].0 == next[j].2 by {
        assert(next[j] == steps[j]);
        if k < n {
            assert(next[k] == steps[k]);
        }
    }
}

/// Emits the same element forever.
pub struct RepeatSourceLogic<Out> {
    pub value: Out,
}

impl<Out: Clone> SourceLogic<Out> for RepeatSourceLogic<Out> {
    /// Every pull answers a clone of the value and leaves the logic as it was.
    open spec fn pulls(&self, result: Result<Option<Out>, StreamError>, after: Self) -> bool {
        (result matches Ok(Some(v)) && cloned(self.value, v)) && after == *self
    }

    fn pull(&mut self) -> (r: Result<Option<Out>, StreamError>) {
        Ok(Some(self.value.clone()))
    }
}

/// Cycles over a fixed sequence of elements forever; an empty sequence finishes at once.
pub struct CycleSourceLogic<Out> {
    pub values: Vec<Out>,
    pub index: usize,
}

impl<Out: Clone> SourceLogic<Out> for CycleSourceLogic<Out> {
    /// An empty cycle finishes; otherwise a pull answers a clone of the element at the position
    /// (the first one when the position is past the end) and moves the position on, wrapping around.
    open spec fn pulls(&self, result: Result<Option<Out>, StreamError>, after: Self) -> bool {
        &&& after.values@ == self.values@
        &&& self.values@.len() == 0 ==> result == Ok::<Option<Out>, StreamError>(None) && after.index == self.index
        &&& self.values@.len() > 0 && self.index < self.values@.len() ==>
            (result matches Ok(Some(v)) && cloned(self.values@[self.index as int], v)
            && after.index == (self.index + 1) % (self.values@.len() as int))
        &&& self.values@.len() > 0 && self.index >= self.values@.len() ==>
            (result matches Ok(Some(v)) && cloned(self.values@[0], v)
            && after.index == 1int % (self.values@.len() as int))
    }

    fn pull(&mut self) -> (r: Result<Option<Out>, StreamError>) {
        let n = self.values.len();
        if n == 0 {
            return Ok(None);
        }
        let i = if self.index < n { self.index } else { 0 };
        let value = self.values[i].clone();
        self.index = if i + 1 < n { i + 1 } else { 0 };
        proof {
            if i + 1 < n { assert((i + 1) % (n as int) == i + 1) by (nonlinear_arith) requires i + 1 < n; }
            else { assert((i + 1) % (n as int) == 0) by (nonlinear_arith) requires i + 1 == n, n > 0; }
        }
        Ok(Some(value))
    }
}

/// Emits `seed`, `f(seed)`, `f(f(seed))`, ... forever.
pub struct IterateSourceLogic<Out, F> {
    pub current: Out,
    pub func: F,
}

impl<Out: Clone, F: FnMut(Out) -> Out> SourceLogic<Out> for IterateSourceLogic<Out, F> {
    open spec fn ready(&self) -> bool {
        forall|x: Out| call_requires(self.func, (x,))
    }

    /// A pull answers the current element and moves on to `func` applied to a clone of it.
    open spec fn pulls(&self, result: Result<Option<Out>, StreamError>, after: Self) -> bool {
        &&& result == Ok::<Option<Out>, StreamError>(Some(self.current))
        &&& after.func == self.func
        &&& exists|c: Out| cloned(self.current, c) && call_ensures(self.func, (c,), after.current)
    }

    fn pull(&mut self) -> (r: Result<Option<Out>, StreamError>) {
        let c = self.current.clone();
        let ghost c_spec = c;
        let next = (self.func)(c);
        proof { assert(cloned(old(self).current, c_spec) && call_ensures(old(self).func, (c_spec,), next)); }
        let mut value = next;
        core::mem::swap(&mut self.current, &mut value);
        Ok(Some(value))
    }
}

/// What a lazy source answers from its buffer and its recorded error: the oldest buffered element,
/// else the recorded error, else the end of the source.
pub open spec fn buffered_answer<Out>(buffer: Seq<Out>, error: Option<StreamError>) -> Result<Option<Out>, StreamError> {
    if buffer.len() > 0 {
        Ok(Some(buffer[0]))
    } else {
        match error {
            Some(e) => Err(e),
            None => Ok(None),
        }
    }
}

/// Builds a source with `factory` on the first pull, collects it, and then hands out its elements;
/// when the built source fails, the failure is kept and answered to every later pull.
pub struct LazySourceLogic<Out, F> {
    pub factory: Option<F>,
    pub buffer: Vec<Out>,
    pub error: Option<StreamError>,
    pub _pd: core::marker::PhantomData<Out>,
}

impl<Out, F> LazySourceLogic<Out, F> {
    /// Pops the oldest buffered element, or answers the recorded error or the end of the source.
    fn answer(&mut self) -> (r: Result<Option<Out>, StreamError>)
        ensures
            r == buffered_answer(old(self).buffer@, old(self).error),
            final(self).buffer@ == (if old(self).buffer@.len() > 0 { old(self).buffer@.drop_first() } else { old(self).buffer@ }),
            final(self).error == old(self).error,
            final(self).factory == old(self).factory,
    {
        if self.buffer.len() > 0 {
            Ok(Some(self.buffer.remove(0)))
        } else {
            match self.error {
                Some(e) => Err(e),
                None => Ok(None),
            }
        }
    }

    /// Restarting is refused once the built source has failed.
    pub fn on_restart(&mut self) -> (r: Result<(), StreamError>)
        ensures
            *final(self) == *old(self),
            old(self).error matches Some(e) ==> r == Err::<(), StreamError>(e),
            old(self).error is None ==> r is Ok,
    {
        match self.error {
            Some(e) => Err(e),
            None => Ok(()),
        }
    }
}

impl<Out, F: FnOnce() -> Source<Out, StreamNotUsed>> SourceLogic<Out> for LazySourceLogic<Out, F> {
    open spec fn ready(&self) -> bool {
        self.factory matches Some(f) ==> call_requires(f, ())
    }

    /// The first pull builds the source with the factory and collects it; every pull answers the
    /// oldest collected element, else the recorded failure, else the end of the source.
    open spec fn pulls(&self, result: Result<Option<Out>, StreamError>, after: Self) -> bool {
        &&& after.factory is None
        &&& self.factory is None ==> result == buffered_answer(self.buffer@, self.error)
        &&& self.factory matches Some(f) ==> exists|s: Source<Out, StreamNotUsed>| #[trigger] call_ensures(f, (), s)
            && match s.body.end {
                StreamEnd::Completed => result == buffered_answer(s.body.elements@, self.error),
                StreamEnd::Failed(e) => result == Err::<Option<Out>, StreamError>(e) && after.error == Some(e),
                StreamEnd::Stalled => result == Err::<Option<Out>, StreamError>(StreamError::WouldBlock)
                    && after.error == Some(StreamError::WouldBlock),
            }
    }

    fn pull(&mut self) -> (r: Result<Option<Out>, StreamError>) {
        let mut taken: Option<F> = None;
        core::mem::swap(&mut taken, &mut self.factory);
        match taken {
            Some(factory) => {
                let s = factory();
                let ghost s0 = s;
                match s.collect_values() {
                    Ok(values) => {
                        self.buffer = values;
                        let r = self.answer();
                        proof { assert(call_ensures(factory, (), s0)); }
                        r
                    },
                    Err(e) => {
                        self.error = Some(e);
                        proof { assert(call_ensures(factory, (), s0)); }
                        Err(e)
                    },
                }
            },
            None => self.answer(),
        }
    }
}

} // verus!
