//! Stages and sources fed by computations that finish later: each is polled, and a stream waits
//! on a pending one.
use vstd::prelude::*;
use crate::body::{StreamBody, StreamEnd};
use crate::error::StreamError;
use crate::logic::SourceLogic;
use crate::stages::FlowStage;
use crate::error::{StreamDslError, spec_zero_argument, validate_positive_argument};
use crate::graph::kinds_of;
use crate::mat::StreamNotUsed;
use crate::source::{Source, fresh_source, stage_added, pulled_source};
use crate::stage_kind::StageKind;

verus! {

/// A computation that may not have finished yet; implemented by users (for instance around a
/// future) to feed asynchronous results into a stream.
pub trait Pollable<Out>: Sized {
    /// Whether polling `self` once may give `result` and leave `after`; a computation that states
    /// nothing of its polls admits every answer.
    open spec fn polls(&self, result: Option<Out>, after: Self) -> bool {
        true
    }

    /// Advances the computation once: `Some` with its result once it has finished, `None`
    /// while it is still pending.
    fn poll_once(&mut self) -> (r: Option<Out>)
        ensures old(self).polls(r, *final(self));
}

/// A computation that has already finished with `value`.
pub struct Ready<T> {
    pub value: Option<T>,
}

impl<T> Ready<T> {
    /// A computation finished with `value`.
    pub fn new(value: T) -> (r: Self)
        ensures r.value == Some(value),
    {
        Ready { value: Some(value) }
    }
}

impl<T> Pollable<T> for Ready<T> {
    /// A poll hands the value out once; later polls find nothing.
    open spec fn polls(&self, result: Option<T>, after: Self) -> bool {
        result == self.value && after.value is None
    }

    fn poll_once(&mut self) -> (r: Option<T>) {
        self.value.take()
    }
}

/// How many pending answers in a row a stream waits through before it stalls.
pub const POLL_BUDGET: usize = 1024;

/// One poll of a computation: the state before it, its answer and the state after it.
pub type PollStep<P, T> = (P, Option<T>, P);

/// `steps` records polling `p` over and over while it stayed pending: each poll starts where the
/// previous one ended, and every poll but the last found it pending.
pub open spec fn polled_steps<T, P: Pollable<T>>(p: P, steps: Seq<PollStep<P, T>>) -> bool {
    &&& steps.len() > 0 ==> steps[0].0 == p
    &&& forall|j: int| 0 <= j < steps.len() ==> (#[trigger] steps[j]).0.polls(steps[j].1, steps[j].2)
    &&& forall|j: int, k: int| #![trigger steps[j], steps[k]] 0 <= j && k == j + 1 && k < steps.len() ==> steps[k].0 == steps[j].2
    &&& forall|j: int| 0 <= j < steps.len() - 1 ==> (#[trigger] steps[j]).1 is None
}

/// Waiting on the computation `p` may end with `result`: `Some` with the value of the first poll
/// that finds it finished, or `None` when `POLL_BUDGET + 1` polls in a row find it pending.
pub open spec fn awaited<T, P: Pollable<T>>(p: P, result: Option<T>) -> bool {
    exists|steps: Seq<PollStep<P, T>>| #[trigger] polled_steps(p, steps) && {
        &&& 1 <= steps.len() <= POLL_BUDGET + 1
        &&& result == steps.last().1
        &&& result is None ==> steps.len() == POLL_BUDGET + 1
    }
}

/// Recording one more poll of a pending computation keeps a record of polling `p`.
proof fn lemma_polled_push<T, P: Pollable<T>>(p: P, steps: Seq<PollStep<P, T>>, step: PollStep<P, T>)
    requires
        polled_steps(p, steps),
        steps.len() > 0 ==> steps.last().1 is None,
        step.0 == if steps.len() == 0 { p } else { steps.last().2 },
        step.0.polls(step.1, step.2),
    ensures polled_steps(p, steps.push(step)),
{
    let next = steps.push(step);
    let n = steps.len() as int;
    assert forall|j: int| 0 <= j < next.len() implies (#[trigger] next[j]).0.polls(next[j].1, next[j].2) by {
        if j < n {
            assert(next[j] == steps[j]);
        }
    }
    assert forall|j: int, k: int| #![trigger next[j], next[k]] 0 <= j && k == j + 1 && k < next.len() implies
        next[k].0 == next[j].2 by {
        assert(next[j] == steps[j]);
        if k < n {
            assert(next[k] == steps[k]);
        }
    }
    assert forall|j: int| 0 <= j < next.len() - 1 implies (#[trigger] next[j]).1 is None by {
        assert(next[j] == steps[j]);
    }
}

/// Waiting on a computation that has already finished gives its value at the first poll.
pub proof fn lemma_ready_awaited<T>(value: T, result: Option<T>)
    requires awaited(Ready { value: Some(value) }, result),
    ensures result == Some(value),
{
    let p = Ready { value: Some(value) };
    let steps = choose|steps: Seq<PollStep<Ready<T>, T>>| #[trigger] polled_steps(p, steps) && {
        &&& 1 <= steps.len() <= POLL_BUDGET + 1
        &&& result == steps.last().1
        &&& result is None ==> steps.len() == POLL_BUDGET + 1
    };
    assert(steps[0].0.polls(steps[0].1, steps[0].2));
    if steps.len() > 1 {
        assert(steps[0].1 is None);
    }
}

/// Polls `computation` until it finishes, at most `POLL_BUDGET + 1` times; `None` when it is
/// still pending after that.
fn poll_to_completion<T, P: Pollable<T>>(computation: &mut P) -> (r: Option<T>)
    ensures awaited(*old(computation), r),
{
    let ghost p0 = *computation;
    let ghost mut steps: Seq<PollStep<P, T>> = Seq::empty();
    let mut polls: usize = 0;
    let mut result: Option<T> = None;
    let mut finished = false;
    while !finished
        invariant
            polled_steps(p0, steps),
            steps.len() == polls + (if finished { 1int } else { 0int }),
            polls <= POLL_BUDGET,
            *computation == if steps.len() == 0 { p0 } else { steps.last().2 },
            !finished ==> (steps.len() > 0 ==> steps.last().1 is None) && result is None,
            finished ==> 1 <= steps.len() <= POLL_BUDGET + 1 && result == steps.last().1
                && (result is None ==> steps.len() == POLL_BUDGET + 1),
        decreases POLL_BUDGET + 1 - polls + (if finished { 0int } else { 1int }),
    {
        let ghost before = *computation;
        let answer = computation.poll_once();
        let ghost step = (before, answer, *computation);
        proof {
            lemma_polled_push(p0, steps, step);
            steps = steps.push(step);
        }
        if answer.is_some() {
            result = answer;
            finished = true;
        } else if polls >= POLL_BUDGET {
            finished = true;
        } else {
            polls = polls + 1;
        }
    }
    result
}

/// Emits the result of one computation once it finishes.
pub struct FutureSourceLogic<P> {
    pub future: Option<P>,
    pub done: bool,
}

impl<Out, P: Pollable<Out>> SourceLogic<Out> for FutureSourceLogic<P> {
    /// A finished logic answers the end; otherwise a pull polls the computation once and answers
    /// its result, or `WouldBlock` while it is pending.
    open spec fn pulls(&self, result: Result<Option<Out>, StreamError>, after: Self) -> bool {
        &&& self.done ==> result == Ok::<Option<Out>, StreamError>(None) && after.done
        &&& !self.done && self.future is None ==> result == Ok::<Option<Out>, StreamError>(None) && after.done
        &&& !self.done && self.future is Some ==> exists|answer: Option<Out>, polled: P|
            #[trigger] self.future->0.polls(answer, polled) && match answer {
                Some(v) => result == Ok::<Option<Out>, StreamError>(Some(v)) && after.done && after.future is None,
                None => result == Err::<Option<Out>, StreamError>(StreamError::WouldBlock) && !after.done
                    && after.future == Some(polled),
            }
    }

    fn pull(&mut self) -> (r: Result<Option<Out>, StreamError>) {
        if self.done {
            return Ok(None);
        }
        match self.future.take() {
            None => {
                self.done = true;
                Ok(None)
            },
            Some(mut future) => {
                let ghost p0 = future;
                let answer = future.poll_once();
                let ghost polled = future;
                proof {
                    assert(p0.polls(answer, polled));
                }
                match answer {
                    Some(value) => {
                        self.done = true;
                        Ok(Some(value))
                    },
                    None => {
                        self.future = Some(future);
                        Err(StreamError::WouldBlock)
                    },
                }
            },
        }
    }
}

/// Emits the elements of an unfolding whose steps finish later: each step maps the state to a
/// computation that yields the next state and element, or nothing to finish.
pub struct UnfoldAsyncSourceLogic<State, F, P> {
    pub state: Option<State>,
    pub func: F,
    pub pending: Option<P>,
    pub done: bool,
}

impl<State, Out, F: FnMut(State) -> P, P: Pollable<Option<(State, Out)>>> SourceLogic<Out> for UnfoldAsyncSourceLogic<State, F, P> {
    open spec fn ready(&self) -> bool {
        forall|s: State| call_requires(self.func, (s,))
    }

    /// A finished logic answers the end, as does one with neither a state nor a pending step. Otherwise
    /// the pending step's computation, or a new one that `func` makes from the state, is polled
    /// once: a next state and element are answered and the state kept, a finished unfolding ends
    /// the source, and a pending computation answers `WouldBlock` and is kept.
    open spec fn pulls(&self, result: Result<Option<Out>, StreamError>, after: Self) -> bool {
        &&& after.func == self.func
        &&& self.done ==> result == Ok::<Option<Out>, StreamError>(None) && after.done
        &&& !self.done && self.pending is None && self.state is None ==> result == Ok::<Option<Out>, StreamError>(None)
            && after.done
        &&& !self.done && (self.pending is Some || self.state is Some) ==>
            exists|c: P, answer: Option<Option<(State, Out)>>, polled: P| #[trigger] c.polls(answer, polled) && {
                &&& match self.pending {
                    Some(p) => c == p,
                    None => call_ensures(self.func, (self.state->0,), c),
                }
                &&& match answer {
                    Some(Some((next, out))) => result == Ok::<Option<Out>, StreamError>(Some(out))
                        && after.state == Some(next) && after.pending is None && !after.done,
                    Some(None) => result == Ok::<Option<Out>, StreamError>(None) && after.done,
                    None => result == Err::<Option<Out>, StreamError>(StreamError::WouldBlock)
                        && after.pending == Some(polled) && !after.done,
                }
            }
    }

    fn pull(&mut self) -> (r: Result<Option<Out>, StreamError>) {
        if self.done {
            return Ok(None);
        }
        let ghost s0 = *self;
        if self.pending.is_none() {
            match self.state.take() {
                None => {
                    self.done = true;
                    return Ok(None);
                },
                Some(state) => {
                    self.pending = Some((self.func)(state));
                },
            }
        }
        match self.pending.take() {
            None => {
                self.done = true;
                Ok(None)
            },
            Some(mut pending) => {
                let ghost c = pending;
                let answer = pending.poll_once();
                let ghost polled = pending;
                proof {
                    assert(c.polls(answer, polled));
                    match s0.pending {
                        Some(p) => { assert(c == p); },
                        None => { assert(call_ensures(s0.func, (s0.state->0,), c)); },
                    }
                }
                match answer {
                    Some(Some((next_state, output))) => {
                        self.state = Some(next_state);
                        Ok(Some(output))
                    },
                    Some(None) => {
                        self.done = true;
                        Ok(None)
                    },
                    None => {
                        self.pending = Some(pending);
                        Err(StreamError::WouldBlock)
                    },
                }
            },
        }
    }
}

/// `output` follows `input` element for element up to where a computation did not finish: a
/// shorter output ends the stream stalled; a complete one keeps the input's ending.
pub open spec fn waited_on<A, B>(input: StreamBody<A>, output: StreamBody<B>) -> bool {
    &&& output.elements@.len() <= input.elements@.len()
    &&& output.elements@.len() < input.elements@.len() ==> output.end == StreamEnd::Stalled
    &&& output.elements@.len() == input.elements@.len() ==> output.end == input.end
}

/// `cs` are computations that `f` made for the elements of `xs`, in order, and waiting on each
/// gave the element of `ys` at the same position.
pub open spec fn awaited_with<A, B, P: Pollable<B>, F: FnMut(A) -> P>(f: F, xs: Seq<A>, ys: Seq<B>, cs: Seq<P>) -> bool {
    &&& ys.len() <= cs.len() <= xs.len()
    &&& forall|i: int| #![trigger cs[i]] 0 <= i < cs.len() ==> call_ensures(f, (xs[i],), cs[i])
    &&& forall|i: int| #![trigger cs[i]] 0 <= i < ys.len() ==> awaited(cs[i], Some(ys[i]))
}

/// Each of `ys` is what waiting on the computation `f` made for the element of `xs` at the same
/// position gives; when `ys` is shorter, waiting on the computation for the next element did not
/// finish.
pub open spec fn awaited_each<A, B, P: Pollable<B>, F: FnMut(A) -> P>(f: F, xs: Seq<A>, ys: Seq<B>) -> bool {
    exists|cs: Seq<P>| #[trigger] awaited_with::<A, B, P, F>(f, xs, ys, cs) && {
        &&& ys.len() == xs.len() ==> cs.len() == ys.len()
        &&& ys.len() < xs.len() ==> cs.len() == ys.len() + 1 && awaited(cs.last(), None::<B>)
    }
}

/// One more computation, and what waiting on it gave, extends the record.
proof fn lemma_awaited_push<A, B, P: Pollable<B>, F: FnMut(A) -> P>(f: F, xs: Seq<A>, ys: Seq<B>, cs: Seq<P>, c: P,
    v: Option<B>)
    requires
        awaited_with::<A, B, P, F>(f, xs, ys, cs),
        cs.len() == ys.len(),
        ys.len() < xs.len(),
        call_ensures(f, (xs[ys.len() as int],), c),
        v matches Some(w) ==> awaited(c, Some(w)),
    ensures
        v matches Some(w) ==> awaited_with::<A, B, P, F>(f, xs, ys.push(w), cs.push(c)),
        v is None ==> awaited_with::<A, B, P, F>(f, xs, ys, cs.push(c)),
{
    let ds = cs.push(c);
    assert forall|i: int| #![trigger ds[i]] 0 <= i < ds.len() implies call_ensures(f, (xs[i],), ds[i]) by {
        if i < cs.len() {
            assert(ds[i] == cs[i]);
        }
    }
    if let Some(w) = v {
        let zs = ys.push(w);
        assert forall|i: int| #![trigger ds[i]] 0 <= i < zs.len() implies awaited(ds[i], Some(zs[i])) by {
            if i < ys.len() {
                assert(ds[i] == cs[i]);
                assert(zs[i] == ys[i]);
            }
        }
    } else {
        assert forall|i: int| #![trigger ds[i]] 0 <= i < ys.len() implies awaited(ds[i], Some(ys[i])) by {
            assert(ds[i] == cs[i]);
        }
    }
}

/// Maps every element to a computation and emits the results in input order, waiting on each.
pub struct MapAsyncStage<F> {
    pub func: F,
}

impl<A, B, P: Pollable<B>, F: FnMut(A) -> P> FlowStage<A, B> for MapAsyncStage<F> {
    open spec fn ready(&self) -> bool {
        forall|a: A| call_requires(self.func, (a,))
    }

    open spec fn yields(&self, input: StreamBody<A>, output: StreamBody<B>) -> bool {
        &&& waited_on(input, output)
        &&& awaited_each::<A, B, P, F>(self.func, input.elements@, output.elements@)
    }

    fn run(self, input: StreamBody<A>) -> (output: StreamBody<B>) {
        let mut f = self.func;
        let ghost f0 = f;
        let StreamBody { elements, end, .. } = input;
        let ghost xs = elements@;
        let ghost mut cs: Seq<P> = Seq::empty();
        let mut rest = elements;
        let mut out: Vec<B> = Vec::new();
        let mut stalled = false;
        while !stalled && rest.len() > 0
            invariant
                f == f0,
                forall|a: A| call_requires(f0, (a,)),
                input.elements@ == xs,
                rest@ == xs.skip(out@.len() + (if stalled { 1int } else { 0int })),
                out@.len() + (if stalled { 1int } else { 0int }) <= xs.len(),
                cs.len() == out@.len() + (if stalled { 1int } else { 0int }),
                awaited_with::<A, B, P, F>(f0, xs, out@, cs),
                stalled ==> awaited(cs.last(), None::<B>),
            decreases rest@.len(),
        {
            let ghost at = out@.len() as int;
            let x = rest.remove(0);
            let mut computation = f(x);
            let ghost c0 = computation;
            proof {
                assert(x == xs[at]);
            }
            let waited = poll_to_completion(&mut computation);
            proof {
                lemma_awaited_push::<A, B, P, F>(f0, xs, out@, cs, c0, waited);
                cs = cs.push(c0);
            }
            match waited {
                Some(v) => {
                    out.push(v);
                },
                None => {
                    stalled = true;
                },
            }
            proof {
                assert(rest@ =~= xs.skip(out@.len() + (if stalled { 1int } else { 0int })));
            }
        }
        if stalled {
            StreamBody { elements: out, end: StreamEnd::Stalled, ticks: Vec::new() }
        } else {
            proof {
                assert(xs.skip(out@.len() as int).len() == 0);
            }
            StreamBody { elements: out, end, ticks: Vec::new() }
        }
    }
}

/// Maps the request of every (context, request) pair to a computation and emits the context
/// with the result, in input order, waiting on each.
pub struct AskWithContextStage<F> {
    pub func: F,
}

impl<C, A, B, P: Pollable<B>, F: FnMut(A) -> P> FlowStage<(C, A), (C, B)> for AskWithContextStage<F> {
    open spec fn ready(&self) -> bool {
        forall|a: A| call_requires(self.func, (a,))
    }

    open spec fn yields(&self, input: StreamBody<(C, A)>, output: StreamBody<(C, B)>) -> bool {
        &&& waited_on(input, output)
        &&& forall|i: int| 0 <= i < output.elements@.len() ==> (#[trigger] output.elements@[i]).0 == input.elements@[i].0
        &&& awaited_each::<A, B, P, F>(self.func, input.elements@.map_values(|p: (C, A)| p.1),
            output.elements@.map_values(|p: (C, B)| p.1))
    }

    fn run(self, input: StreamBody<(C, A)>) -> (output: StreamBody<(C, B)>) {
        let mut f = self.func;
        let ghost f0 = f;
        let StreamBody { elements, end, .. } = input;
        let ghost xs = elements@;
        let ghost reqs = xs.map_values(|p: (C, A)| p.1);
        let ghost mut cs: Seq<P> = Seq::empty();
        let mut rest = elements;
        let mut out: Vec<(C, B)> = Vec::new();
        let mut stalled = false;
        while !stalled && rest.len() > 0
            invariant
                f == f0,
                forall|a: A| call_requires(f0, (a,)),
                input.elements@ == xs,
                reqs == xs.map_values(|p: (C, A)| p.1),
                rest@ == xs.skip(out@.len() + (if stalled { 1int } else { 0int })),
                out@.len() + (if stalled { 1int } else { 0int }) <= xs.len(),
                forall|i: int| 0 <= i < out@.len() ==> (#[trigger] out@[i]).0 == xs[i].0,
                cs.len() == out@.len() + (if stalled { 1int } else { 0int }),
                awaited_with::<A, B, P, F>(f0, reqs, out@.map_values(|p: (C, B)| p.1), cs),
                stalled ==> awaited(cs.last(), None::<B>),
            decreases rest@.len(),
        {
            let ghost at = out@.len() as int;
            let ghost results = out@.map_values(|p: (C, B)| p.1);
            let pair = rest.remove(0);
            proof {
                assert(pair == xs[at]);
            }
            let (context, request) = pair;
            let mut computation = f(request);
            let ghost c0 = computation;
            proof {
                assert(request == reqs[at]);
            }
            let waited = poll_to_completion(&mut computation);
            proof {
                lemma_awaited_push::<A, B, P, F>(f0, reqs, results, cs, c0, waited);
                cs = cs.push(c0);
            }
            match waited {
                Some(v) => {
                    let ghost vv = v;
                    let ghost before = out@;
                    out.push((context, v));
                    proof {
                        assert(out@.map_values(|p: (C, B)| p.1) =~= results.push(vv));
                        assert forall|i: int| 0 <= i < out@.len() implies (#[trigger] out@[i]).0 == xs[i].0 by {
                            if i < at {
                                assert(out@[i] == before[i]);
                            }
                        }
                    }
                },
                None => {
                    stalled = true;
                },
            }
            proof {
                assert(rest@ =~= xs.skip(out@.len() + (if stalled { 1int } else { 0int })));
            }
        }
        if stalled {
            StreamBody { elements: out, end: StreamEnd::Stalled, ticks: Vec::new() }
        } else {
            proof {
                assert(xs.skip(out@.len() as int).len() == 0);
            }
            StreamBody { elements: out, end, ticks: Vec::new() }
        }
    }
}

/// One step of an asynchronous fold: the clone of the accumulator handed to the step, the
/// computation the step made, what polling it once gave, and the computation after the poll.
pub type ScanPoll<Acc, P> = (Acc, P, Option<Acc>, P);

/// Folding `xs` from `init` with `f`, polling each step's computation once, went through the
/// accumulators `accs` by the steps `steps`, and each of `outs` is a clone of the accumulator
/// after the element at the same position: a finished computation replaces the accumulator, a
/// pending one leaves it as it was.
pub open spec fn polled_fold<T, Acc: Clone, P: Pollable<Acc>, F: FnMut(Acc, T) -> P>(f: F, init: Acc, xs: Seq<T>, outs: Seq<Acc>,
    accs: Seq<Acc>, steps: Seq<ScanPoll<Acc, P>>) -> bool {
    &&& accs.len() == xs.len() + 1
    &&& steps.len() == xs.len()
    &&& outs.len() == xs.len()
    &&& accs[0] == init
    &&& forall|i: int| #![trigger steps[i]] 0 <= i < xs.len() ==> {
        &&& cloned(accs[i], steps[i].0)
        &&& call_ensures(f, (steps[i].0, xs[i]), steps[i].1)
        &&& steps[i].1.polls(steps[i].2, steps[i].3)
        &&& accs[i + 1] == match steps[i].2 {
            Some(next) => next,
            None => accs[i],
        }
        &&& cloned(accs[i + 1], outs[i])
    }
}

/// One more step extends a record of an asynchronous fold.
proof fn lemma_polled_fold_push<T, Acc: Clone, P: Pollable<Acc>, F: FnMut(Acc, T) -> P>(f: F, init: Acc, xs: Seq<T>,
    outs: Seq<Acc>, accs: Seq<Acc>, steps: Seq<ScanPoll<Acc, P>>, k: int, step: ScanPoll<Acc, P>, acc: Acc, out: Acc)
    requires
        0 <= k < xs.len(),
        polled_fold::<T, Acc, P, F>(f, init, xs.take(k), outs, accs, steps),
        cloned(accs.last(), step.0),
        call_ensures(f, (step.0, xs[k]), step.1),
        step.1.polls(step.2, step.3),
        acc == match step.2 {
            Some(next) => next,
            None => accs.last(),
        },
        cloned(acc, out),
    ensures polled_fold::<T, Acc, P, F>(f, init, xs.take(k + 1), outs.push(out), accs.push(acc), steps.push(step)),
{
    let xs2 = xs.take(k + 1);
    let steps2 = steps.push(step);
    let accs2 = accs.push(acc);
    let outs2 = outs.push(out);
    assert forall|i: int| #![trigger steps2[i]] 0 <= i < xs2.len() implies {
        &&& cloned(accs2[i], steps2[i].0)
        &&& call_ensures(f, (steps2[i].0, xs2[i]), steps2[i].1)
        &&& steps2[i].1.polls(steps2[i].2, steps2[i].3)
        &&& accs2[i + 1] == match steps2[i].2 {
            Some(next) => next,
            None => accs2[i],
        }
        &&& cloned(accs2[i + 1], outs2[i])
    } by {
        if i < k {
            assert(steps2[i] == steps[i]);
            assert(xs2[i] == xs.take(k)[i]);
            assert(accs2[i] == accs[i]);
            assert(accs2[i + 1] == accs[i + 1]);
            assert(outs2[i] == outs[i]);
        } else {
            assert(accs2[i] == accs.last());
        }
    }
}

/// Folds with a step whose computation is polled once: a finished computation replaces the
/// accumulator, a pending one leaves it as it was. With `emit_initial` the initial accumulator is
/// emitted first, unless the stream stops without any element and without completing; then the
/// accumulator is emitted after every element.
pub struct AsyncScanStage<Acc, F> {
    pub initial: Acc,
    pub func: F,
    pub emit_initial: bool,
}

impl<T, Acc: Clone, P: Pollable<Acc>, F: FnMut(Acc, T) -> P> FlowStage<T, Acc> for AsyncScanStage<Acc, F> {
    open spec fn ready(&self) -> bool {
        forall|a: Acc, t: T| call_requires(self.func, (a, t))
    }

    open spec fn yields(&self, input: StreamBody<T>, output: StreamBody<Acc>) -> bool {
        let leading = self.emit_initial && (input.elements@.len() > 0 || input.end == StreamEnd::Completed);
        let offset = if leading { 1int } else { 0int };
        &&& output.elements@.len() == input.elements@.len() + offset
        &&& leading ==> cloned(self.initial, output.elements@[0])
        &&& output.end == input.end
        &&& exists|outs: Seq<Acc>, accs: Seq<Acc>, steps: Seq<ScanPoll<Acc, P>>| #[trigger] polled_fold::<T, Acc, P, F>(
            self.func, self.initial, input.elements@, outs, accs, steps) && outs == output.elements@.skip(offset)
    }

    fn run(self, input: StreamBody<T>) -> (output: StreamBody<Acc>) {
        let AsyncScanStage { initial, func, emit_initial } = self;
        let mut f = func;
        let ghost f0 = f;
        let StreamBody { elements, end, .. } = input;
        let ghost xs = elements@;
        let ghost init = initial;
        let mut out: Vec<Acc> = Vec::new();
        let leading = emit_initial && (elements.len() > 0 || matches!(end, StreamEnd::Completed));
        if leading {
            out.push(initial.clone());
        }
        let mut acc = initial;
        let ghost offset: int = if leading { 1int } else { 0int };
        let ghost mut accs: Seq<Acc> = seq![init];
        let ghost mut steps: Seq<ScanPoll<Acc, P>> = Seq::empty();
        proof {
            assert(xs.take(0) =~= Seq::<T>::empty());
            assert(out@.skip(offset) =~= Seq::<Acc>::empty());
        }
        for x in it: elements.into_iter()
            invariant
                f == f0,
                forall|a: Acc, t: T| call_requires(f0, (a, t)),
                it.seq() == xs,
                out@.len() == it.index() + offset,
                offset == (if leading { 1int } else { 0int }),
                leading ==> cloned(init, out@[0]),
                accs.last() == acc,
                polled_fold::<T, Acc, P, F>(f0, init, xs.take(it.index() as int), out@.skip(offset), accs, steps),
        {
            let ghost k = it.index() as int;
            let ghost outs0 = out@.skip(offset);
            let handed = acc.clone();
            let ghost h = handed;
            let mut computation = f(handed, x);
            let ghost c0 = computation;
            let answer = computation.poll_once();
            let ghost step = (h, c0, answer, computation);
            acc = match answer {
                Some(next) => next,
                None => acc,
            };
            let emitted = acc.clone();
            let ghost e = emitted;
            let ghost before = out@;
            out.push(emitted);
            proof {
                assert(x == xs[k]);
                lemma_polled_fold_push::<T, Acc, P, F>(f0, init, xs, outs0, accs, steps, k, step, acc, e);
                accs = accs.push(acc);
                steps = steps.push(step);
                assert(out@.skip(offset) =~= outs0.push(e));
                if leading {
                    assert(out@[0] == before[0]);
                }
            }
        }
        proof {
            assert(xs.take(xs.len() as int) =~= xs);
            assert(polled_fold::<T, Acc, P, F>(f0, init, xs, out@.skip(offset), accs, steps));
        }
        StreamBody { elements: out, end, ticks: Vec::new() }
    }
}

/// `s` is a source of one custom stage that emits what waiting on `future` gives: the value and
/// then completion once the computation finishes, nothing and a stall while it stays pending.
pub open spec fn single_awaited<Out, P: Pollable<Out>>(s: Source<Out, StreamNotUsed>, future: P) -> bool {
    &&& kinds_of(s.graph.nodes@) == seq![StageKind::Custom]
    &&& s.mat == (StreamNotUsed {})
    &&& s.body.elements@.len() <= 1
    &&& s.body.elements@.len() == 1 <==> s.body.end == StreamEnd::Completed
    &&& s.body.elements@.len() == 0 ==> s.body.end == StreamEnd::Stalled
    &&& awaited(future, if s.body.elements@.len() == 1 { Some(s.body.elements@[0]) } else { None })
}

impl<Out> Source<Out, StreamNotUsed> {
    /// Creates a source that emits the result of `future` once it finishes.
    pub fn future<P: Pollable<Out>>(future: P) -> (r: Self)
        ensures single_awaited(r, future),
    {
        let mut future = future;
        match poll_to_completion(&mut future) {
            Some(value) => {
                let mut elements: Vec<Out> = Vec::new();
                elements.push(value);
                Self::from_body(StageKind::Custom, elements, StreamEnd::Completed)
            },
            None => Self::from_body(StageKind::Custom, Vec::new(), StreamEnd::Stalled),
        }
    }

    /// Alias of [`Source::future`].
    pub fn future_source<P: Pollable<Out>>(future: P) -> (r: Self)
        ensures single_awaited(r, future),
    {
        Self::future(future)
    }

    /// Alias of [`Source::future`].
    pub fn completion_stage<P: Pollable<Out>>(future: P) -> (r: Self)
        ensures single_awaited(r, future),
    {
        Self::future(future)
    }

    /// Alias of [`Source::future`].
    pub fn completion_stage_source<P: Pollable<Out>>(future: P) -> (r: Self)
        ensures single_awaited(r, future),
    {
        Self::future(future)
    }

    /// Creates a source that emits the result of the computation `factory` builds.
    pub fn lazy_future<P: Pollable<Out>, F: FnOnce() -> P>(factory: F) -> (r: Self)
        requires call_requires(factory, ()),
        ensures exists|p: P| #[trigger] call_ensures(factory, (), p) && single_awaited(r, p),
    {
        let p = factory();
        let ghost p0 = p;
        let r = Self::future(p);
        proof {
            assert(call_ensures(factory, (), p0) && single_awaited(r, p0));
        }
        r
    }

    /// Alias of [`Source::lazy_future`].
    pub fn lazy_future_source<P: Pollable<Out>, F: FnOnce() -> P>(factory: F) -> (r: Self)
        requires call_requires(factory, ()),
        ensures exists|p: P| #[trigger] call_ensures(factory, (), p) && single_awaited(r, p),
    {
        Self::lazy_future(factory)
    }

    /// Alias of [`Source::lazy_future`].
    pub fn lazy_completion_stage<P: Pollable<Out>, F: FnOnce() -> P>(factory: F) -> (r: Self)
        requires call_requires(factory, ()),
        ensures exists|p: P| #[trigger] call_ensures(factory, (), p) && single_awaited(r, p),
    {
        Self::lazy_future(factory)
    }

    /// Alias of [`Source::lazy_future`].
    pub fn lazy_completion_stage_source<P: Pollable<Out>, F: FnOnce() -> P>(factory: F) -> (r: Self)
        requires call_requires(factory, ()),
        ensures exists|p: P| #[trigger] call_ensures(factory, (), p) && single_awaited(r, p),
    {
        Self::lazy_future(factory)
    }

    /// Creates a source by repeatedly unfolding `initial` with `func`, whose computations yield
    /// the next state and element, or nothing to finish.
    pub fn unfold_async<State, P: Pollable<Option<(State, Out)>>, F: FnMut(State) -> P>(initial: State, func: F) -> (r: Self)
        requires forall|s: State| call_requires(func, (s,)),
        ensures
            pulled_source(r, StageKind::Custom,
                (UnfoldAsyncSourceLogic::<State, F, P> { state: Some(initial), func, pending: None, done: false })),
    {
        Self::from_logic(StageKind::Custom, UnfoldAsyncSourceLogic { state: Some(initial), func, pending: None, done: false })
    }

    /// Alias of [`Source::unfold_async`].
    pub fn unfold_resource_async<State, P: Pollable<Option<(State, Out)>>, F: FnMut(State) -> P>(initial: State, func: F) -> (r: Self)
        requires forall|s: State| call_requires(func, (s,)),
        ensures
            pulled_source(r, StageKind::Custom,
                (UnfoldAsyncSourceLogic::<State, F, P> { state: Some(initial), func, pending: None, done: false })),
    {
        Self::unfold_async(initial, func)
    }
}

impl<Out, Mat> Source<Out, Mat> {
    /// Maps every element to a computation and emits the results in input order, waiting on each;
    /// fails when `parallelism` is zero.
    pub fn map_async<T, P: Pollable<T>, F: FnMut(Out) -> P>(self, parallelism: usize, func: F) -> (r: Result<Source<T, Mat>, StreamDslError>)
        requires forall|a: Out| call_requires(func, (a,)),
        ensures
            parallelism == 0 <==> r is Err,
            r matches Err(e) ==> e == spec_zero_argument("parallelism"),
            r matches Ok(s) ==> waited_on(self.body, s.body) && stage_added(self, s, StageKind::FlowMapAsync)
                && awaited_each::<Out, T, P, F>(func, self.body.elements@, s.body.elements@),
    {
        let _ = validate_positive_argument("parallelism", parallelism)?;
        Ok(self.through(StageKind::FlowMapAsync, MapAsyncStage { func }))
    }
}

} // verus!
