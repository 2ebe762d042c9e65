//! Element-at-a-time flow logics: the state machines that a running stream drives per element.
use vstd::prelude::*;
use crate::error::StreamError;
use crate::body::clones_of;
use crate::buffer::OverflowPolicy;
use crate::mat::StreamCompletion;

verus! {

/// A stateful transformation that the stream driver feeds one element at a time.
///
/// `applies` relates the state before a call of `apply`, its input, its result and the state
/// after it; `restarts` does the same for `on_restart`.
pub trait FlowLogic<In, Out>: Sized {
    /// Whether the logic can be driven (its closures accept every input).
    spec fn ready(&self) -> bool;

    /// Whether `apply(input)` on `self` may return `result` and leave `after`.
    spec fn applies(&self, input: In, result: Result<Vec<Out>, StreamError>, after: Self) -> bool;

    /// Whether `on_restart()` on `self` may return `result` and leave `after`.
    spec fn restarts(&self, result: Result<(), StreamError>, after: Self) -> bool;

    /// Processes one input element and returns the elements it emits.
    fn apply(&mut self, input: In) -> (r: Result<Vec<Out>, StreamError>)
        requires old(self).ready(),
        ensures final(self).ready(), old(self).applies(input, r, *final(self));

    /// Resets the logic to its initial state.
    fn on_restart(&mut self) -> (r: Result<(), StreamError>)
        requires old(self).ready(),
        ensures final(self).ready(), old(self).restarts(r, *final(self));
}

/// One call of `apply` on a logic: the state before it, its result and the state after it.
pub type LogicStep<B, Out> = (B, Result<Vec<Out>, StreamError>, B);

/// `steps` records feeding the first `steps.len()` elements of `mids` one by one to `b`: each
/// step starts where the previous one ended, and every step but the last succeeded.
pub open spec fn stepped<Mid, Out, B: FlowLogic<Mid, Out>>(b: B, mids: Seq<Mid>, steps: Seq<LogicStep<B, Out>>) -> bool {
    &&& steps.len() <= mids.len()
    &&& steps.len() > 0 ==> steps[0].0 == b
    &&& forall|j: int| 0 <= j < steps.len() ==> (#[trigger] steps[j]).0.applies(mids[j], steps[j].1, steps[j].2)
    &&& forall|j: int, k: int| #![trigger steps[j], steps[k]] 0 <= j && k == j + 1 && k < steps.len() ==> steps[k].0 == steps[j].2
    &&& forall|j: int| 0 <= j < steps.len() - 1 ==> (#[trigger] steps[j]).1 is Ok
}

/// The elements emitted by the successful steps, in order.
pub open spec fn step_outputs<B, Out>(steps: Seq<LogicStep<B, Out>>) -> Seq<Out>
    decreases steps.len(),
{
    if steps.len() == 0 {
        Seq::empty()
    } else {
        step_outputs(steps.drop_last()) + match steps.last().1 {
            Ok(v) => v@,
            Err(_) => Seq::empty(),
        }
    }
}

/// Whether feeding `mids` one by one, in order, to the logic `b` may return `result` and leave
/// `after`: the outputs are concatenated, and the first error stops the feeding and is returned.
pub open spec fn fed<Mid, Out, B: FlowLogic<Mid, Out>>(b: B, mids: Seq<Mid>, result: Result<Vec<Out>, StreamError>,
    after: B) -> bool
{
    exists|steps: Seq<LogicStep<B, Out>>| #[trigger] stepped(b, mids, steps) && {
        &&& after == if steps.len() == 0 { b } else { steps.last().2 }
        &&& if steps.len() > 0 && steps.last().1 is Err {
            result == steps.last().1
        } else {
            steps.len() == mids.len() && result is Ok && result->Ok_0@ == step_outputs(steps)
        }
    }
}

/// Two logics run one after the other: every element that the first emits is fed to the second.
/// Longer chains nest; a chain is restarted front to back.
pub struct ChainLogic<A, B, Mid> {
    pub first: A,
    pub second: B,
    pub _pd: core::marker::PhantomData<Mid>,
}

impl<A, B, Mid> ChainLogic<A, B, Mid> {
    /// Chains `first` and `second`.
    pub fn new(first: A, second: B) -> (r: Self)
        ensures r.first == first, r.second == second,
    {
        ChainLogic { first, second, _pd: core::marker::PhantomData }
    }
}

/// Recording one more successful-so-far step keeps a record of feeding `mids`.
proof fn lemma_stepped_push<Mid, Out, B: FlowLogic<Mid, Out>>(b: B, mids: Seq<Mid>, steps: Seq<LogicStep<B, Out>>,
    step: LogicStep<B, Out>)
    requires
        stepped(b, mids, steps),
        steps.len() < mids.len(),
        steps.len() > 0 ==> steps.last().1 is Ok,
        step.0 == if steps.len() == 0 { b } else { steps.last().2 },
        step.0.applies(mids[steps.len() as int], step.1, step.2),
    ensures
        stepped(b, mids, steps.push(step)),
        step_outputs(steps.push(step)) == step_outputs(steps) + match step.1 {
            Ok(v) => v@,
            Err(_) => Seq::empty(),
        },
{
    let next = steps.push(step);
    let n = steps.len() as int;
    assert forall|j: int| 0 <= j < next.len() implies
        (#[trigger] next[j]).0.applies(mids[j], next[j].1, next[j].2) by {
        if j < n {
            assert(next[j] == steps[j]);
        }
    }
    assert forall|j: int, k: int| #![trigger next[j], next[k]] 0 <= j && k == j + 1 && k < next.len() implies
        next[k].0 == next[j].2 by {
        assert(next[j] == steps[j]);
        if k < n {
            assert(next[k] == steps[k]);
        }
    }
    assert forall|j: int| 0 <= j < next.len() - 1 implies (#[trigger] next[j]).1 is Ok by {
        assert(next[j] == steps[j]);
        if j < n - 1 {
            assert(steps[j].1 is Ok);
        }
    }
    assert(next.drop_last() =~= steps);
}

/// Feeds `mids` in order to `logic`, concatenating its outputs and stopping at its first error.
pub fn feed_logic<Mid, Out, B: FlowLogic<Mid, Out>>(logic: &mut B, mids: Vec<Mid>) -> (r: Result<Vec<Out>, StreamError>)
    requires old(logic).ready(),
    ensures
        final(logic).ready(),
        fed(*old(logic), mids@, r, *final(logic)),
{
    let ghost b0 = *logic;
    let ghost all = mids@;
    let total: usize = mids.len();
    let ghost mut steps: Seq<LogicStep<B, Out>> = Seq::empty();
    let mut rest = mids;
    let mut out: Vec<Out> = Vec::new();
    let mut failure: Option<StreamError> = None;
    let mut i: usize = 0;
    while failure.is_none() && rest.len() > 0
        invariant
            logic.ready(),
            all.len() == total,
            i + rest@.len() == all.len(),
            rest@ == all.skip(i as int),
            steps.len() == i,
            stepped(b0, all, steps),
            *logic == if i == 0 { b0 } else { steps.last().2 },
            failure is None ==> (i > 0 ==> steps.last().1 is Ok) && out@ == step_outputs(steps),
            failure matches Some(e) ==> i > 0 && steps.last().1 == Err::<Vec<Out>, StreamError>(e),
        decreases rest@.len(),
    {
        let mid = rest.remove(0);
        let ghost before = *logic;
        let applied = logic.apply(mid);
        let ghost step = (before, applied, *logic);
        proof {
            assert(mid == all[i as int]);
            lemma_stepped_push(b0, all, steps, step);
            steps = steps.push(step);
        }
        match applied {
            Err(e) => {
                failure = Some(e);
            },
            Ok(w) => {
                let mut w = w;
                out.append(&mut w);
            },
        }
        i = i + 1;
        proof {
            assert(rest@ =~= all.skip(i as int));
        }
    }
    match failure {
        Some(e) => Err(e),
        None => Ok(out),
    }
}

impl<In, Mid, Out, A: FlowLogic<In, Mid>, B: FlowLogic<Mid, Out>> FlowLogic<In, Out> for ChainLogic<A, B, Mid> {
    open spec fn ready(&self) -> bool {
        self.first.ready() && self.second.ready()
    }

    /// The first logic applies to `input`; its error is returned, otherwise its outputs are fed
    /// to the second logic in order.
    open spec fn applies(&self, input: In, result: Result<Vec<Out>, StreamError>, after: Self) -> bool {
        exists|first_result: Result<Vec<Mid>, StreamError>|
            #[trigger] self.first.applies(input, first_result, after.first) && match first_result {
                Err(e) => result == Err::<Vec<Out>, StreamError>(e) && after.second == self.second,
                Ok(mids) => fed(self.second, mids@, result, after.second),
            }
    }

    /// The first logic restarts; its error is returned, otherwise the second logic restarts.
    open spec fn restarts(&self, result: Result<(), StreamError>, after: Self) -> bool {
        exists|first_result: Result<(), StreamError>|
            #[trigger] self.first.restarts(first_result, after.first)
                && (first_result is Err ==> result == first_result && after.second == self.second)
                && (first_result is Ok ==> self.second.restarts(result, after.second))
    }

    fn apply(&mut self, input: In) -> (r: Result<Vec<Out>, StreamError>) {
        let ghost s0 = *self;
        let first_result = self.first.apply(input);
        match first_result {
            Err(e) => {
                proof {
                    assert(s0.first.applies(input, Err::<Vec<Mid>, StreamError>(e), self.first));
                }
                Err(e)
            },
            Ok(mids) => {
                let ghost mv = mids;
                let r = feed_logic(&mut self.second, mids);
                proof {
                    assert(s0.first.applies(input, Ok::<Vec<Mid>, StreamError>(mv), self.first));
                }
                r
            },
        }
    }

    fn on_restart(&mut self) -> (r: Result<(), StreamError>) {
        let ghost s0 = *self;
        let first_result = self.first.on_restart();
        let ghost first_after = self.first;
        proof {
            assert(s0.first.restarts(first_result, first_after));
        }
        if first_result.is_err() {
            return first_result;
        }
        self.second.on_restart()
    }
}

/// Emits each full window of the last `size` elements.
pub struct SlidingLogic<In> {
    pub size: usize,
    pub window: Vec<In>,
}

impl<In> SlidingLogic<In> {
    /// Creates the logic with an empty window.
    pub fn new(size: usize) -> (r: Self)
        ensures r.size == size, r.window@.len() == 0,
    {
        SlidingLogic { size, window: Vec::new() }
    }
}

impl<In: Clone> FlowLogic<In, Vec<In>> for SlidingLogic<In> {
    open spec fn ready(&self) -> bool {
        true
    }

    /// A zero size is refused; otherwise the element joins the window, and a full window is
    /// emitted (as clones) and then loses its oldest element.
    open spec fn applies(&self, input: In, result: Result<Vec<Vec<In>>, StreamError>, after: Self) -> bool {
        let grown = self.window@.push(input);
        &&& after.size == self.size
        &&& if self.size == 0 {
            result == Err::<Vec<Vec<In>>, StreamError>(StreamError::InvalidConnection) && after.window@ == self.window@
        } else if grown.len() < self.size {
            (result matches Ok(v) && v@.len() == 0) && after.window@ == grown
        } else {
            let full = if grown.len() > self.size { grown.drop_first() } else { grown };
            (result matches Ok(v) && v@.len() == 1 && clones_of(full, v@[0]@)) && after.window@ == full.drop_first()
        }
    }

    open spec fn restarts(&self, result: Result<(), StreamError>, after: Self) -> bool {
        result is Ok && after.size == self.size && after.window@.len() == 0
    }

    fn apply(&mut self, input: In) -> (r: Result<Vec<Vec<In>>, StreamError>) {
        if self.size == 0 {
            return Err(StreamError::InvalidConnection);
        }
        self.window.push(input);
        if self.window.len() < self.size {
            return Ok(Vec::new());
        }
        if self.window.len() > self.size {
            let _ = self.window.remove(0);
        }
        let output = self.window.clone();
        let _ = self.window.remove(0);
        let mut out: Vec<Vec<In>> = Vec::new();
        out.push(output);
        Ok(out)
    }

    fn on_restart(&mut self) -> (r: Result<(), StreamError>) {
        self.window.clear();
        Ok(())
    }
}

/// Emits the running accumulation, preceded by the initial value.
pub struct ScanLogic<Acc, F> {
    pub initial: Acc,
    pub current: Acc,
    pub func: F,
    pub initial_emitted: bool,
    pub source_done: bool,
}

impl<Acc: Clone, F> ScanLogic<Acc, F> {
    /// Records that the upstream has finished.
    pub fn on_source_done(&mut self)
        ensures *final(self) == (ScanLogic { source_done: true, ..*old(self) }),
    {
        self.source_done = true;
    }

    /// After the upstream finished without any element, emits the initial value once.
    pub fn drain_pending(&mut self) -> (r: Vec<Acc>)
        ensures
            !old(self).source_done || old(self).initial_emitted ==> r@.len() == 0 && *final(self) == *old(self),
            old(self).source_done && !old(self).initial_emitted ==> r@.len() == 1 && cloned(old(self).current, r@[0])
                && *final(self) == (ScanLogic { initial_emitted: true, ..*old(self) }),
    {
        let mut out: Vec<Acc> = Vec::new();
        if !self.source_done || self.initial_emitted {
            return out;
        }
        self.initial_emitted = true;
        out.push(self.current.clone());
        out
    }
}

impl<In, Acc: Clone, F: FnMut(Acc, In) -> Acc> FlowLogic<In, Acc> for ScanLogic<Acc, F> {
    open spec fn ready(&self) -> bool {
        forall|a: Acc, x: In| call_requires(self.func, (a, x))
    }

    /// Emits the initial value before the first accumulation, then each accumulation.
    open spec fn applies(&self, input: In, result: Result<Vec<Acc>, StreamError>, after: Self) -> bool {
        exists|first: Acc, arg: Acc, next: Acc, kept: Acc|
            #![trigger cloned(self.current, first), call_ensures(self.func, (arg, input), next), cloned(next, kept)]
            cloned(self.current, first) && cloned(self.current, arg) && call_ensures(self.func, (arg, input), next)
            && cloned(next, kept)
            && (result matches Ok(v) && v@ == (if self.initial_emitted { seq![next] } else { seq![first, next] }))
            && after == (ScanLogic { current: kept, initial_emitted: true, ..*self })
    }

    /// The accumulator is reset to a clone of the initial value.
    open spec fn restarts(&self, result: Result<(), StreamError>, after: Self) -> bool {
        result is Ok && cloned(self.initial, after.current)
            && after == (ScanLogic { current: after.current, initial_emitted: false, source_done: false, ..*self })
    }

    fn apply(&mut self, input: In) -> (r: Result<Vec<Acc>, StreamError>) {
        let mut outputs: Vec<Acc> = Vec::new();
        let first = self.current.clone();
        if !self.initial_emitted {
            outputs.push(first);
            self.initial_emitted = true;
        }
        let arg = self.current.clone();
        let next = (self.func)(arg, input);
        let kept = next.clone();
        self.current = kept;
        outputs.push(next);
        proof {
            assert(outputs@ == (if old(self).initial_emitted { seq![next] } else { seq![first, next] }));
            assert(self.func == old(self).func);
            assert(*self == (ScanLogic { current: kept, initial_emitted: true, ..*old(self) }));
            assert(cloned(old(self).current, first) && call_ensures(old(self).func, (arg, input), next) && cloned(next, kept));
        }
        Ok(outputs)
    }

    fn on_restart(&mut self) -> (r: Result<(), StreamError>) {
        self.current = self.initial.clone();
        self.initial_emitted = false;
        self.source_done = false;
        Ok(())
    }
}

/// Passes elements while the predicate holds, then nothing.
pub struct TakeWhileLogic<F> {
    pub predicate: F,
    pub taking: bool,
}

impl<In, F: FnMut(&In) -> bool> FlowLogic<In, In> for TakeWhileLogic<F> {
    open spec fn ready(&self) -> bool {
        forall|x: &In| call_requires(self.predicate, (x,))
    }

    open spec fn applies(&self, input: In, result: Result<Vec<In>, StreamError>, after: Self) -> bool {
        if !self.taking {
            (result matches Ok(v) && v@.len() == 0) && after == *self
        } else {
            exists|accepted: bool| #[trigger] call_ensures(self.predicate, (&input,), accepted) && if accepted {
                (result matches Ok(v) && v@ == seq![input]) && after == *self
            } else {
                (result matches Ok(v) && v@.len() == 0) && after == (TakeWhileLogic { taking: false, ..*self })
            }
        }
    }

    open spec fn restarts(&self, result: Result<(), StreamError>, after: Self) -> bool {
        result is Ok && after == (TakeWhileLogic { taking: true, ..*self })
    }

    fn apply(&mut self, input: In) -> (r: Result<Vec<In>, StreamError>) {
        let mut out: Vec<In> = Vec::new();
        if !self.taking {
            return Ok(out);
        }
        let accepted = (self.predicate)(&input);
        if !accepted {
            self.taking = false;
            return Ok(out);
        }
        out.push(input);
        Ok(out)
    }

    fn on_restart(&mut self) -> (r: Result<(), StreamError>) {
        self.taking = true;
        Ok(())
    }
}

/// Passes every element and records the output edge it is routed to: `0` when the predicate
/// accepts it, `1` otherwise.
pub struct PartitionLogic<F> {
    pub predicate: F,
    pub output_slots: Vec<usize>,
}

impl<F> PartitionLogic<F> {
    /// Takes the edge of the oldest element not yet routed.
    pub fn take_next_output_edge_slot(&mut self) -> (r: Option<usize>)
        ensures
            old(self).output_slots@.len() == 0 ==> r is None && final(self).output_slots@ == old(self).output_slots@,
            old(self).output_slots@.len() > 0 ==> r == Some(old(self).output_slots@[0])
                && final(self).output_slots@ == old(self).output_slots@.drop_first(),
            final(self).predicate == old(self).predicate,
    {
        if self.output_slots.len() == 0 {
            return None;
        }
        Some(self.output_slots.remove(0))
    }
}

impl<In, F: FnMut(&In) -> bool> FlowLogic<In, In> for PartitionLogic<F> {
    open spec fn ready(&self) -> bool {
        forall|x: &In| call_requires(self.predicate, (x,))
    }

    open spec fn applies(&self, input: In, result: Result<Vec<In>, StreamError>, after: Self) -> bool {
        exists|accepted: bool| #[trigger] call_ensures(self.predicate, (&input,), accepted)
            && (result matches Ok(v) && v@ == seq![input])
            && after.predicate == self.predicate
            && after.output_slots@ == self.output_slots@.push(if accepted { 0usize } else { 1usize })
    }

    open spec fn restarts(&self, result: Result<(), StreamError>, after: Self) -> bool {
        result is Ok && after.predicate == self.predicate && after.output_slots@.len() == 0
    }

    fn apply(&mut self, input: In) -> (r: Result<Vec<In>, StreamError>) {
        let accepted = (self.predicate)(&input);
        let slot: usize = if accepted { 0 } else { 1 };
        self.output_slots.push(slot);
        let mut out: Vec<In> = Vec::new();
        out.push(input);
        Ok(out)
    }

    fn on_restart(&mut self) -> (r: Result<(), StreamError>) {
        self.output_slots.clear();
        Ok(())
    }
}

/// Collects elements into a segment and emits it after an element the predicate accepts.
pub struct SplitAfterLogic<In, F> {
    pub predicate: F,
    pub current: Vec<In>,
    pub source_done: bool,
}

impl<In, F> SplitAfterLogic<In, F> {
    /// Records that the upstream has finished.
    pub fn on_source_done(&mut self)
        ensures
            final(self).source_done,
            final(self).predicate == old(self).predicate,
            final(self).current@ == old(self).current@,
    {
        self.source_done = true;
    }

    /// After the upstream finished, emits the unfinished segment, if any.
    pub fn drain_pending(&mut self) -> (r: Vec<Vec<In>>)
        ensures
            final(self).predicate == old(self).predicate,
            final(self).source_done == old(self).source_done,
            !old(self).source_done || old(self).current@.len() == 0 ==> r@.len() == 0
                && final(self).current@ == old(self).current@,
            old(self).source_done && old(self).current@.len() > 0 ==> r@.len() == 1 && r@[0]@ == old(self).current@
                && final(self).current@.len() == 0,
    {
        let mut out: Vec<Vec<In>> = Vec::new();
        if !self.source_done || self.current.len() == 0 {
            return out;
        }
        let mut segment: Vec<In> = Vec::new();
        core::mem::swap(&mut segment, &mut self.current);
        out.push(segment);
        out
    }
}

impl<In, F: FnMut(&In) -> bool> FlowLogic<In, Vec<In>> for SplitAfterLogic<In, F> {
    open spec fn ready(&self) -> bool {
        forall|x: &In| call_requires(self.predicate, (x,))
    }

    /// The element joins the segment, which is emitted when the predicate accepts the element.
    open spec fn applies(&self, input: In, result: Result<Vec<Vec<In>>, StreamError>, after: Self) -> bool {
        exists|split: bool| #[trigger] call_ensures(self.predicate, (&input,), split)
            && after.predicate == self.predicate && after.source_done == self.source_done
            && if split {
                (result matches Ok(v) && v@.len() == 1 && v@[0]@ == self.current@.push(input)) && after.current@.len() == 0
            } else {
                (result matches Ok(v) && v@.len() == 0) && after.current@ == self.current@.push(input)
            }
    }

    open spec fn restarts(&self, result: Result<(), StreamError>, after: Self) -> bool {
        result is Ok && after.predicate == self.predicate && after.current@.len() == 0 && !after.source_done
    }

    fn apply(&mut self, input: In) -> (r: Result<Vec<Vec<In>>, StreamError>) {
        let split = (self.predicate)(&input);
        self.current.push(input);
        let mut out: Vec<Vec<In>> = Vec::new();
        if !split {
            return Ok(out);
        }
        let mut segment: Vec<In> = Vec::new();
        core::mem::swap(&mut segment, &mut self.current);
        out.push(segment);
        Ok(out)
    }

    fn on_restart(&mut self) -> (r: Result<(), StreamError>) {
        self.current.clear();
        self.source_done = false;
        Ok(())
    }
}

/// Passes elements while their total weight stays within the remaining budget; after the
/// first element that exceeds it, nothing more passes.
pub struct LimitWeightedLogic<FW> {
    pub remaining: usize,
    pub weight_fn: FW,
}

impl<In, FW: FnMut(&In) -> usize> FlowLogic<In, In> for LimitWeightedLogic<FW> {
    open spec fn ready(&self) -> bool {
        forall|x: &In| call_requires(self.weight_fn, (x,))
    }

    open spec fn applies(&self, input: In, result: Result<Vec<In>, StreamError>, after: Self) -> bool {
        exists|weight: usize| #[trigger] call_ensures(self.weight_fn, (&input,), weight)
            && after.weight_fn == self.weight_fn
            && if self.remaining == 0 || weight > self.remaining {
                (result matches Ok(v) && v@.len() == 0) && after.remaining == 0
            } else {
                (result matches Ok(v) && v@ == seq![input]) && after.remaining == self.remaining - weight
            }
    }

    open spec fn restarts(&self, result: Result<(), StreamError>, after: Self) -> bool {
        result is Ok && after == *self
    }

    fn apply(&mut self, input: In) -> (r: Result<Vec<In>, StreamError>) {
        let weight = (self.weight_fn)(&input);
        let mut out: Vec<In> = Vec::new();
        if self.remaining == 0 || weight > self.remaining {
            self.remaining = 0;
            return Ok(out);
        }
        self.remaining = self.remaining - weight;
        out.push(input);
        Ok(out)
    }

    fn on_restart(&mut self) -> (r: Result<(), StreamError>) {
        Ok(())
    }
}

/// Replaces error elements by the fallback while retries remain, then fails.
pub struct RecoverWithRetriesLogic<In> {
    pub max_retries: usize,
    pub retries_left: usize,
    pub fallback: In,
}

impl<In: Clone> FlowLogic<Result<In, StreamError>, In> for RecoverWithRetriesLogic<In> {
    open spec fn ready(&self) -> bool {
        true
    }

    open spec fn applies(&self, input: Result<In, StreamError>, result: Result<Vec<In>, StreamError>, after: Self) -> bool {
        match input {
            Ok(value) => (result matches Ok(v) && v@ == seq![value]) && after == *self,
            Err(_) => if self.retries_left == 0 {
                result == Err::<Vec<In>, StreamError>(StreamError::Failed) && after == *self
            } else {
                (result matches Ok(v) && v@.len() == 1 && cloned(self.fallback, v@[0]))
                    && after == (RecoverWithRetriesLogic { retries_left: (self.retries_left - 1) as usize, ..*self })
            },
        }
    }

    open spec fn restarts(&self, result: Result<(), StreamError>, after: Self) -> bool {
        result is Ok && after == (RecoverWithRetriesLogic { retries_left: self.max_retries, ..*self })
    }

    fn apply(&mut self, input: Result<In, StreamError>) -> (r: Result<Vec<In>, StreamError>) {
        let mut out: Vec<In> = Vec::new();
        match input {
            Ok(value) => {
                out.push(value);
                Ok(out)
            },
            Err(_) => {
                if self.retries_left == 0 {
                    return Err(StreamError::Failed);
                }
                self.retries_left = self.retries_left - 1;
                out.push(self.fallback.clone());
                Ok(out)
            },
        }
    }

    fn on_restart(&mut self) -> (r: Result<(), StreamError>) {
        self.retries_left = self.max_retries;
        Ok(())
    }
}

/// Flattens each substream segment into its elements; a zero parallelism is refused.
pub struct FlattenSubstreamsWithParallelismLogic {
    pub parallelism: usize,
}

impl<In> FlowLogic<Vec<In>, In> for FlattenSubstreamsWithParallelismLogic {
    open spec fn ready(&self) -> bool {
        true
    }

    open spec fn applies(&self, input: Vec<In>, result: Result<Vec<In>, StreamError>, after: Self) -> bool {
        &&& after == *self
        &&& self.parallelism == 0 ==> result == Err::<Vec<In>, StreamError>(StreamError::InvalidConnection)
        &&& self.parallelism > 0 ==> (result matches Ok(v) && v@ == input@)
    }

    open spec fn restarts(&self, result: Result<(), StreamError>, after: Self) -> bool {
        result is Ok && after == *self
    }

    fn apply(&mut self, input: Vec<In>) -> (r: Result<Vec<In>, StreamError>) {
        if self.parallelism == 0 {
            return Err(StreamError::InvalidConnection);
        }
        Ok(input)
    }

    fn on_restart(&mut self) -> (r: Result<(), StreamError>) {
        Ok(())
    }
}

/// Maps each element to a vector of outputs.
pub struct MapConcatLogic<F> {
    pub func: F,
}

impl<In, Out, F: FnMut(In) -> Vec<Out>> FlowLogic<In, Out> for MapConcatLogic<F> {
    open spec fn ready(&self) -> bool {
        forall|x: In| call_requires(self.func, (x,))
    }

    open spec fn applies(&self, input: In, result: Result<Vec<Out>, StreamError>, after: Self) -> bool {
        (result matches Ok(v) && call_ensures(self.func, (input,), v)) && after == *self
    }

    open spec fn restarts(&self, result: Result<(), StreamError>, after: Self) -> bool {
        result is Ok && after == *self
    }

    fn apply(&mut self, input: In) -> (r: Result<Vec<Out>, StreamError>) {
        let out = (self.func)(input);
        Ok(out)
    }

    fn on_restart(&mut self) -> (r: Result<(), StreamError>) {
        Ok(())
    }
}

/// What a stage does with an upstream failure.
#[derive(Debug, Clone, Copy, PartialEq, Eq)]
pub enum FailureAction {
    /// Fails the stream with the error.
    Propagate(StreamError),
    /// Completes the stream normally.
    Complete,
}

/// Buffers elements, applying an overflow policy when full, and releases them after the
/// upstream finishes.
pub struct BufferLogic<In> {
    pub capacity: usize,
    pub overflow_policy: OverflowPolicy,
    pub pending: Vec<In>,
    pub source_done: bool,
}

/// Offering `value` to a buffer logic holding `pending` gives `result` and leaves `after`.
pub open spec fn buffered<In>(capacity: usize, policy: OverflowPolicy, pending: Seq<In>, value: In,
    result: Result<(), StreamError>, after: Seq<In>) -> bool
{
    if capacity == 0 {
        result == Err::<(), StreamError>(StreamError::InvalidConnection) && after == pending
    } else if pending.len() < capacity {
        result is Ok && after == pending.push(value)
    } else {
        match policy {
            OverflowPolicy::Block => result == Err::<(), StreamError>(StreamError::BufferOverflow) && after == pending,
            OverflowPolicy::DropNewest => result is Ok && after == pending,
            OverflowPolicy::DropOldest => result is Ok && after == pending.drop_first().push(value),
            OverflowPolicy::Grow => result is Ok && after == pending.push(value),
        }
    }
}

impl<In> BufferLogic<In> {
    /// Creates an empty buffer logic.
    pub fn new(capacity: usize, overflow_policy: OverflowPolicy) -> (r: Self)
        ensures r.capacity == capacity, r.overflow_policy == overflow_policy, r.pending@.len() == 0, !r.source_done,
    {
        BufferLogic { capacity, overflow_policy, pending: Vec::new(), source_done: false }
    }

    /// Stores `value`, applying the overflow policy when the buffer is full.
    pub fn offer_with_strategy(&mut self, value: In) -> (r: Result<(), StreamError>)
        requires old(self).pending@.len() < usize::MAX,
        ensures
            buffered(old(self).capacity, old(self).overflow_policy, old(self).pending@, value, r, final(self).pending@),
            final(self).capacity == old(self).capacity,
            final(self).overflow_policy == old(self).overflow_policy,
            final(self).source_done == old(self).source_done,
    {
        if self.capacity == 0 {
            return Err(StreamError::InvalidConnection);
        }
        if self.pending.len() < self.capacity {
            self.pending.push(value);
            return Ok(());
        }
        match self.overflow_policy {
            OverflowPolicy::Block => Err(StreamError::BufferOverflow),
            OverflowPolicy::DropNewest => Ok(()),
            OverflowPolicy::DropOldest => {
                let _ = self.pending.remove(0);
                self.pending.push(value);
                Ok(())
            },
            OverflowPolicy::Grow => {
                self.pending.push(value);
                Ok(())
            },
        }
    }

    /// Stores one element; nothing is emitted before the upstream finishes.
    pub fn apply(&mut self, input: In) -> (r: Result<Vec<In>, StreamError>)
        requires old(self).pending@.len() < usize::MAX,
        ensures
            ({
                let stored = choose|s: Result<(), StreamError>| buffered(old(self).capacity, old(self).overflow_policy,
                    old(self).pending@, input, s, final(self).pending@);
                buffered(old(self).capacity, old(self).overflow_policy, old(self).pending@, input, stored, final(self).pending@)
                && match stored { Ok(_) => r matches Ok(v) && v@.len() == 0, Err(e) => r == Err::<Vec<In>, StreamError>(e) }
            }),
            final(self).capacity == old(self).capacity,
            final(self).overflow_policy == old(self).overflow_policy,
            final(self).source_done == old(self).source_done,
    {
        match self.offer_with_strategy(input) {
            Ok(_) => Ok(Vec::new()),
            Err(e) => Err(e),
        }
    }

    /// Records that the upstream has finished.
    pub fn on_source_done(&mut self)
        ensures final(self).source_done, final(self).pending@ == old(self).pending@,
            final(self).capacity == old(self).capacity, final(self).overflow_policy == old(self).overflow_policy,
    {
        self.source_done = true;
    }

    /// After the upstream finished, releases the oldest buffered element.
    pub fn drain_pending(&mut self) -> (r: Vec<In>)
        ensures
            final(self).capacity == old(self).capacity,
            final(self).overflow_policy == old(self).overflow_policy,
            final(self).source_done == old(self).source_done,
            !old(self).source_done || old(self).pending@.len() == 0 ==> r@.len() == 0 && final(self).pending@ == old(self).pending@,
            old(self).source_done && old(self).pending@.len() > 0 ==> r@ == seq![old(self).pending@[0]]
                && final(self).pending@ == old(self).pending@.drop_first(),
    {
        let mut out: Vec<In> = Vec::new();
        if !self.source_done || self.pending.len() == 0 {
            return out;
        }
        out.push(self.pending.remove(0));
        out
    }

    /// Whether elements are buffered.
    pub fn has_pending_output(&self) -> (r: bool)
        ensures r == (self.pending@.len() > 0),
    {
        self.pending.len() > 0
    }

    /// Empties the buffer.
    pub fn on_restart(&mut self)
        ensures final(self).pending@.len() == 0, !final(self).source_done,
            final(self).capacity == old(self).capacity, final(self).overflow_policy == old(self).overflow_policy,
    {
        self.pending.clear();
        self.source_done = false;
    }
}

/// Holds the latest element and emits it at most once per interval.
pub struct SampleLogic<In> {
    pub interval_ticks: u64,
    pub held: Option<In>,
    pub last_emit_tick: u64,
    pub tick_count: u64,
}

impl<In> SampleLogic<In> {
    /// Whether a whole interval has passed since the last emission (a clock that went back
    /// counts as no time passed).
    pub open spec fn due(self) -> bool {
        (if self.tick_count >= self.last_emit_tick { self.tick_count - self.last_emit_tick } else { 0 }) >= self.interval_ticks
    }

    /// Creates the logic holding nothing.
    pub fn new(interval_ticks: u64) -> (r: Self)
        ensures r == (SampleLogic::<In> { interval_ticks, held: None, last_emit_tick: 0, tick_count: 0 }),
    {
        SampleLogic { interval_ticks, held: None, last_emit_tick: 0, tick_count: 0 }
    }

    /// Holds `input` in place of any earlier element; nothing is emitted.
    pub fn apply(&mut self, input: In) -> (r: Vec<In>)
        ensures r@.len() == 0, *final(self) == (SampleLogic { held: Some(input), ..*old(self) }),
    {
        self.held = Some(input);
        Vec::new()
    }

    /// Records the current tick.
    pub fn on_tick(&mut self, tick_count: u64)
        ensures *final(self) == (SampleLogic { tick_count, ..*old(self) }),
    {
        self.tick_count = tick_count;
    }

    /// Emits the held element once a whole interval has passed since the last emission.
    pub fn drain_pending(&mut self) -> (r: Vec<In>)
        ensures
            (old(self).held is Some && old(self).due())
                ==> r@ == seq![old(self).held->0]
                && *final(self) == (SampleLogic { held: None, last_emit_tick: old(self).tick_count, ..*old(self) }),
            !(old(self).held is Some && old(self).due())
                ==> r@.len() == 0 && *final(self) == *old(self),
    {
        let mut out: Vec<In> = Vec::new();
        if self.held.is_some() && self.tick_count.saturating_sub(self.last_emit_tick) >= self.interval_ticks {
            if let Some(value) = self.held.take() {
                self.last_emit_tick = self.tick_count;
                out.push(value);
            }
        }
        out
    }

    /// Whether an element is held.
    pub fn has_pending_output(&self) -> (r: bool)
        ensures r == self.held is Some,
    {
        self.held.is_some()
    }

    /// Drops the held element and resets the clock.
    pub fn on_restart(&mut self)
        ensures *final(self) == (SampleLogic { held: None, last_emit_tick: 0, tick_count: 0, ..*old(self) }),
    {
        self.held = None;
        self.last_emit_tick = 0;
        self.tick_count = 0;
    }
}

/// Passes elements until more than `duration_ticks` ticks have passed, then asks for shutdown.
pub struct TakeWithinLogic {
    pub duration_ticks: u64,
    pub tick_count: u64,
    pub expired: bool,
    pub shutdown_requested: bool,
}

impl TakeWithinLogic {
    /// Creates the logic at tick zero.
    pub fn new(duration_ticks: u64) -> (r: Self)
        ensures r == (TakeWithinLogic { duration_ticks, tick_count: 0, expired: false, shutdown_requested: false }),
    {
        TakeWithinLogic { duration_ticks, tick_count: 0, expired: false, shutdown_requested: false }
    }

    /// Records the current tick; the window expires once the tick passes the duration.
    pub fn on_tick(&mut self, tick_count: u64)
        ensures
            tick_count > old(self).duration_ticks ==> *final(self)
                == (TakeWithinLogic { tick_count, expired: true, shutdown_requested: true, ..*old(self) }),
            tick_count <= old(self).duration_ticks ==> *final(self) == (TakeWithinLogic { tick_count, ..*old(self) }),
    {
        self.tick_count = tick_count;
        if self.tick_count > self.duration_ticks {
            self.expired = true;
            self.shutdown_requested = true;
        }
    }

    /// Reports and clears a pending shutdown request.
    pub fn take_shutdown_request(&mut self) -> (r: bool)
        ensures r == old(self).shutdown_requested, *final(self) == (TakeWithinLogic { shutdown_requested: false, ..*old(self) }),
    {
        let requested = self.shutdown_requested;
        self.shutdown_requested = false;
        requested
    }
}

impl<In> FlowLogic<In, In> for TakeWithinLogic {
    open spec fn ready(&self) -> bool {
        true
    }

    open spec fn applies(&self, input: In, result: Result<Vec<In>, StreamError>, after: Self) -> bool {
        if self.expired {
            (result matches Ok(v) && v@.len() == 0) && after == *self
        } else if self.tick_count > self.duration_ticks {
            (result matches Ok(v) && v@.len() == 0)
                && after == (TakeWithinLogic { expired: true, shutdown_requested: true, ..*self })
        } else {
            (result matches Ok(v) && v@ == seq![input]) && after == *self
        }
    }

    open spec fn restarts(&self, result: Result<(), StreamError>, after: Self) -> bool {
        result is Ok && after == (TakeWithinLogic { tick_count: 0, expired: false, shutdown_requested: false, ..*self })
    }

    fn apply(&mut self, input: In) -> (r: Result<Vec<In>, StreamError>) {
        let mut out: Vec<In> = Vec::new();
        if self.expired {
            return Ok(out);
        }
        if self.tick_count > self.duration_ticks {
            self.expired = true;
            self.shutdown_requested = true;
            return Ok(out);
        }
        out.push(input);
        Ok(out)
    }

    fn on_restart(&mut self) -> (r: Result<(), StreamError>) {
        self.tick_count = 0;
        self.expired = false;
        self.shutdown_requested = false;
        Ok(())
    }
}

/// Turns an upstream failure into one final element when `recover` offers one.
pub struct RecoverLogic<Out, F> {
    pub recover: F,
    pub pending: Option<Out>,
}

impl<Out, F: FnMut(StreamError) -> Option<Out>> RecoverLogic<Out, F> {
    /// Whether the recovery function accepts every error.
    pub open spec fn ready(&self) -> bool {
        forall|e: StreamError| call_requires(self.recover, (e,))
    }

    /// Passes the element through.
    pub fn apply(&mut self, input: Out) -> (r: Vec<Out>)
        ensures r@ == seq![input], *final(self) == *old(self),
    {
        let mut out: Vec<Out> = Vec::new();
        out.push(input);
        out
    }

    /// The logic handles upstream failures.
    pub fn handles_failures(&self) -> (r: bool)
        ensures r,
    {
        true
    }

    /// Completes the stream with the recovered element, or propagates the error when `recover`
    /// offers none.
    pub fn on_failure(&mut self, error: StreamError) -> (r: Result<FailureAction, StreamError>)
        requires old(self).ready(),
        ensures
            final(self).recover == old(self).recover,
            exists|offered: Option<Out>| #[trigger] call_ensures(old(self).recover, (error,), offered) && match offered {
                None => r == Ok::<FailureAction, StreamError>(FailureAction::Propagate(error)) && final(self).pending == old(self).pending,
                Some(v) => r == Ok::<FailureAction, StreamError>(FailureAction::Complete) && final(self).pending == Some(v),
            },
    {
        let offered = (self.recover)(error);
        match offered {
            None => Ok(FailureAction::Propagate(error)),
            Some(v) => {
                self.pending = Some(v);
                Ok(FailureAction::Complete)
            },
        }
    }

    /// Emits the recovered element, once.
    pub fn drain_pending(&mut self) -> (r: Vec<Out>)
        ensures
            old(self).pending matches Some(v) ==> r@ == seq![v],
            old(self).pending is None ==> r@.len() == 0,
            final(self).pending is None,
            final(self).recover == old(self).recover,
    {
        let mut out: Vec<Out> = Vec::new();
        if let Some(v) = self.pending.take() {
            out.push(v);
        }
        out
    }

    /// Whether a recovered element waits.
    pub fn has_pending_output(&self) -> (r: bool)
        ensures r == self.pending is Some,
    {
        self.pending.is_some()
    }

    /// Drops any recovered element.
    pub fn on_restart(&mut self)
        ensures final(self).pending is None, final(self).recover == old(self).recover,
    {
        self.pending = None;
    }
}

/// What a log stage has observed.
#[derive(Debug, Clone, Copy, PartialEq, Eq, Structural, Default)]
pub struct LogObservation {
    pub element_count: usize,
    pub completed: bool,
    pub failure_count: usize,
}

/// `x + 1`, saturated to the range of `usize`.
pub open spec fn saturating_inc(x: usize) -> usize {
    if x == usize::MAX { x } else { (x + 1) as usize }
}

/// The record a log stage keeps of what it observed.
pub struct LogObservationHandle {
    pub observation: LogObservation,
}

impl LogObservationHandle {
    /// A record of nothing observed.
    pub fn new() -> (r: Self)
        ensures r.observation == (LogObservation { element_count: 0, completed: false, failure_count: 0 }),
    {
        LogObservationHandle { observation: LogObservation { element_count: 0, completed: false, failure_count: 0 } }
    }

    /// Counts one element.
    pub fn record_element(&mut self)
        ensures final(self).observation == (LogObservation {
            element_count: saturating_inc(old(self).observation.element_count), ..old(self).observation }),
    {
        self.observation.element_count = self.observation.element_count.saturating_add(1);
    }

    /// Records the completion.
    pub fn record_completion(&mut self)
        ensures final(self).observation == (LogObservation { completed: true, ..old(self).observation }),
    {
        self.observation.completed = true;
    }

    /// Counts one failure.
    pub fn record_failure(&mut self)
        ensures final(self).observation == (LogObservation {
            failure_count: saturating_inc(old(self).observation.failure_count), ..old(self).observation }),
    {
        self.observation.failure_count = self.observation.failure_count.saturating_add(1);
    }

    /// What has been observed so far.
    pub fn snapshot(&self) -> (r: LogObservation)
        ensures r == self.observation,
    {
        self.observation
    }
}

/// Counts elements, completion and failures while passing elements through.
pub struct LogLogic {
    pub observation: LogObservationHandle,
}

impl LogLogic {
    /// Creates the logic recording into `observation`.
    pub fn new(observation: LogObservationHandle) -> (r: Self)
        ensures r.observation == observation,
    {
        LogLogic { observation }
    }

    /// The logic lets failures pass to the next stage.
    pub fn handles_failures(&self) -> (r: bool)
        ensures !r,
    {
        false
    }

    /// Counts the failure and propagates it.
    pub fn on_failure(&mut self, error: StreamError) -> (r: Result<FailureAction, StreamError>)
        ensures
            r == Ok::<FailureAction, StreamError>(FailureAction::Propagate(error)),
            final(self).observation.observation == (LogObservation {
                failure_count: saturating_inc(old(self).observation.observation.failure_count), ..old(self).observation.observation }),
    {
        self.observation.record_failure();
        Ok(FailureAction::Propagate(error))
    }

    /// Records the completion.
    pub fn on_source_done(&mut self)
        ensures final(self).observation.observation == (LogObservation { completed: true, ..old(self).observation.observation }),
    {
        self.observation.record_completion();
    }
}

impl<In> FlowLogic<In, In> for LogLogic {
    open spec fn ready(&self) -> bool {
        true
    }

    /// Counts the element and passes it through.
    open spec fn applies(&self, input: In, result: Result<Vec<In>, StreamError>, after: Self) -> bool {
        (result matches Ok(v) && v@ == seq![input]) && after.observation.observation
            == (LogObservation { element_count: saturating_inc(self.observation.observation.element_count), ..self.observation.observation })
    }

    open spec fn restarts(&self, result: Result<(), StreamError>, after: Self) -> bool {
        result is Ok && after == *self
    }

    fn apply(&mut self, input: In) -> (r: Result<Vec<In>, StreamError>) {
        self.observation.record_element();
        let mut out: Vec<In> = Vec::new();
        out.push(input);
        Ok(out)
    }

    fn on_restart(&mut self) -> (r: Result<(), StreamError>) {
        Ok(())
    }
}

/// Passes elements through and completes its handle when the upstream finishes.
pub struct WatchTerminationLogic {
    pub completion: StreamCompletion<()>,
}

impl WatchTerminationLogic {
    /// Completes the handle with success, unless it already holds a result.
    pub fn on_source_done(&mut self)
        ensures
            old(self).completion.spec_result() is Some ==> final(self).completion.spec_result() == old(self).completion.spec_result(),
            old(self).completion.spec_result() is None ==> final(self).completion.spec_result() == Some(Ok::<(), StreamError>(())),
    {
        self.completion.complete(Ok(()));
    }
}

impl<In> FlowLogic<In, In> for WatchTerminationLogic {
    open spec fn ready(&self) -> bool {
        true
    }

    open spec fn applies(&self, input: In, result: Result<Vec<In>, StreamError>, after: Self) -> bool {
        (result matches Ok(v) && v@ == seq![input]) && after == *self
    }

    open spec fn restarts(&self, result: Result<(), StreamError>, after: Self) -> bool {
        result is Ok && after == *self
    }

    fn apply(&mut self, input: In) -> (r: Result<Vec<In>, StreamError>) {
        let mut out: Vec<In> = Vec::new();
        out.push(input);
        Ok(out)
    }

    fn on_restart(&mut self) -> (r: Result<(), StreamError>) {
        Ok(())
    }
}

/// Decides how many ticks each element is delayed; implemented by users of `delay_with`.
pub trait DelayStrategy<In>: Sized {
    /// Whether choosing the delay for `element` may give `delay` and leave `after`; a strategy
    /// that states nothing of its choices admits every delay.
    open spec fn delays(&self, element: In, delay: u64, after: Self) -> bool {
        true
    }

    /// The delay, in ticks, for `element`.
    fn next_delay(&mut self, element: &In) -> (r: u64)
        ensures old(self).delays(*element, r, *final(self));
}

/// An element waiting until the tick count reaches `ready_at`.
pub struct TimedPendingEntry<In> {
    pub ready_at: u64,
    pub value: In,
}

/// Delays each element by the ticks its strategy chooses, releasing them in arrival order.
pub struct StrategyDelayLogic<In, S> {
    pub strategy: S,
    pub pending: Vec<TimedPendingEntry<In>>,
    pub tick_count: u64,
}

impl<In, S: DelayStrategy<In>> StrategyDelayLogic<In, S> {
    /// Creates the logic with nothing pending.
    pub fn new(strategy: S) -> (r: Self)
        ensures r.strategy == strategy, r.pending@.len() == 0, r.tick_count == 0,
    {
        StrategyDelayLogic { strategy, pending: Vec::new(), tick_count: 0 }
    }

    /// Queues `input` until the delay its strategy chose has passed.
    pub fn apply(&mut self, input: In) -> (r: Vec<In>)
        ensures
            r@.len() == 0,
            final(self).tick_count == old(self).tick_count,
            final(self).pending@.len() == old(self).pending@.len() + 1,
            final(self).pending@.drop_last() == old(self).pending@,
            final(self).pending@.last().value == input,
            exists|delay: u64| #[trigger] old(self).strategy.delays(input, delay, final(self).strategy)
                && final(self).pending@.last().ready_at == if old(self).tick_count + delay > u64::MAX {
                    u64::MAX
                } else {
                    (old(self).tick_count + delay) as u64
                },
    {
        let ghost chooser = self.strategy;
        let delay_ticks = self.strategy.next_delay(&input);
        let ghost chosen = self.strategy;
        let ready_at = self.tick_count.saturating_add(delay_ticks);
        proof {
            assert(chooser.delays(input, delay_ticks, chosen));
        }
        self.pending.push(TimedPendingEntry { ready_at, value: input });
        proof {
            assert(old(self).strategy == chooser);
            assert(self.strategy == chosen);
            assert(self.pending@.last().ready_at == ready_at);
        }
        Vec::new()
    }

    /// Records the current tick.
    pub fn on_tick(&mut self, tick_count: u64)
        ensures final(self).tick_count == tick_count, final(self).pending@ == old(self).pending@,
            final(self).strategy == old(self).strategy,
    {
        self.tick_count = tick_count;
    }

    /// Releases the oldest element once its time has come.
    pub fn drain_pending(&mut self) -> (r: Vec<In>)
        ensures
            final(self).tick_count == old(self).tick_count,
            final(self).strategy == old(self).strategy,
            old(self).pending@.len() > 0 && old(self).pending@[0].ready_at <= old(self).tick_count ==>
                r@ == seq![old(self).pending@[0].value] && final(self).pending@ == old(self).pending@.drop_first(),
            !(old(self).pending@.len() > 0 && old(self).pending@[0].ready_at <= old(self).tick_count) ==>
                r@.len() == 0 && final(self).pending@ == old(self).pending@,
    {
        let mut out: Vec<In> = Vec::new();
        if self.pending.len() == 0 || self.pending[0].ready_at > self.tick_count {
            return out;
        }
        let entry = self.pending.remove(0);
        out.push(entry.value);
        out
    }

    /// Whether elements are waiting.
    pub fn has_pending_output(&self) -> (r: bool)
        ensures r == (self.pending@.len() > 0),
    {
        self.pending.len() > 0
    }

    /// Drops the waiting elements and resets the clock.
    pub fn on_restart(&mut self)
        ensures final(self).pending@.len() == 0, final(self).tick_count == 0, final(self).strategy == old(self).strategy,
    {
        self.pending.clear();
        self.tick_count = 0;
    }
}

/// Context passed to stage logic; implemented by stream runtimes.
pub trait StageContext<In, Out> {
    /// Requests demand from upstream.
    fn pull(&mut self);
    /// Grabs the current input element.
    fn grab(&mut self) -> In;
    /// Pushes an element downstream.
    fn push(&mut self, out: Out);
    /// Completes the stream.
    fn complete(&mut self);
    /// Fails the stream with the provided error.
    fn fail(&mut self, error: StreamError);
}

} // verus!
