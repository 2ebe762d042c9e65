//! Processing stages: what a flow stage does to the elements and ending of the stream it is given.
use vstd::prelude::*;
use crate::body::{StreamBody, StreamEnd, arrivals, select, spec_take, spec_drop, mapped_by, filtered_by, rejected_by, accepted_prefix,
    spec_groups, somes, flatten};
use crate::error::StreamError;
use crate::source::Source;
use crate::keyed::{GroupKey, admitted, group_by_elements, keyed_by, first_seen, changed, distinct_by_elements,
    distinct_elements, drop_repeated_elements};
use crate::ops;
use crate::timed::{arrival_vec, with_arrivals, timed_concat_mapped_by, map_concat_timed, timed_filtered, filter_timed, lemma_timed_filtered_elements};
use crate::ops::{first_accepted, option_mapped_by, concat_mapped_by, scanned_by, folded_by, reduced_by, interspersed,
    repeated_each, windowed, oks, errors_mapped_by, pairs_spread_by, recovered_with, error_count, emitted_segments,
    split_after_state, split_before_state};

verus! {

/// A stage that turns a stream of `In` into a stream of `Out`.
pub trait FlowStage<In, Out>: Sized {
    /// Whether the stage can run on any stream (its closures accept every input).
    spec fn ready(&self) -> bool;

    /// Whether `output` is a possible result of running the stage on `input`.
    spec fn yields(&self, input: StreamBody<In>, output: StreamBody<Out>) -> bool;

    /// Runs the stage over a whole stream.
    fn run(self, input: StreamBody<In>) -> (output: StreamBody<Out>)
        requires self.ready(),
        ensures self.yields(input, output);
}

/// A stage run together with the materialized value of the flow that holds it: besides turning
/// `input` into an output stream, a stage may settle part of that value (a side sink does).
pub trait MatStage<In, Out, M>: Sized {
    /// Whether the stage can run on any stream.
    spec fn ready_with_mat(&self) -> bool;

    /// Whether running on `input` with the value `before` may give `output` and leave `after`.
    spec fn runs(&self, input: StreamBody<In>, before: M, output: StreamBody<Out>, after: M) -> bool;

    /// Runs the stage over a whole stream, settling its part of the materialized value.
    fn run_with_mat(self, input: StreamBody<In>, mat: M) -> (r: (StreamBody<Out>, M))
        requires self.ready_with_mat(),
        ensures self.runs(input, mat, r.0, r.1);
}

/// The stage that passes every element through unchanged.
pub struct Identity;

impl<T> FlowStage<T, T> for Identity {
    open spec fn ready(&self) -> bool { true }

    open spec fn yields(&self, input: StreamBody<T>, output: StreamBody<T>) -> bool {
        output == input
    }

    fn run(self, input: StreamBody<T>) -> (output: StreamBody<T>) {
        input
    }
}

/// The identity stage leaves the materialized value as it is.
impl<T, M> MatStage<T, T, M> for Identity {
    open spec fn ready_with_mat(&self) -> bool { true }

    open spec fn runs(&self, input: StreamBody<T>, before: M, output: StreamBody<T>, after: M) -> bool {
        output == input && after == before
    }

    fn run_with_mat(self, input: StreamBody<T>, mat: M) -> (r: (StreamBody<T>, M)) {
        (input, mat)
    }
}

/// Two stages run one after the other.
pub struct Then<A, B, Mid> {
    pub first: A,
    pub second: B,
    pub _mid: core::marker::PhantomData<Mid>,
}

impl<A, B, Mid> Then<A, B, Mid> {
    /// Chains `first` and `second`.
    pub fn new(first: A, second: B) -> (r: Self)
        ensures r.first == first, r.second == second,
    {
        Then { first, second, _mid: core::marker::PhantomData }
    }
}

impl<In, Mid, Out, A: FlowStage<In, Mid>, B: FlowStage<Mid, Out>> FlowStage<In, Out> for Then<A, B, Mid> {
    open spec fn ready(&self) -> bool { self.first.ready() && self.second.ready() }

    open spec fn yields(&self, input: StreamBody<In>, output: StreamBody<Out>) -> bool {
        exists|m: StreamBody<Mid>| #[trigger] self.first.yields(input, m) && self.second.yields(m, output)
    }

    fn run(self, input: StreamBody<In>) -> (output: StreamBody<Out>) {
        let Then { first, second, _mid } = self;
        let m = first.run(input);
        let out = second.run(m);
        proof { assert(first.yields(input, m)); }
        out
    }
}

/// A chain of plain stages leaves the materialized value as it is.
impl<In, Mid, Out, M, A: FlowStage<In, Mid>, B: FlowStage<Mid, Out>> MatStage<In, Out, M> for Then<A, B, Mid> {
    open spec fn ready_with_mat(&self) -> bool { self.first.ready() && self.second.ready() }

    open spec fn runs(&self, input: StreamBody<In>, before: M, output: StreamBody<Out>, after: M) -> bool {
        self.yields(input, output) && after == before
    }

    fn run_with_mat(self, input: StreamBody<In>, mat: M) -> (r: (StreamBody<Out>, M)) {
        (self.run(input), mat)
    }
}

/// Two stages that can both run make a chain that can run.
pub proof fn lemma_then_ready<In, Mid, Out, A: FlowStage<In, Mid>, B: FlowStage<Mid, Out>>(t: Then<A, B, Mid>)
    requires t.first.ready(), t.second.ready(),
    ensures <Then<A, B, Mid> as FlowStage<In, Out>>::ready(&t),
{
}

/// The identity stage can always run.
pub proof fn lemma_identity_ready<T>(i: Identity)
    ensures <Identity as FlowStage<T, T>>::ready(&i),
{
}

/// A map stage whose function accepts every element can run.
pub proof fn lemma_map_ready<A, B, F: FnMut(A) -> B>(m: MapStage<F>)
    requires forall|a: A| call_requires(m.func, (a,)),
    ensures <MapStage<F> as FlowStage<A, B>>::ready(&m),
{
}

/// A filter stage whose predicate accepts every element can run.
pub proof fn lemma_filter_ready<T, F: FnMut(&T) -> bool>(f: FilterStage<F>)
    requires forall|a: &T| call_requires(f.predicate, (a,)),
    ensures <FilterStage<F> as FlowStage<T, T>>::ready(&f),
{
}

/// Maps every element through `func`.
pub struct MapStage<F> {
    pub func: F,
}

impl<A, B, F: FnMut(A) -> B> FlowStage<A, B> for MapStage<F> {
    open spec fn ready(&self) -> bool { forall|a: A| call_requires(self.func, (a,)) }

    open spec fn yields(&self, input: StreamBody<A>, output: StreamBody<B>) -> bool {
        &&& mapped_by(self.func, input.elements@, output.elements@)
        &&& output.end == input.end
        &&& arrivals(output) == arrivals(input)
    }

    fn run(self, input: StreamBody<A>) -> (output: StreamBody<B>) {
        let mut f = self.func;
        let StreamBody { elements, end, ticks } = input;
        let out = crate::body::map_elements(elements, &mut f);
        StreamBody { elements: out, end, ticks }
    }
}

/// Keeps the elements that `predicate` accepts (`keep`), or those it rejects (`!keep`).
pub struct FilterStage<F> {
    pub predicate: F,
    pub keep: bool,
}

impl<T, F: FnMut(&T) -> bool> FlowStage<T, T> for FilterStage<F> {
    open spec fn ready(&self) -> bool { forall|a: &T| call_requires(self.predicate, (a,)) }

    open spec fn yields(&self, input: StreamBody<T>, output: StreamBody<T>) -> bool {
        &&& self.keep ==> filtered_by(self.predicate, input.elements@, output.elements@)
        &&& !self.keep ==> rejected_by(self.predicate, input.elements@, output.elements@)
        &&& timed_filtered(self.predicate, input.elements@, arrivals(input), self.keep, output.elements@, arrivals(output))
        &&& output.end == input.end
    }

    fn run(self, input: StreamBody<T>) -> (output: StreamBody<T>) {
        let mut f = self.predicate;
        let ghost f0 = f;
        let ghost xs = input.elements@;
        let ghost a = arrivals(input);
        let out = filter_timed(input, &mut f, self.keep);
        proof {
            lemma_timed_filtered_elements(f0, xs, a, self.keep, out.elements@, arrivals(out));
        }
        out
    }
}

/// Maps every element to an optional output and keeps the present ones.
pub struct MapOptionStage<F> {
    pub func: F,
}

impl<A, B, F: FnMut(A) -> Option<B>> FlowStage<A, B> for MapOptionStage<F> {
    open spec fn ready(&self) -> bool { forall|a: A| call_requires(self.func, (a,)) }

    open spec fn yields(&self, input: StreamBody<A>, output: StreamBody<B>) -> bool {
        option_mapped_by(self.func, input.elements@, output.elements@) && output.end == input.end
    }

    fn run(self, input: StreamBody<A>) -> (output: StreamBody<B>) {
        let mut f = self.func;
        let StreamBody { elements, end, .. } = input;
        let out = ops::map_option_elements(elements, &mut f);
        StreamBody { elements: out, end, ticks: Vec::new() }
    }
}

/// Maps every element to a vector of outputs and emits them in order.
pub struct MapConcatStage<F> {
    pub func: F,
}

impl<A, B, F: FnMut(A) -> Vec<B>> FlowStage<A, B> for MapConcatStage<F> {
    open spec fn ready(&self) -> bool { forall|a: A| call_requires(self.func, (a,)) }

    open spec fn yields(&self, input: StreamBody<A>, output: StreamBody<B>) -> bool {
        timed_concat_mapped_by(self.func, input.elements@, arrivals(input), output.elements@, arrivals(output))
            && output.end == input.end
    }

    fn run(self, input: StreamBody<A>) -> (output: StreamBody<B>) {
        let mut f = self.func;
        map_concat_timed(input, &mut f)
    }
}

/// Builds a mapper with `factory` when the stream starts and maps every element through it.
pub struct StatefulMapStage<Fac> {
    pub factory: Fac,
}

/// `m` is a mapper that `factory` can build, and it accepts every input.
pub open spec fn built_total<A, B, M: FnMut(A) -> B, Fac: FnOnce() -> M>(factory: Fac, m: M) -> bool {
    call_ensures(factory, (), m) && forall|a: A| call_requires(m, (a,))
}

impl<A, B, M: FnMut(A) -> B, Fac: FnOnce() -> M> FlowStage<A, B> for StatefulMapStage<Fac> {
    open spec fn ready(&self) -> bool {
        &&& call_requires(self.factory, ())
        &&& forall|m: M| call_ensures(self.factory, (), m) ==> forall|a: A| call_requires(m, (a,))
    }

    open spec fn yields(&self, input: StreamBody<A>, output: StreamBody<B>) -> bool {
        exists|m: M| #[trigger] built_total::<A, B, M, Fac>(self.factory, m)
            && mapped_by(m, input.elements@, output.elements@) && output.end == input.end
    }

    fn run(self, input: StreamBody<A>) -> (output: StreamBody<B>) {
        let factory = self.factory;
        let mut m = factory();
        let ghost m0 = m;
        let StreamBody { elements, end, .. } = input;
        let out = crate::body::map_elements(elements, &mut m);
        proof { assert(built_total::<A, B, M, Fac>(factory, m0)); }
        StreamBody { elements: out, end, ticks: Vec::new() }
    }
}

/// Builds a mapper with `factory` when the stream starts and emits the vectors it maps elements to.
pub struct StatefulMapConcatStage<Fac> {
    pub factory: Fac,
}

impl<A, B, M: FnMut(A) -> Vec<B>, Fac: FnOnce() -> M> FlowStage<A, B> for StatefulMapConcatStage<Fac> {
    open spec fn ready(&self) -> bool {
        &&& call_requires(self.factory, ())
        &&& forall|m: M| call_ensures(self.factory, (), m) ==> forall|a: A| call_requires(m, (a,))
    }

    open spec fn yields(&self, input: StreamBody<A>, output: StreamBody<B>) -> bool {
        exists|m: M| #[trigger] built_total::<A, Vec<B>, M, Fac>(self.factory, m)
            && concat_mapped_by(m, input.elements@, output.elements@) && output.end == input.end
    }

    fn run(self, input: StreamBody<A>) -> (output: StreamBody<B>) {
        let factory = self.factory;
        let mut m = factory();
        let ghost m0 = m;
        let StreamBody { elements, end, .. } = input;
        let out = ops::map_concat_elements(elements, &mut m);
        proof { assert(built_total::<A, Vec<B>, M, Fac>(factory, m0)); }
        StreamBody { elements: out, end, ticks: Vec::new() }
    }
}

/// Keeps the first `count` elements; the stream completes once they have passed.
pub struct TakeStage {
    pub count: usize,
}

impl<T> FlowStage<T, T> for TakeStage {
    open spec fn ready(&self) -> bool { true }

    open spec fn yields(&self, input: StreamBody<T>, output: StreamBody<T>) -> bool {
        &&& (output.elements@, output.end) == spec_take(input.elements@, input.end, self.count as nat)
        &&& arrivals(output) == arrivals(input).take(output.elements@.len() as int)
    }

    fn run(self, input: StreamBody<T>) -> (output: StreamBody<T>) {
        let arr = arrival_vec(&input);
        let ghost a = arrivals(input);
        let out = ops::take_elements(input, self.count);
        with_arrivals(out, &arr, Ghost(a), 0)
    }
}

/// Skips the first `count` elements.
pub struct DropStage {
    pub count: usize,
}

impl<T> FlowStage<T, T> for DropStage {
    open spec fn ready(&self) -> bool { true }

    open spec fn yields(&self, input: StreamBody<T>, output: StreamBody<T>) -> bool {
        &&& output.elements@ == spec_drop(input.elements@, self.count as nat)
        &&& output.end == input.end
        &&& arrivals(output) == arrivals(input).skip(input.elements@.len() - output.elements@.len())
    }

    fn run(self, input: StreamBody<T>) -> (output: StreamBody<T>) {
        let arr = arrival_vec(&input);
        let ghost a = arrivals(input);
        let n = input.elements.len();
        let StreamBody { elements, end, .. } = input;
        let rest = ops::drop_elements(elements, self.count);
        let from = n - rest.len();
        let out = StreamBody { elements: rest, end, ticks: Vec::new() };
        let r = with_arrivals(out, &arr, Ghost(a), from);
        proof {
            assert(a.subrange(from as int, from + r.elements@.len()) =~= a.skip(from as int));
        }
        r
    }
}

/// Keeps elements while `predicate` accepts them; the stream completes at the first rejected one.
pub struct TakeWhileStage<F> {
    pub predicate: F,
}

impl<T, F: FnMut(&T) -> bool> FlowStage<T, T> for TakeWhileStage<F> {
    open spec fn ready(&self) -> bool { forall|a: &T| call_requires(self.predicate, (a,)) }

    open spec fn yields(&self, input: StreamBody<T>, output: StreamBody<T>) -> bool {
        exists|k: int| #![auto] accepted_prefix(self.predicate, input.elements@, k)
            && output.elements@ == input.elements@.take(k)
            && output.end == (if k < input.elements@.len() { StreamEnd::Completed } else { input.end })
    }

    fn run(self, input: StreamBody<T>) -> (output: StreamBody<T>) {
        let mut f = self.predicate;
        ops::take_while_elements(input, &mut f)
    }
}

/// Skips elements while `predicate` accepts them.
pub struct DropWhileStage<F> {
    pub predicate: F,
}

impl<T, F: FnMut(&T) -> bool> FlowStage<T, T> for DropWhileStage<F> {
    open spec fn ready(&self) -> bool { forall|a: &T| call_requires(self.predicate, (a,)) }

    open spec fn yields(&self, input: StreamBody<T>, output: StreamBody<T>) -> bool {
        &&& exists|k: int| #![auto] accepted_prefix(self.predicate, input.elements@, k)
            && output.elements@ == input.elements@.skip(k)
        &&& output.end == input.end
    }

    fn run(self, input: StreamBody<T>) -> (output: StreamBody<T>) {
        let mut f = self.predicate;
        let StreamBody { elements, end, .. } = input;
        StreamBody { elements: ops::drop_while_elements(elements, &mut f), end, ticks: Vec::new() }
    }
}

/// Keeps elements up to and including the first one `predicate` accepts; the stream completes there.
pub struct TakeUntilStage<F> {
    pub predicate: F,
}

impl<T, F: FnMut(&T) -> bool> FlowStage<T, T> for TakeUntilStage<F> {
    open spec fn ready(&self) -> bool { forall|a: &T| call_requires(self.predicate, (a,)) }

    open spec fn yields(&self, input: StreamBody<T>, output: StreamBody<T>) -> bool {
        exists|k: int| #![auto] first_accepted(self.predicate, input.elements@, k)
            && (k < input.elements@.len() ==> output.elements@ == input.elements@.take(k + 1)
                && output.end == StreamEnd::Completed)
            && (k == input.elements@.len() ==> output.elements@ == input.elements@ && output.end == input.end)
    }

    fn run(self, input: StreamBody<T>) -> (output: StreamBody<T>) {
        let mut f = self.predicate;
        ops::take_until_elements(input, &mut f)
    }
}

/// Emits consecutive chunks of `size` elements; a short last chunk only when the stream completes.
pub struct GroupedStage {
    pub size: usize,
}

impl<T> FlowStage<T, Vec<T>> for GroupedStage {
    open spec fn ready(&self) -> bool { self.size > 0 }

    open spec fn yields(&self, input: StreamBody<T>, output: StreamBody<Vec<T>>) -> bool {
        &&& output.elements@.map_values(|c: Vec<T>| c@) == spec_groups(input.elements@, self.size as nat, input.end)
        &&& output.end == input.end
    }

    fn run(self, input: StreamBody<T>) -> (output: StreamBody<Vec<T>>) {
        ops::group_elements(input, self.size)
    }
}

/// Emits every window of `size` consecutive elements.
pub struct SlidingStage {
    pub size: usize,
}

impl<T: Clone> FlowStage<T, Vec<T>> for SlidingStage {
    open spec fn ready(&self) -> bool { self.size > 0 }

    open spec fn yields(&self, input: StreamBody<T>, output: StreamBody<Vec<T>>) -> bool {
        &&& windowed(input.elements@, self.size as nat, output.elements@.map_values(|w: Vec<T>| w@))
        &&& output.end == input.end
    }

    fn run(self, input: StreamBody<T>) -> (output: StreamBody<Vec<T>>) {
        let out = ops::sliding_elements(&input.elements, self.size);
        StreamBody { elements: out, end: input.end, ticks: Vec::new() }
    }
}

/// Emits the initial accumulator and then every running accumulation; on a stream that emits
/// nothing, the initial accumulator comes only when the stream completes.
pub struct ScanStage<Acc, F> {
    pub initial: Acc,
    pub func: F,
}

impl<T, Acc: Clone, F: FnMut(Acc, T) -> Acc> FlowStage<T, Acc> for ScanStage<Acc, F> {
    open spec fn ready(&self) -> bool { forall|a: Acc, t: T| call_requires(self.func, (a, t)) }

    open spec fn yields(&self, input: StreamBody<T>, output: StreamBody<Acc>) -> bool {
        &&& input.elements@.len() > 0 || input.end == StreamEnd::Completed
            ==> scanned_by(self.func, self.initial, input.elements@, output.elements@)
        &&& input.elements@.len() == 0 && input.end != StreamEnd::Completed ==> output.elements@.len() == 0
        &&& output.end == input.end
    }

    fn run(self, input: StreamBody<T>) -> (output: StreamBody<Acc>) {
        let mut f = self.func;
        let StreamBody { elements, end, .. } = input;
        if elements.len() == 0 && !matches!(end, StreamEnd::Completed) {
            return StreamBody { elements: Vec::new(), end, ticks: Vec::new() };
        }
        let out = ops::scan_elements(elements, self.initial, &mut f);
        StreamBody { elements: out, end, ticks: Vec::new() }
    }
}

/// Emits every running accumulation, without the initial accumulator.
pub struct FoldStage<Acc, F> {
    pub initial: Acc,
    pub func: F,
}

impl<T, Acc: Clone, F: FnMut(Acc, T) -> Acc> FlowStage<T, Acc> for FoldStage<Acc, F> {
    open spec fn ready(&self) -> bool { forall|a: Acc, t: T| call_requires(self.func, (a, t)) }

    open spec fn yields(&self, input: StreamBody<T>, output: StreamBody<Acc>) -> bool {
        folded_by(self.func, self.initial, input.elements@, output.elements@) && output.end == input.end
    }

    fn run(self, input: StreamBody<T>) -> (output: StreamBody<Acc>) {
        let mut f = self.func;
        let StreamBody { elements, end, .. } = input;
        let out = ops::fold_elements(elements, self.initial, &mut f);
        StreamBody { elements: out, end, ticks: Vec::new() }
    }
}

/// Emits every running reduction, seeded with the first element.
pub struct ReduceStage<F> {
    pub func: F,
}

impl<T: Clone, F: FnMut(T, T) -> T> FlowStage<T, T> for ReduceStage<F> {
    open spec fn ready(&self) -> bool { forall|a: T, b: T| call_requires(self.func, (a, b)) }

    open spec fn yields(&self, input: StreamBody<T>, output: StreamBody<T>) -> bool {
        reduced_by(self.func, input.elements@, output.elements@) && output.end == input.end
    }

    fn run(self, input: StreamBody<T>) -> (output: StreamBody<T>) {
        let mut f = self.func;
        let StreamBody { elements, end, .. } = input;
        let out = ops::reduce_elements(elements, &mut f);
        StreamBody { elements: out, end, ticks: Vec::new() }
    }
}

/// Emits `start`, the elements separated by `inject`, and `end` when the stream completes.
pub struct IntersperseStage<T> {
    pub start: T,
    pub inject: T,
    pub end: T,
}

impl<T: Clone> FlowStage<T, T> for IntersperseStage<T> {
    open spec fn ready(&self) -> bool { true }

    open spec fn yields(&self, input: StreamBody<T>, output: StreamBody<T>) -> bool {
        &&& interspersed(input.elements@, self.start, self.inject, self.end, input.end == StreamEnd::Completed,
            output.elements@)
        &&& output.end == input.end
    }

    fn run(self, input: StreamBody<T>) -> (output: StreamBody<T>) {
        let StreamBody { elements, end, .. } = input;
        let closed = matches!(end, StreamEnd::Completed);
        let out = ops::intersperse_elements(elements, self.start, self.inject, self.end, closed);
        StreamBody { elements: out, end, ticks: Vec::new() }
    }
}

/// Pairs every element with its position.
pub struct ZipWithIndexStage;

impl<T> FlowStage<T, (T, u64)> for ZipWithIndexStage {
    open spec fn ready(&self) -> bool { true }

    open spec fn yields(&self, input: StreamBody<T>, output: StreamBody<(T, u64)>) -> bool {
        &&& output.elements@.len() == input.elements@.len()
        &&& forall|i: int| 0 <= i < input.elements@.len()
            ==> #[trigger] output.elements@[i] == (input.elements@[i], i as u64)
        &&& output.end == input.end
    }

    fn run(self, input: StreamBody<T>) -> (output: StreamBody<(T, u64)>) {
        let StreamBody { elements, end, .. } = input;
        StreamBody { elements: ops::zip_with_index_elements(elements), end, ticks: Vec::new() }
    }
}

/// Emits `fan_out` clones of every element.
pub struct BroadcastStage {
    pub fan_out: usize,
}

impl<T: Clone> FlowStage<T, T> for BroadcastStage {
    open spec fn ready(&self) -> bool { self.fan_out > 0 }

    open spec fn yields(&self, input: StreamBody<T>, output: StreamBody<T>) -> bool {
        repeated_each(input.elements@, self.fan_out as nat, output.elements@) && output.end == input.end
    }

    fn run(self, input: StreamBody<T>) -> (output: StreamBody<T>) {
        let StreamBody { elements, end, .. } = input;
        StreamBody { elements: ops::repeat_each_elements(elements, self.fan_out), end, ticks: Vec::new() }
    }
}

/// Wraps every element in a vector of its own.
pub struct WrapStage;

impl<T> FlowStage<T, Vec<T>> for WrapStage {
    open spec fn ready(&self) -> bool { true }

    open spec fn yields(&self, input: StreamBody<T>, output: StreamBody<Vec<T>>) -> bool {
        &&& output.elements@.len() == input.elements@.len()
        &&& forall|i: int| 0 <= i < input.elements@.len()
            ==> (#[trigger] output.elements@[i])@ == seq![input.elements@[i]]
        &&& output.end == input.end
    }

    fn run(self, input: StreamBody<T>) -> (output: StreamBody<Vec<T>>) {
        let StreamBody { elements, end, .. } = input;
        StreamBody { elements: ops::wrap_elements(elements), end, ticks: Vec::new() }
    }
}

/// Emits both components of every pair.
pub struct UnzipStage;

impl<T> FlowStage<(T, T), T> for UnzipStage {
    open spec fn ready(&self) -> bool { true }

    open spec fn yields(&self, input: StreamBody<(T, T)>, output: StreamBody<T>) -> bool {
        &&& output.elements@.len() == 2 * input.elements@.len()
        &&& forall|i: int| 0 <= i < input.elements@.len() ==> output.elements@[2 * i] == (#[trigger] input.elements@[i]).0
            && output.elements@[2 * i + 1] == input.elements@[i].1
        &&& output.end == input.end
    }

    fn run(self, input: StreamBody<(T, T)>) -> (output: StreamBody<T>) {
        let StreamBody { elements, end, .. } = input;
        StreamBody { elements: ops::unzip_elements(elements), end, ticks: Vec::new() }
    }
}

/// Maps every element to a pair and emits both components.
pub struct UnzipWithStage<F> {
    pub func: F,
}

impl<A, B, F: FnMut(A) -> (B, B)> FlowStage<A, B> for UnzipWithStage<F> {
    open spec fn ready(&self) -> bool { forall|a: A| call_requires(self.func, (a,)) }

    open spec fn yields(&self, input: StreamBody<A>, output: StreamBody<B>) -> bool {
        pairs_spread_by(self.func, input.elements@, output.elements@) && output.end == input.end
    }

    fn run(self, input: StreamBody<A>) -> (output: StreamBody<B>) {
        let mut f = self.func;
        let StreamBody { elements, end, .. } = input;
        StreamBody { elements: ops::unzip_with_elements(elements, &mut f), end, ticks: Vec::new() }
    }
}

/// Emits the elements of every vector in order.
pub struct FlattenStage;

impl<T> FlowStage<Vec<T>, T> for FlattenStage {
    open spec fn ready(&self) -> bool { true }

    open spec fn yields(&self, input: StreamBody<Vec<T>>, output: StreamBody<T>) -> bool {
        output.elements@ == flatten(input.elements@.map_values(|w: Vec<T>| w@)) && output.end == input.end
    }

    fn run(self, input: StreamBody<Vec<T>>) -> (output: StreamBody<T>) {
        let StreamBody { elements, end, .. } = input;
        StreamBody { elements: ops::flatten_elements(elements), end, ticks: Vec::new() }
    }
}

/// Emits the present values and skips the absent ones.
pub struct FlattenOptionalStage;

impl<T> FlowStage<Option<T>, T> for FlattenOptionalStage {
    open spec fn ready(&self) -> bool { true }

    open spec fn yields(&self, input: StreamBody<Option<T>>, output: StreamBody<T>) -> bool {
        output.elements@ == somes(input.elements@) && output.end == input.end
    }

    fn run(self, input: StreamBody<Option<T>>) -> (output: StreamBody<T>) {
        let StreamBody { elements, end, .. } = input;
        let mut id = |o: Option<T>| -> (r: Option<T>) ensures r == o { o };
        let out = ops::map_option_elements(elements, &mut id);
        proof {
            let os = choose|os: Seq<Option<T>>| #![auto] mapped_by(id, elements@, os) && out@ == somes(os);
            assert(os =~= elements@);
        }
        StreamBody { elements: out, end, ticks: Vec::new() }
    }
}

/// Maps the error payloads through `func`.
pub struct MapErrorStage<F> {
    pub func: F,
}

impl<T, F: FnMut(StreamError) -> StreamError> FlowStage<Result<T, StreamError>, Result<T, StreamError>> for MapErrorStage<F> {
    open spec fn ready(&self) -> bool { forall|e: StreamError| call_requires(self.func, (e,)) }

    open spec fn yields(&self, input: StreamBody<Result<T, StreamError>>, output: StreamBody<Result<T, StreamError>>) -> bool {
        errors_mapped_by(self.func, input.elements@, output.elements@) && output.end == input.end
    }

    fn run(self, input: StreamBody<Result<T, StreamError>>) -> (output: StreamBody<Result<T, StreamError>>) {
        let mut f = self.func;
        let StreamBody { elements, end, .. } = input;
        StreamBody { elements: ops::map_error_elements(elements, &mut f), end, ticks: Vec::new() }
    }
}

/// Keeps the successful payloads and drops the error payloads.
pub struct OkValuesStage;

impl<T, E> FlowStage<Result<T, E>, T> for OkValuesStage {
    open spec fn ready(&self) -> bool { true }

    open spec fn yields(&self, input: StreamBody<Result<T, E>>, output: StreamBody<T>) -> bool {
        output.elements@ == oks(input.elements@) && output.end == input.end
    }

    fn run(self, input: StreamBody<Result<T, E>>) -> (output: StreamBody<T>) {
        let StreamBody { elements, end, .. } = input;
        StreamBody { elements: ops::ok_values_elements(elements), end, ticks: Vec::new() }
    }
}

/// Emits the successful payloads before the first error payload; the stream completes there.
pub struct OkPrefixStage;

impl<T, E> FlowStage<Result<T, E>, T> for OkPrefixStage {
    open spec fn ready(&self) -> bool { true }

    open spec fn yields(&self, input: StreamBody<Result<T, E>>, output: StreamBody<T>) -> bool {
        &&& output.elements@.len() <= input.elements@.len()
        &&& forall|i: int| 0 <= i < output.elements@.len()
            ==> input.elements@[i] == Ok::<T, E>(#[trigger] output.elements@[i])
        &&& output.elements@.len() < input.elements@.len() ==> input.elements@[output.elements@.len() as int] is Err
            && output.end == StreamEnd::Completed
        &&& output.elements@.len() == input.elements@.len() ==> output.end == input.end
    }

    fn run(self, input: StreamBody<Result<T, E>>) -> (output: StreamBody<T>) {
        let StreamBody { elements, end, .. } = input;
        let n = elements.len();
        let out = ops::ok_prefix_elements(elements);
        if out.len() < n {
            StreamBody { elements: out, end: StreamEnd::Completed, ticks: Vec::new() }
        } else {
            StreamBody { elements: out, end, ticks: Vec::new() }
        }
    }
}

/// Replaces every error payload with a clone of `fallback`.
pub struct RecoverStage<T> {
    pub fallback: T,
}

impl<T: Clone> FlowStage<Result<T, StreamError>, T> for RecoverStage<T> {
    open spec fn ready(&self) -> bool { true }

    open spec fn yields(&self, input: StreamBody<Result<T, StreamError>>, output: StreamBody<T>) -> bool {
        recovered_with(input.elements@, self.fallback, output.elements@) && output.end == input.end
    }

    fn run(self, input: StreamBody<Result<T, StreamError>>) -> (output: StreamBody<T>) {
        let StreamBody { elements, end, .. } = input;
        StreamBody { elements: ops::recover_elements(elements, self.fallback), end, ticks: Vec::new() }
    }
}

/// Replaces error payloads with `fallback` while `max_retries` lasts; the next one fails the stream.
pub struct RecoverWithRetriesStage<T> {
    pub max_retries: usize,
    pub fallback: T,
}

impl<T: Clone> FlowStage<Result<T, StreamError>, T> for RecoverWithRetriesStage<T> {
    open spec fn ready(&self) -> bool { true }

    open spec fn yields(&self, input: StreamBody<Result<T, StreamError>>, output: StreamBody<T>) -> bool {
        let n = output.elements@.len();
        &&& n <= input.elements@.len()
        &&& recovered_with(input.elements@.take(n as int), self.fallback, output.elements@)
        &&& error_count(input.elements@.take(n as int)) <= self.max_retries
        &&& n < input.elements@.len() ==> input.elements@[n as int] is Err
            && error_count(input.elements@.take(n as int)) == self.max_retries
            && output.end == StreamEnd::Failed(StreamError::Failed)
        &&& n == input.elements@.len() ==> output.end == input.end
    }

    fn run(self, input: StreamBody<Result<T, StreamError>>) -> (output: StreamBody<T>) {
        ops::recover_with_retries_elements(input, self.max_retries, self.fallback)
    }
}

/// Cuts the stream into segments before (`!after`) or after (`after`) the elements `predicate`
/// accepts; a pending segment is emitted when the stream completes.
pub struct SplitStage<F> {
    pub predicate: F,
    pub after: bool,
}

impl<T, F: FnMut(&T) -> bool> FlowStage<T, Vec<T>> for SplitStage<F> {
    open spec fn ready(&self) -> bool { forall|a: &T| call_requires(self.predicate, (a,)) }

    open spec fn yields(&self, input: StreamBody<T>, output: StreamBody<Vec<T>>) -> bool {
        &&& exists|flags: Seq<bool>| #![auto] crate::body::judged_by(self.predicate, input.elements@, flags)
            && output.elements@.map_values(|w: Vec<T>| w@) == emitted_segments(
                if self.after { split_after_state(input.elements@, flags) }
                else { split_before_state(input.elements@, flags) },
                input.end == StreamEnd::Completed)
        &&& output.end == input.end
    }

    fn run(self, input: StreamBody<T>) -> (output: StreamBody<Vec<T>>) {
        let mut f = self.predicate;
        let StreamBody { elements, end, .. } = input;
        let closed = matches!(end, StreamEnd::Completed);
        StreamBody { elements: ops::split_elements(elements, &mut f, self.after, closed), end, ticks: Vec::new() }
    }
}

/// Routes elements by the key `key_fn` gives them; the stream fails when more than
/// `max_substreams` distinct keys would be open.
pub struct GroupByStage<F> {
    pub max_substreams: usize,
    pub key_fn: F,
}

impl<T, K: GroupKey, F: FnMut(&T) -> K> FlowStage<T, T> for GroupByStage<F> {
    open spec fn ready(&self) -> bool { forall|a: &T| call_requires(self.key_fn, (a,)) }

    open spec fn yields(&self, input: StreamBody<T>, output: StreamBody<T>) -> bool {
        exists|k: int| #![auto] admitted(self.key_fn, input.elements@, self.max_substreams as nat, k)
            && output.elements@ == input.elements@.take(k)
            && output.end == (if k < input.elements@.len() {
                StreamEnd::Failed(StreamError::SubstreamLimitExceeded { max_substreams: self.max_substreams })
            } else {
                input.end
            })
    }

    fn run(self, input: StreamBody<T>) -> (output: StreamBody<T>) {
        let mut f = self.key_fn;
        group_by_elements(input, self.max_substreams, &mut f)
    }
}

/// Passes every element on unchanged after showing it to `predicate`, which picks its output lane.
pub struct PartitionStage<F> {
    pub predicate: F,
}

impl<T, F: FnMut(&T) -> bool> FlowStage<T, T> for PartitionStage<F> {
    open spec fn ready(&self) -> bool { forall|a: &T| call_requires(self.predicate, (a,)) }

    open spec fn yields(&self, input: StreamBody<T>, output: StreamBody<T>) -> bool {
        output.elements@ == input.elements@ && output.end == input.end
    }

    fn run(self, input: StreamBody<T>) -> (output: StreamBody<T>) {
        let mut f = self.predicate;
        let ghost f0 = f;
        let mut i: usize = 0;
        while i < input.elements.len()
            invariant
                f == f0,
                forall|a: &T| call_requires(f0, (a,)),
                i <= input.elements.len(),
            decreases input.elements.len() - i,
        {
            let _lane = f(&input.elements[i]);
            i = i + 1;
        }
        input
    }
}

/// The inner sources that `f` built, in order, for the leading elements of `xs`: the stream moves
/// on to the next element only after an inner source completed.
pub open spec fn inner_sources_for<A, T, M, F: FnMut(A) -> Source<T, M>>(f: F, xs: Seq<A>, ss: Seq<Source<T, M>>) -> bool {
    &&& ss.len() <= xs.len()
    &&& mapped_by(f, xs.take(ss.len() as int), ss)
    &&& forall|i: int| 0 <= i < ss.len() - 1 ==> (#[trigger] ss[i]).body.end == StreamEnd::Completed
    &&& ss.len() < xs.len() ==> ss.len() > 0 && ss.last().body.end != StreamEnd::Completed
}

/// The elements of the inner sources, concatenated.
pub open spec fn inner_elements<T, M>(ss: Seq<Source<T, M>>) -> Seq<T> {
    flatten(ss.map_values(|s: Source<T, M>| s.body.elements@))
}

/// How a stream of inner sources ends: as the last one if it did not complete, else as the outer stream.
pub open spec fn inner_end<T, M>(ss: Seq<Source<T, M>>, outer: StreamEnd) -> StreamEnd {
    if ss.len() > 0 && ss.last().body.end != StreamEnd::Completed { ss.last().body.end } else { outer }
}

/// Maps every element to an inner source and emits the inner sources' elements one source after
/// the other; an inner source that does not complete ends the stream the same way.
pub struct FlatMapConcatStage<F> {
    pub func: F,
}

impl<A, T, M, F: FnMut(A) -> Source<T, M>> FlowStage<A, T> for FlatMapConcatStage<F> {
    open spec fn ready(&self) -> bool { forall|a: A| call_requires(self.func, (a,)) }

    open spec fn yields(&self, input: StreamBody<A>, output: StreamBody<T>) -> bool {
        exists|ss: Seq<Source<T, M>>| #[trigger] inner_sources_for(self.func, input.elements@, ss)
            && output.elements@ == inner_elements(ss)
            && output.end == inner_end(ss, input.end)
    }

    #[verifier::loop_isolation(false)]
    fn run(self, input: StreamBody<A>) -> (output: StreamBody<T>) {
        let mut f = self.func;
        let ghost f0 = f;
        let StreamBody { elements, end, .. } = input;
        let ghost xs = elements@;
        let ghost mut ss: Seq<Source<T, M>> = Seq::empty();
        let mut out: Vec<T> = Vec::new();
        for x in it: elements.into_iter()
            invariant
                f == f0,
                it.seq() == xs,
                ss.len() == it.index(),
                mapped_by(f0, xs.take(it.index() as int), ss),
                forall|i: int| 0 <= i < ss.len() ==> (#[trigger] ss[i]).body.end == StreamEnd::Completed,
                out@ == inner_elements(ss),
        {
            let ghost i = it.index();
            let s = f(x);
            let ghost ss0 = ss;
            proof {
                ss = ss.push(s);
                assert(xs.take(i + 1).drop_last() == xs.take(i as int));
                assert forall|j: int| 0 <= j < i + 1 implies call_ensures(f0, (xs.take(i + 1)[j],), #[trigger] ss[j]) by {
                    if j < i { assert(xs.take(i + 1)[j] == xs.take(i as int)[j]); }
                }
                assert(ss.map_values(|s: Source<T, M>| s.body.elements@).drop_last()
                    == ss0.map_values(|s: Source<T, M>| s.body.elements@));
            }
            let Source { graph: _, body, mat: _ } = s;
            let StreamBody { elements: inner, end: inner_end_value, .. } = body;
            let mut inner = inner;
            out.append(&mut inner);
            if !matches!(inner_end_value, StreamEnd::Completed) {
                proof {
                    assert(inner_sources_for(f0, xs, ss));
                }
                return StreamBody { elements: out, end: inner_end_value, ticks: Vec::new() };
            }
        }
        proof {
            assert(xs.take(xs.len() as int) == xs);
            assert(inner_sources_for(f0, xs, ss));
        }
        StreamBody { elements: out, end, ticks: Vec::new() }
    }
}

/// `ys` holds, for each element of `xs`, the first value of the expansion `f` gives it, when there is one.
pub open spec fn expanded_by<T, F: FnMut(&T) -> Vec<T>>(f: F, xs: Seq<T>, ys: Seq<T>) -> bool {
    exists|vs: Seq<Vec<T>>| #![auto] vs.len() == xs.len()
        && (forall|i: int| 0 <= i < xs.len() ==> call_ensures(f, (&xs[i],), vs[i]))
        && ys == somes(vs.map_values(|v: Vec<T>| if v@.len() > 0 { Some(v@[0]) } else { None }))
}

/// Emits, for every element, the first value of its expansion: with an upstream that is never
/// slower than the downstream, no element is extrapolated further.
pub struct ExpandStage<F> {
    pub expander: F,
}

impl<T, F: FnMut(&T) -> Vec<T>> FlowStage<T, T> for ExpandStage<F> {
    open spec fn ready(&self) -> bool { forall|a: &T| call_requires(self.expander, (a,)) }

    open spec fn yields(&self, input: StreamBody<T>, output: StreamBody<T>) -> bool {
        expanded_by(self.expander, input.elements@, output.elements@) && output.end == input.end
    }

    fn run(self, input: StreamBody<T>) -> (output: StreamBody<T>) {
        let mut f = self.expander;
        let ghost f0 = f;
        let StreamBody { elements, end, .. } = input;
        let ghost xs = elements@;
        let ghost mut vs: Seq<Vec<T>> = Seq::empty();
        let mut out: Vec<T> = Vec::new();
        for x in it: elements.into_iter()
            invariant
                f == f0,
                forall|a: &T| call_requires(f0, (a,)),
                it.seq() == xs,
                vs.len() == it.index(),
                forall|i: int| 0 <= i < vs.len() ==> call_ensures(f0, (&xs[i],), #[trigger] vs[i]),
                out@ == somes(vs.map_values(|v: Vec<T>| if v@.len() > 0 { Some(v@[0]) } else { None })),
        {
            let v = f(&x);
            let ghost v0 = v;
            let ghost vs0 = vs;
            proof {
                vs = vs.push(v0);
                let m = vs.map_values(|v: Vec<T>| if v@.len() > 0 { Some(v@[0]) } else { None });
                assert(m.drop_last() == vs0.map_values(|v: Vec<T>| if v@.len() > 0 { Some(v@[0]) } else { None }));
            }
            let mut v = v;
            if v.len() > 0 {
                let first = v.remove(0);
                out.push(first);
            }
        }
        StreamBody { elements: out, end, ticks: Vec::new() }
    }
}

/// Shows every element to `callback` and passes it on unchanged.
pub struct WireTapStage<F> {
    pub callback: F,
    pub first_only: bool,
}

impl<T, F: FnMut(&T)> FlowStage<T, T> for WireTapStage<F> {
    open spec fn ready(&self) -> bool { forall|a: &T| call_requires(self.callback, (a,)) }

    open spec fn yields(&self, input: StreamBody<T>, output: StreamBody<T>) -> bool {
        output.elements@ == input.elements@ && output.end == input.end
    }

    fn run(self, input: StreamBody<T>) -> (output: StreamBody<T>) {
        let mut f = self.callback;
        let ghost f0 = f;
        let n = if self.first_only && input.elements.len() > 0 { 1 } else { input.elements.len() };
        let mut i: usize = 0;
        while i < n
            invariant
                f == f0,
                forall|a: &T| call_requires(f0, (a,)),
                n <= input.elements.len(),
                i <= n,
            decreases n - i,
        {
            f(&input.elements[i]);
            i = i + 1;
        }
        input
    }
}

/// Swaps the components of every pair.
pub struct SwapStage;

impl<A, B> FlowStage<(A, B), (B, A)> for SwapStage {
    open spec fn ready(&self) -> bool { true }

    open spec fn yields(&self, input: StreamBody<(A, B)>, output: StreamBody<(B, A)>) -> bool {
        &&& output.elements@.len() == input.elements@.len()
        &&& forall|i: int| 0 <= i < input.elements@.len()
            ==> #[trigger] output.elements@[i] == (input.elements@[i].1, input.elements@[i].0)
        &&& output.end == input.end
    }

    fn run(self, input: StreamBody<(A, B)>) -> (output: StreamBody<(B, A)>) {
        let StreamBody { elements, end, .. } = input;
        let ghost xs = elements@;
        let mut out: Vec<(B, A)> = Vec::new();
        for p in it: elements.into_iter()
            invariant
                it.seq() == xs,
                out.len() == it.index(),
                forall|i: int| 0 <= i < out.len() ==> #[trigger] out@[i] == (xs[i].1, xs[i].0),
        {
            let (a, b) = p;
            out.push((b, a));
        }
        StreamBody { elements: out, end, ticks: Vec::new() }
    }
}

/// Keeps the elements that have not occurred before in the stream.
pub struct DistinctStage;

impl<T: GroupKey> FlowStage<T, T> for DistinctStage {
    open spec fn ready(&self) -> bool { true }

    open spec fn yields(&self, input: StreamBody<T>, output: StreamBody<T>) -> bool {
        output.elements@ == select(input.elements@, first_seen(input.elements@)) && output.end == input.end
    }

    fn run(self, input: StreamBody<T>) -> (output: StreamBody<T>) {
        let StreamBody { elements, end, .. } = input;
        StreamBody { elements: distinct_elements(elements), end, ticks: Vec::new() }
    }
}

/// Keeps the elements whose key, given by `key_fn`, has not occurred before in the stream.
pub struct DistinctByStage<F> {
    pub key_fn: F,
}

impl<T, K: GroupKey, F: FnMut(&T) -> K> FlowStage<T, T> for DistinctByStage<F> {
    open spec fn ready(&self) -> bool { forall|a: &T| call_requires(self.key_fn, (a,)) }

    open spec fn yields(&self, input: StreamBody<T>, output: StreamBody<T>) -> bool {
        &&& exists|ks: Seq<K>| #[trigger] keyed_by(self.key_fn, input.elements@, ks)
            && output.elements@ == select(input.elements@, first_seen(ks))
        &&& output.end == input.end
    }

    fn run(self, input: StreamBody<T>) -> (output: StreamBody<T>) {
        let mut f = self.key_fn;
        let StreamBody { elements, end, .. } = input;
        StreamBody { elements: distinct_by_elements(elements, &mut f), end, ticks: Vec::new() }
    }
}

/// Drops each element equal to the one just before it.
pub struct DropRepeatedStage;

impl<T: GroupKey> FlowStage<T, T> for DropRepeatedStage {
    open spec fn ready(&self) -> bool { true }

    open spec fn yields(&self, input: StreamBody<T>, output: StreamBody<T>) -> bool {
        output.elements@ == select(input.elements@, changed(input.elements@)) && output.end == input.end
    }

    fn run(self, input: StreamBody<T>) -> (output: StreamBody<T>) {
        let StreamBody { elements, end, .. } = input;
        StreamBody { elements: drop_repeated_elements(elements), end, ticks: Vec::new() }
    }
}

/// `ys` and the resources `rs` are what threading the resource through `mapper` over `xs` gives,
/// starting from `rs[0]`.
pub open spec fn resource_trace<R, A, B, FM: FnMut(R, A) -> (R, B)>(mapper: FM, xs: Seq<A>, rs: Seq<R>, ys: Seq<B>) -> bool {
    &&& rs.len() == xs.len() + 1
    &&& ys.len() == xs.len()
    &&& forall|i: int| 0 <= i < xs.len() ==> call_ensures(mapper, (rs[i], xs[i]), (#[trigger] rs[i + 1], ys[i]))
}

/// Creates a resource with `factory` when the stream starts and maps every element with
/// `mapper`, which hands the resource on to the next element.
pub struct ResourceMapStage<FR, FM> {
    pub factory: FR,
    pub mapper: FM,
}

impl<R, A, B, FR: FnOnce() -> R, FM: FnMut(R, A) -> (R, B)> FlowStage<A, B> for ResourceMapStage<FR, FM> {
    open spec fn ready(&self) -> bool {
        &&& call_requires(self.factory, ())
        &&& forall|r: R, a: A| call_requires(self.mapper, (r, a))
    }

    open spec fn yields(&self, input: StreamBody<A>, output: StreamBody<B>) -> bool {
        &&& exists|rs: Seq<R>| #[trigger] resource_trace(self.mapper, input.elements@, rs, output.elements@)
            && call_ensures(self.factory, (), rs[0])
        &&& output.end == input.end
    }

    fn run(self, input: StreamBody<A>) -> (output: StreamBody<B>) {
        let ResourceMapStage { factory, mut mapper } = self;
        let ghost m0 = mapper;
        let mut resource = factory();
        let StreamBody { elements, end, .. } = input;
        let ghost xs = elements@;
        let ghost mut rs: Seq<R> = seq![resource];
        let mut out: Vec<B> = Vec::new();
        for x in it: elements.into_iter()
            invariant
                mapper == m0,
                forall|r: R, a: A| call_requires(m0, (r, a)),
                it.seq() == xs,
                resource_trace(m0, xs.take(it.index() as int), rs, out@),
                rs.last() == resource,
                call_ensures(factory, (), rs[0]),
        {
            let ghost i = it.index();
            let (next, y) = mapper(resource, x);
            proof {
                let ghost rs0 = rs;
                rs = rs.push(next);
                assert(xs.take(i + 1).drop_last() == xs.take(i as int));
                assert(xs.take(i + 1)[i as int] == x);
                assert forall|j: int| 0 <= j < i + 1 implies call_ensures(m0, (rs[j], xs.take(i + 1)[j]), (#[trigger] rs[j + 1], out@.push(y)[j])) by {
                    if j < i {
                        assert(xs.take(i + 1)[j] == xs.take(i as int)[j]);
                        assert(rs[j] == rs0[j]);
                        assert(rs[j + 1] == rs0[j + 1]);
                    }
                }
            }
            resource = next;
            out.push(y);
        }
        proof {
            assert(xs.take(xs.len() as int) == xs);
        }
        let output = StreamBody { elements: out, end, ticks: Vec::new() };
        proof {
            assert(resource_trace(self.mapper, input.elements@, rs, output.elements@));
        }
        output
    }
}

/// What converting `a` gives: the converted value, or nothing when the conversion fails.
pub open spec fn converted<A: TryInto<B>, B>(a: A) -> Option<B> {
    match <A as vstd::std_specs::convert::TryIntoSpec<B>>::try_into_spec(a) {
        Ok(b) => Some(b),
        Err(_) => None,
    }
}

/// Keeps the elements that convert into the output type, converted.
pub struct CollectTypeStage;

impl<A: TryInto<B>, B> FlowStage<A, B> for CollectTypeStage {
    open spec fn ready(&self) -> bool { true }

    /// For conversions that follow their specification, the output holds the successful
    /// conversions in order; in any case no more elements than the input.
    open spec fn yields(&self, input: StreamBody<A>, output: StreamBody<B>) -> bool {
        &&& <A as vstd::std_specs::convert::TryIntoSpec<B>>::obeys_try_into_spec()
            ==> output.elements@ == somes(input.elements@.map_values(|a: A| converted::<A, B>(a)))
        &&& output.elements@.len() <= input.elements@.len()
        &&& output.end == input.end
    }

    fn run(self, input: StreamBody<A>) -> (output: StreamBody<B>) {
        let StreamBody { elements, end, .. } = input;
        let ghost xs = elements@;
        let mut out: Vec<B> = Vec::new();
        for x in it: elements.into_iter()
            invariant
                it.seq() == xs,
                out@.len() <= it.index(),
                <A as vstd::std_specs::convert::TryIntoSpec<B>>::obeys_try_into_spec()
                    ==> out@ == somes(xs.take(it.index() as int).map_values(|a: A| converted::<A, B>(a))),
        {
            let ghost i = it.index();
            let ghost before = out@;
            let converted_value = x.try_into();
            match converted_value {
                Ok(b) => out.push(b),
                Err(_) => {},
            }
            proof {
                let prefix = xs.take(i + 1);
                let mapped = prefix.map_values(|a: A| converted::<A, B>(a));
                assert(prefix.drop_last() == xs.take(i as int));
                assert(mapped.drop_last() == xs.take(i as int).map_values(|a: A| converted::<A, B>(a)));
                assert(mapped.last() == converted::<A, B>(x));
            }
        }
        proof { assert(xs.take(xs.len() as int) == xs); }
        StreamBody { elements: out, end, ticks: Vec::new() }
    }
}

} // verus!
