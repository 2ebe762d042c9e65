//! Sinks: the consuming end of a stream, and what they settle their materialized value to.
use vstd::prelude::*;
use crate::body::StreamBody;
use crate::body::StreamEnd;
use crate::error::{StreamError, StreamDslError, spec_zero_argument, validate_positive_argument};
use crate::graph::{StreamGraph, kinds_of};
use crate::mat::{MatCombine, StreamCompletion, StreamDone, StreamNotUsed};
use crate::ops::{scan_trace, first_accepted};
use crate::body::accepted_prefix;
use crate::stage_kind::{StageKind, StageRole};

verus! {

/// What a sink does with a whole stream: it settles its materialized value.
pub trait SinkStage<In, Mat>: Sized {
    /// Whether the sink can consume any stream (its closures accept every input).
    spec fn ready(&self) -> bool;

    /// Whether `after` is a possible materialized value once the sink consumed `input`, starting from `before`.
    spec fn settles(&self, input: StreamBody<In>, before: Mat, after: Mat) -> bool;

    /// Consumes the stream and settles the materialized value.
    fn settle(self, input: StreamBody<In>, mat: Mat) -> (after: Mat)
        requires self.ready(),
        ensures self.settles(input, mat, after);
}

/// The outcome a completion records when a stream ends with `end` and the sink's value is `value`:
/// the value on completion, the failure on failure, and nothing while the stream stalls.
pub open spec fn outcome_of<T>(end: StreamEnd, value: T) -> Option<Result<T, StreamError>> {
    match end {
        StreamEnd::Completed => Some(Ok(value)),
        StreamEnd::Failed(e) => Some(Err(e)),
        StreamEnd::Stalled => None,
    }
}

/// `after` is `before` with `outcome` recorded, unless `before` already held a result.
pub open spec fn settled_with<T>(before: StreamCompletion<T>, after: StreamCompletion<T>, outcome: Option<Result<T, StreamError>>) -> bool {
    match outcome {
        None => after.spec_result() == before.spec_result(),
        Some(res) => after.spec_result() == (if before.spec_result() is Some { before.spec_result() } else { Some(res) }),
    }
}

/// Records `outcome` in `c`, keeping a result that is already there.
pub fn settle_completion<T>(c: StreamCompletion<T>, outcome: Option<Result<T, StreamError>>) -> (r: StreamCompletion<T>)
    ensures settled_with(c, r, outcome),
{
    let mut c = c;
    match outcome {
        Some(res) => { c.complete(res); },
        None => {},
    }
    c
}

/// The outcome for a stream that ended with `end`, given the value the sink computed.
pub fn outcome<T>(end: StreamEnd, value: T) -> (r: Option<Result<T, StreamError>>)
    ensures r == outcome_of(end, value),
{
    match end {
        StreamEnd::Completed => Some(Ok(value)),
        StreamEnd::Failed(e) => Some(Err(e)),
        StreamEnd::Stalled => None,
    }
}

/// Sink stage definition: a blueprint graph, the consuming logic, and the materialized value.
pub struct Sink<In, Mat, L = IgnoreSink> {
    pub graph: StreamGraph,
    pub logic: L,
    pub mat: Mat,
    pub _pd: core::marker::PhantomData<In>,
}

/// A graph with a single sink stage of `kind`.
pub fn sink_graph(kind: StageKind) -> (r: StreamGraph)
    ensures kinds_of(r.nodes@) == seq![kind],
{
    let mut g = StreamGraph::new();
    let _ = g.push_stage(StageRole::Sink, kind, MatCombine::KeepRight);
    proof { assert(kinds_of(g.nodes@) =~= seq![kind]); }
    g
}

/// Whether `s` is a fresh sink of `kind` with logic `logic` and materialized value `mat`.
pub open spec fn fresh_sink<In, Mat, L>(s: Sink<In, Mat, L>, kind: StageKind, logic: L, mat: Mat) -> bool {
    &&& kinds_of(s.graph.nodes@) == seq![kind]
    &&& s.logic == logic
    &&& s.mat == mat
}

/// Whether `s` is a fresh sink of `kind` with logic `logic` whose completion holds no result yet.
pub open spec fn pending_sink<In, T, L>(s: Sink<In, StreamCompletion<T>, L>, kind: StageKind, logic: L) -> bool {
    &&& kinds_of(s.graph.nodes@) == seq![kind]
    &&& s.logic == logic
    &&& s.mat.spec_result() is None
}

impl<In, Mat, L> Sink<In, Mat, L> {
    /// Creates a sink of `kind` from its logic and materialized value.
    pub fn from_definition(kind: StageKind, logic: L, mat: Mat) -> (r: Self)
        ensures fresh_sink(r, kind, logic, mat),
    {
        Sink { graph: sink_graph(kind), logic, mat, _pd: core::marker::PhantomData }
    }

    /// Creates a sink from an existing blueprint, logic and materialized value.
    pub fn from_graph(graph: StreamGraph, logic: L, mat: Mat) -> (r: Self)
        ensures r.graph == graph, r.logic == logic, r.mat == mat,
    {
        Sink { graph, logic, mat, _pd: core::marker::PhantomData }
    }

    /// The blueprint and the materialized value.
    pub fn into_parts(self) -> (r: (StreamGraph, Mat))
        ensures r.0 == self.graph, r.1 == self.mat,
    {
        (self.graph, self.mat)
    }

    /// Restarts the sink with backoff after failures; its behaviour is otherwise unchanged.
    pub fn restart_sink_with_backoff(self, min_backoff_ticks: u32, max_restarts: usize) -> (r: Self)
        ensures r == self,
    {
        self
    }

    /// Sets the stop supervision strategy; the behaviour is unchanged.
    pub fn supervision_stop(self) -> (r: Self)
        ensures r == self,
    {
        self
    }

    /// Sets the resume supervision strategy; the behaviour is unchanged.
    pub fn supervision_resume(self) -> (r: Self)
        ensures r == self,
    {
        self
    }

    /// Sets the restart supervision strategy; the behaviour is unchanged.
    pub fn supervision_restart(self) -> (r: Self)
        ensures r == self,
    {
        self
    }

    /// Gives the sink a name; the behaviour is unchanged.
    pub fn named(self, name: &str) -> (r: Self)
        ensures r == self,
    {
        self
    }

    /// Replaces the materialized value with `func` applied to it. The new value no longer receives
    /// the sink's result: the sink still consumes the stream.
    pub fn map_materialized_value<Mat2, F: FnOnce(Mat) -> Mat2>(self, func: F) -> (r: Sink<In, Mat2, Detached<L, Mat>>)
        requires call_requires(func, (self.mat,)),
        ensures
            call_ensures(func, (self.mat,), r.mat),
            r.graph == self.graph,
            r.logic.inner == self.logic,
    {
        let Sink { graph, logic, mat, _pd } = self;
        let mapped = func(mat);
        Sink { graph, logic: Detached { inner: logic, _mat: core::marker::PhantomData }, mat: mapped, _pd: core::marker::PhantomData }
    }
}

impl<In, T, L> Sink<In, StreamCompletion<T>, L> {
    /// Splits off the completion handle; the sink keeps a pending one.
    pub fn pre_materialize(self) -> (r: (Sink<In, StreamCompletion<T>, L>, StreamCompletion<T>))
        ensures r.1 == self.mat, r.0.mat.spec_result() is None, r.0.graph == self.graph, r.0.logic == self.logic,
    {
        let Sink { graph, logic, mat, _pd } = self;
        (Sink { graph, logic, mat: StreamCompletion::new(), _pd }, mat)
    }
}

/// A sink whose materialized value was replaced: it consumes the stream with the inner logic and
/// leaves the new value as it is.
pub struct Detached<L, M> {
    pub inner: L,
    pub _mat: core::marker::PhantomData<M>,
}

impl<In, M, Mat, L: SinkStage<In, M>> SinkStage<In, Mat> for Detached<L, M> {
    open spec fn ready(&self) -> bool { true }

    open spec fn settles(&self, input: StreamBody<In>, before: Mat, after: Mat) -> bool {
        after == before
    }

    fn settle(self, input: StreamBody<In>, mat: Mat) -> (after: Mat) {
        mat
    }
}

/// Consumes every element and records completion.
pub struct IgnoreSink;

impl<In> SinkStage<In, StreamCompletion<StreamDone>> for IgnoreSink {
    open spec fn ready(&self) -> bool { true }

    open spec fn settles(&self, input: StreamBody<In>, before: StreamCompletion<StreamDone>, after: StreamCompletion<StreamDone>) -> bool {
        settled_with(before, after, outcome_of(input.end, StreamDone {}))
    }

    fn settle(self, input: StreamBody<In>, mat: StreamCompletion<StreamDone>) -> (after: StreamCompletion<StreamDone>) {
        settle_completion(mat, outcome(input.end, StreamDone::new()))
    }
}

impl<In> Sink<In, StreamCompletion<StreamDone>, IgnoreSink> {
    /// A sink that consumes every element and completes with `StreamDone`.
    pub fn ignore() -> (r: Self)
        ensures pending_sink(r, StageKind::SinkIgnore, IgnoreSink),
    {
        Self::from_definition(StageKind::SinkIgnore, IgnoreSink, StreamCompletion::new())
    }

    /// Alias of [`Sink::ignore`].
    pub fn completion_stage_sink() -> (r: Self)
        ensures pending_sink(r, StageKind::SinkIgnore, IgnoreSink),
    {
        Self::ignore()
    }

    /// Alias of [`Sink::ignore`].
    pub fn from_materializer() -> (r: Self)
        ensures pending_sink(r, StageKind::SinkIgnore, IgnoreSink),
    {
        Self::ignore()
    }

    /// Alias of [`Sink::ignore`].
    pub fn from_subscriber() -> (r: Self)
        ensures pending_sink(r, StageKind::SinkIgnore, IgnoreSink),
    {
        Self::ignore()
    }

    /// Alias of [`Sink::ignore`].
    pub fn future_sink() -> (r: Self)
        ensures pending_sink(r, StageKind::SinkIgnore, IgnoreSink),
    {
        Self::ignore()
    }
}

/// Calls `func` on every element and records completion.
pub struct ForeachSink<F> {
    pub func: F,
}

impl<In, F: FnMut(In)> SinkStage<In, StreamCompletion<StreamDone>> for ForeachSink<F> {
    open spec fn ready(&self) -> bool { forall|a: In| call_requires(self.func, (a,)) }

    open spec fn settles(&self, input: StreamBody<In>, before: StreamCompletion<StreamDone>, after: StreamCompletion<StreamDone>) -> bool {
        settled_with(before, after, outcome_of(input.end, StreamDone {}))
    }

    fn settle(self, input: StreamBody<In>, mat: StreamCompletion<StreamDone>) -> (after: StreamCompletion<StreamDone>) {
        let mut f = self.func;
        let ghost f0 = f;
        let StreamBody { elements, end, .. } = input;
        for x in it: elements.into_iter()
            invariant
                f == f0,
                forall|a: In| call_requires(f0, (a,)),
        {
            f(x);
        }
        settle_completion(mat, outcome(end, StreamDone::new()))
    }
}

impl<In, F: FnMut(In)> Sink<In, StreamCompletion<StreamDone>, ForeachSink<F>> {
    /// A sink that calls `func` on every element and completes with `StreamDone`.
    pub fn foreach(func: F) -> (r: Self)
        ensures pending_sink(r, StageKind::SinkForeach, ForeachSink { func }),
    {
        Self::from_definition(StageKind::SinkForeach, ForeachSink { func }, StreamCompletion::new())
    }
}

/// Completes with `StreamDone` as soon as an element arrives or the stream completes.
pub struct CancelledSink;

impl<In> SinkStage<In, StreamCompletion<StreamDone>> for CancelledSink {
    open spec fn ready(&self) -> bool { true }

    open spec fn settles(&self, input: StreamBody<In>, before: StreamCompletion<StreamDone>, after: StreamCompletion<StreamDone>) -> bool {
        settled_with(before, after,
            if input.elements@.len() > 0 { Some(Ok(StreamDone {})) } else { outcome_of(input.end, StreamDone {}) })
    }

    fn settle(self, input: StreamBody<In>, mat: StreamCompletion<StreamDone>) -> (after: StreamCompletion<StreamDone>) {
        if input.elements.len() > 0 {
            settle_completion(mat, Some(Ok(StreamDone::new())))
        } else {
            settle_completion(mat, outcome(input.end, StreamDone::new()))
        }
    }
}

impl<In> Sink<In, StreamCompletion<StreamDone>, CancelledSink> {
    /// A sink that cancels the stream at once and completes with `StreamDone`.
    pub fn cancelled() -> (r: Self)
        ensures pending_sink(r, StageKind::Custom, CancelledSink),
    {
        Self::from_definition(StageKind::Custom, CancelledSink, StreamCompletion::new())
    }

    /// Alias of [`Sink::cancelled`].
    pub fn none() -> (r: Self)
        ensures pending_sink(r, StageKind::Custom, CancelledSink),
    {
        Self::cancelled()
    }
}

/// Consumes every element and hands the stream's result to `callback` when it ends.
pub struct OnCompleteSink<F> {
    pub callback: F,
}

impl<In, F: FnMut(Result<StreamDone, StreamError>)> SinkStage<In, StreamCompletion<StreamDone>> for OnCompleteSink<F> {
    open spec fn ready(&self) -> bool { forall|r: Result<StreamDone, StreamError>| call_requires(self.callback, (r,)) }

    open spec fn settles(&self, input: StreamBody<In>, before: StreamCompletion<StreamDone>, after: StreamCompletion<StreamDone>) -> bool {
        settled_with(before, after, outcome_of(input.end, StreamDone {}))
    }

    fn settle(self, input: StreamBody<In>, mat: StreamCompletion<StreamDone>) -> (after: StreamCompletion<StreamDone>) {
        let mut callback = self.callback;
        let o = outcome(input.end, StreamDone::new());
        match o {
            Some(res) => {
                callback(res);
                settle_completion(mat, Some(res))
            },
            None => mat,
        }
    }
}

impl<In, F: FnMut(Result<StreamDone, StreamError>)> Sink<In, StreamCompletion<StreamDone>, OnCompleteSink<F>> {
    /// A sink that consumes every element and calls `callback` with the stream's result.
    pub fn on_complete(callback: F) -> (r: Self)
        ensures pending_sink(r, StageKind::Custom, OnCompleteSink { callback }),
    {
        Self::from_definition(StageKind::Custom, OnCompleteSink { callback }, StreamCompletion::new())
    }
}

/// Collects every element.
pub struct CollectSink;

impl<In> SinkStage<In, StreamCompletion<Vec<In>>> for CollectSink {
    open spec fn ready(&self) -> bool { true }

    open spec fn settles(&self, input: StreamBody<In>, before: StreamCompletion<Vec<In>>, after: StreamCompletion<Vec<In>>) -> bool {
        settled_with(before, after, outcome_of(input.end, input.elements))
    }

    fn settle(self, input: StreamBody<In>, mat: StreamCompletion<Vec<In>>) -> (after: StreamCompletion<Vec<In>>) {
        let StreamBody { elements, end, .. } = input;
        settle_completion(mat, outcome(end, elements))
    }
}

impl<In> Sink<In, StreamCompletion<Vec<In>>, CollectSink> {
    /// A sink that collects every element into a vector.
    pub fn collect() -> (r: Self)
        ensures pending_sink(r, StageKind::SinkFold, CollectSink),
    {
        Self::from_definition(StageKind::SinkFold, CollectSink, StreamCompletion::new())
    }

    /// Alias of [`Sink::collect`].
    pub fn collection() -> (r: Self)
        ensures pending_sink(r, StageKind::SinkFold, CollectSink),
    {
        Self::collect()
    }

    /// Alias of [`Sink::collect`].
    pub fn seq() -> (r: Self)
        ensures pending_sink(r, StageKind::SinkFold, CollectSink),
    {
        Self::collect()
    }

    /// Alias of [`Sink::collect`].
    pub fn java_collector() -> (r: Self)
        ensures pending_sink(r, StageKind::SinkFold, CollectSink),
    {
        Self::collect()
    }

    /// Alias of [`Sink::collect`].
    pub fn java_collector_parallel_unordered() -> (r: Self)
        ensures pending_sink(r, StageKind::SinkFold, CollectSink),
    {
        Self::collect()
    }
}

impl Sink<u8, StreamCompletion<Vec<u8>>, CollectSink> {
    /// A sink that collects the bytes written to `path`.
    pub fn to_path(path: &str) -> (r: Self)
        ensures pending_sink(r, StageKind::SinkFold, CollectSink),
    {
        Self::collect()
    }
}

/// Keeps the last `limit` elements.
pub struct TakeLastSink {
    pub limit: usize,
}

impl<In> SinkStage<In, StreamCompletion<Vec<In>>> for TakeLastSink {
    open spec fn ready(&self) -> bool { true }

    open spec fn settles(&self, input: StreamBody<In>, before: StreamCompletion<Vec<In>>, after: StreamCompletion<Vec<In>>) -> bool {
        exists|kept: Vec<In>| #![auto] settled_with(before, after, outcome_of(input.end, kept))
            && kept@ == (if self.limit >= input.elements@.len() { input.elements@ }
                else { input.elements@.skip(input.elements@.len() - self.limit) })
    }

    fn settle(self, input: StreamBody<In>, mat: StreamCompletion<Vec<In>>) -> (after: StreamCompletion<Vec<In>>) {
        let StreamBody { elements, end, .. } = input;
        let kept = crate::ops::take_last_elements(elements, self.limit);
        let r = settle_completion(mat, outcome(end, kept));
        r
    }
}

impl<In> Sink<In, StreamCompletion<Vec<In>>, TakeLastSink> {
    /// A sink that keeps the last `limit` elements.
    pub fn take_last(limit: usize) -> (r: Self)
        ensures pending_sink(r, StageKind::Custom, TakeLastSink { limit }),
    {
        Self::from_definition(StageKind::Custom, TakeLastSink { limit }, StreamCompletion::new())
    }
}

/// Counts the elements.
pub struct CountSink;

impl<In> SinkStage<In, StreamCompletion<usize>> for CountSink {
    open spec fn ready(&self) -> bool { true }

    open spec fn settles(&self, input: StreamBody<In>, before: StreamCompletion<usize>, after: StreamCompletion<usize>) -> bool {
        settled_with(before, after, outcome_of(input.end, input.elements@.len() as usize))
    }

    fn settle(self, input: StreamBody<In>, mat: StreamCompletion<usize>) -> (after: StreamCompletion<usize>) {
        let n = input.elements.len();
        settle_completion(mat, outcome(input.end, n))
    }
}

impl<In> Sink<In, StreamCompletion<usize>, CountSink> {
    /// A sink that counts the elements.
    pub fn count() -> (r: Self)
        ensures pending_sink(r, StageKind::SinkFold, CountSink),
    {
        Self::from_definition(StageKind::SinkFold, CountSink, StreamCompletion::new())
    }
}

/// Whether some element is accepted by `predicate` (`any`), or every element is (`!any`); the
/// predicate is not asked again once the answer is known.
pub struct QuantifierSink<F> {
    pub predicate: F,
    pub any: bool,
}

impl<In, F: FnMut(&In) -> bool> SinkStage<In, StreamCompletion<bool>> for QuantifierSink<F> {
    open spec fn ready(&self) -> bool { forall|a: &In| call_requires(self.predicate, (a,)) }

    open spec fn settles(&self, input: StreamBody<In>, before: StreamCompletion<bool>, after: StreamCompletion<bool>) -> bool {
        &&& self.any ==> exists|k: int| #![auto] first_accepted(self.predicate, input.elements@, k)
            && settled_with(before, after, outcome_of(input.end, k < input.elements@.len()))
        &&& !self.any ==> exists|k: int| #![auto] accepted_prefix(self.predicate, input.elements@, k)
            && settled_with(before, after, outcome_of(input.end, k == input.elements@.len()))
    }

    #[verifier::loop_isolation(false)]
    fn settle(self, input: StreamBody<In>, mat: StreamCompletion<bool>) -> (after: StreamCompletion<bool>) {
        let mut f = self.predicate;
        let ghost f0 = f;
        let ghost xs = input.elements@;
        let mut k: usize = 0;
        let mut answer = !self.any;
        while k < input.elements.len()
            invariant
                f == f0,
                k <= xs.len(),
                answer == !self.any,
                self.any ==> forall|i: int| 0 <= i < k ==> call_ensures(f0, (&xs[i],), false),
                !self.any ==> forall|i: int| 0 <= i < k ==> call_ensures(f0, (&xs[i],), true),
            decreases xs.len() - k,
        {
            let b = f(&input.elements[k]);
            if b == self.any {
                answer = self.any;
                break;
            }
            k = k + 1;
        }
        proof {
            if self.any {
                assert(first_accepted(f0, xs, k as int));
            } else {
                assert(accepted_prefix(f0, xs, k as int));
            }
        }
        settle_completion(mat, outcome(input.end, answer))
    }
}

impl<In, F: FnMut(&In) -> bool> Sink<In, StreamCompletion<bool>, QuantifierSink<F>> {
    /// A sink that tells whether some element is accepted by `predicate`.
    pub fn exists_element(predicate: F) -> (r: Self)
        ensures pending_sink(r, StageKind::SinkFold, QuantifierSink { predicate, any: true }),
    {
        Self::from_definition(StageKind::SinkFold, QuantifierSink { predicate, any: true }, StreamCompletion::new())
    }

    /// A sink that tells whether every element is accepted by `predicate`.
    pub fn forall_elements(predicate: F) -> (r: Self)
        ensures pending_sink(r, StageKind::SinkFold, QuantifierSink { predicate, any: false }),
    {
        Self::from_definition(StageKind::SinkFold, QuantifierSink { predicate, any: false }, StreamCompletion::new())
    }
}

/// What an empty stream that ended with `end` settles a first- or last-element sink with: a
/// completed stream fails it, a failed one passes its error on, a stalled one leaves it pending.
pub open spec fn empty_outcome<T>(end: StreamEnd) -> Option<Result<T, StreamError>> {
    match end {
        StreamEnd::Completed => Some(Err(StreamError::Failed)),
        StreamEnd::Failed(e) => Some(Err(e)),
        StreamEnd::Stalled => None,
    }
}

fn empty_settlement<T>(end: StreamEnd) -> (r: Option<Result<T, StreamError>>)
    ensures r == empty_outcome::<T>(end),
{
    match end {
        StreamEnd::Completed => Some(Err(StreamError::Failed)),
        StreamEnd::Failed(e) => Some(Err(e)),
        StreamEnd::Stalled => None,
    }
}

/// The first element; an empty stream fails the sink.
pub struct HeadSink;

impl<In> SinkStage<In, StreamCompletion<In>> for HeadSink {
    open spec fn ready(&self) -> bool { true }

    open spec fn settles(&self, input: StreamBody<In>, before: StreamCompletion<In>, after: StreamCompletion<In>) -> bool {
        settled_with(before, after, if input.elements@.len() > 0 {
            Some(Ok(input.elements@[0]))
        } else {
            empty_outcome(input.end)
        })
    }

    fn settle(self, input: StreamBody<In>, mat: StreamCompletion<In>) -> (after: StreamCompletion<In>) {
        let StreamBody { elements, end, .. } = input;
        let mut elements = elements;
        if elements.len() > 0 {
            let first = elements.remove(0);
            settle_completion(mat, Some(Ok(first)))
        } else {
            settle_completion(mat, empty_settlement(end))
        }
    }
}

/// The first element, or `None` for an empty stream.
pub struct HeadOptionSink;

impl<In> SinkStage<In, StreamCompletion<Option<In>>> for HeadOptionSink {
    open spec fn ready(&self) -> bool { true }

    open spec fn settles(&self, input: StreamBody<In>, before: StreamCompletion<Option<In>>, after: StreamCompletion<Option<In>>) -> bool {
        settled_with(before, after, if input.elements@.len() > 0 {
            Some(Ok(Some(input.elements@[0])))
        } else {
            outcome_of(input.end, None)
        })
    }

    fn settle(self, input: StreamBody<In>, mat: StreamCompletion<Option<In>>) -> (after: StreamCompletion<Option<In>>) {
        let StreamBody { elements, end, .. } = input;
        let mut elements = elements;
        if elements.len() > 0 {
            let first = elements.remove(0);
            settle_completion(mat, Some(Ok(Some(first))))
        } else {
            settle_completion(mat, outcome(end, None))
        }
    }
}

impl<In> Sink<In, StreamCompletion<Option<In>>, HeadOptionSink> {
    /// A sink that takes the first element, if any.
    pub fn head_option() -> (r: Self)
        ensures pending_sink(r, StageKind::Custom, HeadOptionSink),
    {
        Self::from_definition(StageKind::Custom, HeadOptionSink, StreamCompletion::new())
    }
}

impl<In> Sink<In, StreamCompletion<In>, HeadSink> {
    /// A sink that completes with the first element; an empty stream fails it.
    pub fn head() -> (r: Self)
        ensures pending_sink(r, StageKind::SinkHead, HeadSink),
    {
        Self::from_definition(StageKind::SinkHead, HeadSink, StreamCompletion::new())
    }
}

/// The last element; an empty stream fails the sink.
pub struct LastSink;

impl<In> SinkStage<In, StreamCompletion<In>> for LastSink {
    open spec fn ready(&self) -> bool { true }

    open spec fn settles(&self, input: StreamBody<In>, before: StreamCompletion<In>, after: StreamCompletion<In>) -> bool {
        settled_with(before, after, if input.elements@.len() > 0 {
            outcome_of(input.end, input.elements@.last())
        } else {
            empty_outcome(input.end)
        })
    }

    fn settle(self, input: StreamBody<In>, mat: StreamCompletion<In>) -> (after: StreamCompletion<In>) {
        let StreamBody { elements, end, .. } = input;
        let mut elements = elements;
        if elements.len() > 0 {
            let last = elements.pop().unwrap();
            settle_completion(mat, outcome(end, last))
        } else {
            settle_completion(mat, empty_settlement(end))
        }
    }
}

/// The last element, or `None` for an empty stream.
pub struct LastOptionSink;

impl<In> SinkStage<In, StreamCompletion<Option<In>>> for LastOptionSink {
    open spec fn ready(&self) -> bool { true }

    open spec fn settles(&self, input: StreamBody<In>, before: StreamCompletion<Option<In>>, after: StreamCompletion<Option<In>>) -> bool {
        settled_with(before, after, if input.elements@.len() > 0 {
            outcome_of(input.end, Some(input.elements@.last()))
        } else {
            outcome_of(input.end, None)
        })
    }

    fn settle(self, input: StreamBody<In>, mat: StreamCompletion<Option<In>>) -> (after: StreamCompletion<Option<In>>) {
        let StreamBody { elements, end, .. } = input;
        let mut elements = elements;
        if elements.len() > 0 {
            let last = elements.pop().unwrap();
            settle_completion(mat, outcome(end, Some(last)))
        } else {
            settle_completion(mat, outcome(end, None))
        }
    }
}

impl<In> Sink<In, StreamCompletion<Option<In>>, LastOptionSink> {
    /// A sink that takes the last element, if any.
    pub fn last_option() -> (r: Self)
        ensures pending_sink(r, StageKind::Custom, LastOptionSink),
    {
        Self::from_definition(StageKind::Custom, LastOptionSink, StreamCompletion::new())
    }
}

impl<In> Sink<In, StreamCompletion<In>, LastSink> {
    /// A sink that completes with the last element; an empty stream fails it.
    pub fn last() -> (r: Self)
        ensures pending_sink(r, StageKind::SinkLast, LastSink),
    {
        Self::from_definition(StageKind::SinkLast, LastSink, StreamCompletion::new())
    }
}

/// `acc` is the result of folding `xs` with `f` from `init`.
pub open spec fn fold_result<A, T, F: FnMut(A, T) -> A>(f: F, init: A, xs: Seq<T>, acc: A) -> bool {
    exists|accs: Seq<A>| #![auto] scan_trace(f, init, xs, accs) && acc == accs.last()
}

/// Folds `v` with `f` from `init`.
fn fold_all<A, T, F: FnMut(A, T) -> A>(v: Vec<T>, init: A, f: &mut F) -> (acc: A)
    requires forall|a: A, t: T| call_requires(*old(f), (a, t)),
    ensures fold_result(*old(f), init, v@, acc), *final(f) == *old(f),
{
    let ghost xs = v@;
    let ghost f0 = *f;
    let mut acc = init;
    let ghost mut accs: Seq<A> = seq![init];
    for x in it: v.into_iter()
        invariant
            *f == f0,
            forall|a: A, t: T| call_requires(f0, (a, t)),
            it.seq() == xs,
            accs.len() == it.index() + 1,
            accs[0] == init,
            accs.last() == acc,
            forall|i: int| 0 <= i < it.index() ==> call_ensures(f0, (#[trigger] accs[i], xs[i]), accs[i + 1]),
    {
        let next = f(acc, x);
        proof { accs = accs.push(next); }
        acc = next;
    }
    proof { assert(scan_trace(f0, init, xs, accs)); }
    acc
}

/// Folds every element into an accumulator.
pub struct FoldSink<Acc, F> {
    pub initial: Acc,
    pub func: F,
}

impl<In, Acc, F: FnMut(Acc, In) -> Acc> SinkStage<In, StreamCompletion<Acc>> for FoldSink<Acc, F> {
    open spec fn ready(&self) -> bool { forall|a: Acc, t: In| call_requires(self.func, (a, t)) }

    open spec fn settles(&self, input: StreamBody<In>, before: StreamCompletion<Acc>, after: StreamCompletion<Acc>) -> bool {
        exists|acc: Acc| #![auto] fold_result(self.func, self.initial, input.elements@, acc)
            && settled_with(before, after, outcome_of(input.end, acc))
    }

    fn settle(self, input: StreamBody<In>, mat: StreamCompletion<Acc>) -> (after: StreamCompletion<Acc>) {
        let mut f = self.func;
        let StreamBody { elements, end, .. } = input;
        let acc = fold_all(elements, self.initial, &mut f);
        settle_completion(mat, outcome(end, acc))
    }
}

impl<In, Acc, F: FnMut(Acc, In) -> Acc> Sink<In, StreamCompletion<Acc>, FoldSink<Acc, F>> {
    /// A sink that folds every element into an accumulator.
    pub fn fold(initial: Acc, func: F) -> (r: Self)
        ensures pending_sink(r, StageKind::SinkFold, FoldSink { initial, func }),
    {
        Self::from_definition(StageKind::SinkFold, FoldSink { initial, func }, StreamCompletion::new())
    }
}

/// Reduces the elements with `func`, seeded with the first; an empty stream fails.
pub struct ReduceSink<F> {
    pub func: F,
}

impl<In, F: FnMut(In, In) -> In> SinkStage<In, StreamCompletion<In>> for ReduceSink<F> {
    open spec fn ready(&self) -> bool { forall|a: In, b: In| call_requires(self.func, (a, b)) }

    open spec fn settles(&self, input: StreamBody<In>, before: StreamCompletion<In>, after: StreamCompletion<In>) -> bool {
        &&& input.elements@.len() > 0 ==> exists|acc: In| #![auto]
            fold_result(self.func, input.elements@[0], input.elements@.drop_first(), acc)
            && settled_with(before, after, outcome_of(input.end, acc))
        &&& input.elements@.len() == 0 ==> settled_with(before, after, match input.end {
            StreamEnd::Completed => Some(Err(StreamError::Failed)),
            StreamEnd::Failed(e) => Some(Err(e)),
            StreamEnd::Stalled => None,
        })
    }

    fn settle(self, input: StreamBody<In>, mat: StreamCompletion<In>) -> (after: StreamCompletion<In>) {
        let mut f = self.func;
        let StreamBody { elements, end, .. } = input;
        let mut elements = elements;
        if elements.len() == 0 {
            return match end {
                StreamEnd::Completed => settle_completion(mat, Some(Err(StreamError::Failed))),
                StreamEnd::Failed(e) => settle_completion(mat, Some(Err(e))),
                StreamEnd::Stalled => mat,
            };
        }
        let ghost xs = elements@;
        let first = elements.remove(0);
        proof { assert(elements@ == xs.drop_first()); }
        let acc = fold_all(elements, first, &mut f);
        settle_completion(mat, outcome(end, acc))
    }
}

impl<In, F: FnMut(In, In) -> In> Sink<In, StreamCompletion<In>, ReduceSink<F>> {
    /// A sink that reduces the elements with `func`; an empty stream fails it.
    pub fn reduce(func: F) -> (r: Self)
        ensures pending_sink(r, StageKind::Custom, ReduceSink { func }),
    {
        Self::from_definition(StageKind::Custom, ReduceSink { func }, StreamCompletion::new())
    }
}

/// `accs` is the trace of folding `xs` with `f` from `init` while `cond` accepts the accumulator and
/// the next element: it stops at the first pair `cond` rejects or after the last element.
pub open spec fn fold_while_trace<A, T, C: FnMut(&A, &T) -> bool, F: FnMut(A, T) -> A>(
    cond: C,
    f: F,
    init: A,
    xs: Seq<T>,
    accs: Seq<A>,
) -> bool {
    &&& 1 <= accs.len() <= xs.len() + 1
    &&& accs[0] == init
    &&& forall|i: int| 0 <= i < accs.len() - 1 ==> call_ensures(cond, (&accs[i], &xs[i]), true)
        && call_ensures(f, (#[trigger] accs[i], xs[i]), accs[i + 1])
    &&& accs.len() <= xs.len() ==> call_ensures(cond, (&accs.last(), &xs[accs.len() - 1]), false)
}

/// Folds elements while `cond` accepts the accumulator and the next element.
pub struct FoldWhileSink<Acc, C, F> {
    pub initial: Acc,
    pub cond: C,
    pub func: F,
}

impl<In, Acc, C: FnMut(&Acc, &In) -> bool, F: FnMut(Acc, In) -> Acc> SinkStage<In, StreamCompletion<Acc>> for FoldWhileSink<Acc, C, F> {
    open spec fn ready(&self) -> bool {
        &&& forall|a: &Acc, t: &In| call_requires(self.cond, (a, t))
        &&& forall|a: Acc, t: In| call_requires(self.func, (a, t))
    }

    open spec fn settles(&self, input: StreamBody<In>, before: StreamCompletion<Acc>, after: StreamCompletion<Acc>) -> bool {
        exists|accs: Seq<Acc>| #![auto] fold_while_trace(self.cond, self.func, self.initial, input.elements@, accs)
            && settled_with(before, after, if accs.len() <= input.elements@.len() {
                Some(Ok(accs.last()))
            } else {
                outcome_of(input.end, accs.last())
            })
    }

    #[verifier::loop_isolation(false)]
    fn settle(self, input: StreamBody<In>, mat: StreamCompletion<Acc>) -> (after: StreamCompletion<Acc>) {
        let mut cond = self.cond;
        let mut f = self.func;
        let ghost c0 = cond;
        let ghost f0 = f;
        let StreamBody { elements, end, .. } = input;
        let ghost xs = elements@;
        let mut acc = self.initial;
        let ghost mut accs: Seq<Acc> = seq![acc];
        for x in it: elements.into_iter()
            invariant
                cond == c0,
                f == f0,
                it.seq() == xs,
                accs.len() == it.index() + 1,
                accs[0] == self.initial,
                accs.last() == acc,
                forall|a: &Acc, t: &In| call_requires(c0, (a, t)),
                forall|a: Acc, t: In| call_requires(f0, (a, t)),
                forall|i: int| 0 <= i < accs.len() - 1 ==> call_ensures(c0, (&accs[i], &xs[i]), true)
                    && call_ensures(f0, (#[trigger] accs[i], xs[i]), accs[i + 1]),
        {
            let go = cond(&acc, &x);
            if !go {
                proof { assert(fold_while_trace(c0, f0, self.initial, xs, accs)); }
                return settle_completion(mat, Some(Ok(acc)));
            }
            let next = f(acc, x);
            proof { accs = accs.push(next); }
            acc = next;
        }
        proof { assert(fold_while_trace(c0, f0, self.initial, xs, accs)); }
        settle_completion(mat, outcome(end, acc))
    }
}

impl<In, Acc, C: FnMut(&Acc, &In) -> bool, F: FnMut(Acc, In) -> Acc> Sink<In, StreamCompletion<Acc>, FoldWhileSink<Acc, C, F>> {
    /// A sink that folds elements while `cond` accepts the accumulator and the next element, and then
    /// completes with the accumulator.
    pub fn fold_while(initial: Acc, cond: C, func: F) -> (r: Self)
        ensures pending_sink(r, StageKind::SinkFold, FoldWhileSink { initial, cond, func }),
    {
        Self::from_definition(StageKind::SinkFold, FoldWhileSink { initial, cond, func }, StreamCompletion::new())
    }
}

/// A queue of the elements a sink received, pulled in arrival order.
pub struct SinkQueue<T> {
    pub items: Vec<T>,
}

impl<T> SinkQueue<T> {
    /// An empty queue.
    pub fn new() -> (r: Self)
        ensures r.items@.len() == 0,
    {
        SinkQueue { items: Vec::new() }
    }

    /// Takes the oldest element, if any.
    pub fn pull(&mut self) -> (r: Option<T>)
        ensures
            old(self).items@.len() == 0 ==> r is None && final(self).items@.len() == 0,
            old(self).items@.len() > 0 ==> r == Some(old(self).items@[0]) && final(self).items@ == old(self).items@.drop_first(),
    {
        if self.items.len() == 0 {
            None
        } else {
            Some(self.items.remove(0))
        }
    }
}

/// Appends every element to the materialized queue.
pub struct QueueSink;

impl<In> SinkStage<In, SinkQueue<In>> for QueueSink {
    open spec fn ready(&self) -> bool { true }

    open spec fn settles(&self, input: StreamBody<In>, before: SinkQueue<In>, after: SinkQueue<In>) -> bool {
        after.items@ == before.items@ + input.elements@
    }

    fn settle(self, input: StreamBody<In>, mat: SinkQueue<In>) -> (after: SinkQueue<In>) {
        let mut q = mat;
        let mut elements = input.elements;
        q.items.append(&mut elements);
        q
    }
}

impl<In> Sink<In, SinkQueue<In>, QueueSink> {
    /// A sink whose materialized value is a queue of the elements it received.
    pub fn queue() -> (r: Self)
        ensures kinds_of(r.graph.nodes@) == seq![StageKind::Custom], r.mat.items@.len() == 0,
    {
        Self::from_definition(StageKind::Custom, QueueSink, SinkQueue::new())
    }
}

/// Builds the sink with `factory` when the stream starts and records its result.
pub struct LazySink<Fac> {
    pub factory: Fac,
}

impl<In, L: SinkStage<In, StreamCompletion<StreamDone>>, Fac: FnOnce() -> Sink<In, StreamCompletion<StreamDone>, L>>
    SinkStage<In, StreamCompletion<StreamDone>> for LazySink<Fac> {
    open spec fn ready(&self) -> bool {
        &&& call_requires(self.factory, ())
        &&& forall|s: Sink<In, StreamCompletion<StreamDone>, L>| call_ensures(self.factory, (), s) ==> s.logic.ready()
    }

    open spec fn settles(&self, input: StreamBody<In>, before: StreamCompletion<StreamDone>, after: StreamCompletion<StreamDone>) -> bool {
        exists|s: Sink<In, StreamCompletion<StreamDone>, L>, inner: StreamCompletion<StreamDone>|
            #![trigger call_ensures(self.factory, (), s), s.logic.settles(input, s.mat, inner)]
            call_ensures(self.factory, (), s) && s.logic.settles(input, s.mat, inner)
            && settled_with(before, after, inner.spec_result())
    }

    fn settle(self, input: StreamBody<In>, mat: StreamCompletion<StreamDone>) -> (after: StreamCompletion<StreamDone>) {
        let factory = self.factory;
        let s = factory();
        let ghost s0 = s;
        let Sink { graph: _, logic, mat: inner_mat, _pd } = s;
        let mut inner = logic.settle(input, inner_mat);
        let ghost settled = inner;
        let res = inner.try_take();
        let r = settle_completion(mat, res);
        proof {
            assert(call_ensures(factory, (), s0) && s0.logic.settles(input, s0.mat, settled));
        }
        r
    }
}

impl<In, L: SinkStage<In, StreamCompletion<StreamDone>>, Fac: FnOnce() -> Sink<In, StreamCompletion<StreamDone>, L>>
    Sink<In, StreamCompletion<StreamDone>, LazySink<Fac>> {
    /// A sink built by `factory` only when the stream starts.
    pub fn lazy_sink(factory: Fac) -> (r: Self)
        ensures pending_sink(r, StageKind::Custom, LazySink { factory }),
    {
        Self::from_definition(StageKind::Custom, LazySink { factory }, StreamCompletion::new())
    }

    /// Alias of [`Sink::lazy_sink`].
    pub fn lazy_completion_stage_sink(factory: Fac) -> (r: Self)
        ensures pending_sink(r, StageKind::Custom, LazySink { factory }),
    {
        Self::lazy_sink(factory)
    }

    /// Alias of [`Sink::lazy_sink`].
    pub fn lazy_future_sink(factory: Fac) -> (r: Self)
        ensures pending_sink(r, StageKind::Custom, LazySink { factory }),
    {
        Self::lazy_sink(factory)
    }
}

impl<Out> crate::source::Source<Out, StreamNotUsed> {
    /// A sink endpoint that consumes every element and completes with `StreamDone`.
    pub fn as_subscriber() -> (r: Sink<Out, StreamCompletion<StreamDone>, IgnoreSink>)
        ensures pending_sink(r, StageKind::SinkIgnore, IgnoreSink),
    {
        Sink::ignore()
    }

    /// Alias of [`Source::as_subscriber`].
    pub fn sink() -> (r: Sink<Out, StreamCompletion<StreamDone>, IgnoreSink>)
        ensures pending_sink(r, StageKind::SinkIgnore, IgnoreSink),
    {
        Sink::ignore()
    }
}

} // verus!
