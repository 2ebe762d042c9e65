//! Flows: reusable processing pipelines with one input and one output. A flow carries the stages it
//! will run over a stream; a source runs them when it goes `via` the flow.
use vstd::prelude::*;
use crate::body::{StreamBody, clones_of};
use crate::buffer::OverflowPolicy;
use crate::error::{StreamError, StreamDslError, spec_zero_argument, validate_positive_argument};
use crate::graph::{StreamGraph, kinds_of};
use crate::keyed::GroupKey;
use crate::mat::{SettleRight, MatCombineRule, KeepLeft, StreamCompletion, StreamNotUsed};
use crate::restart::RestartSettings;
use crate::source::{Source, add_flow_stage};
use crate::stage_kind::StageKind;
use crate::timed::{ConflateStage, ConflateSameStage, TakeWithinStage, GroupedWithinStage};
use crate::stages::{MatStage, FlowStage, Identity, Then, MapStage, FilterStage, MapOptionStage, MapConcatStage, StatefulMapStage,
    StatefulMapConcatStage, TakeStage, DropStage, TakeWhileStage, DropWhileStage, TakeUntilStage, GroupedStage,
    SlidingStage, ScanStage, ReduceStage, IntersperseStage, ZipWithIndexStage, BroadcastStage, WrapStage, UnzipStage,
    UnzipWithStage, FlattenStage, FlattenOptionalStage, MapErrorStage, OkValuesStage, OkPrefixStage, RecoverStage,
    RecoverWithRetriesStage, SplitStage, GroupByStage, PartitionStage, FlatMapConcatStage, ExpandStage,
    SwapStage, WireTapStage, DistinctStage, DistinctByStage, DropRepeatedStage, CollectTypeStage};
use crate::sink::{Sink, SinkStage};
use crate::sub_flow::SecondStage;
use crate::with_context::{FlowWithContext, UnitContextStage};
use crate::polling::{Pollable, MapAsyncStage, AskWithContextStage, AsyncScanStage};
use crate::sub_flow::FlowSubFlow;

verus! {

/// Flow stage definition: a blueprint graph, the stages it runs, and its materialized value.
pub struct Flow<In, Out, Mat, S = Identity> {
    pub graph: StreamGraph,
    pub stage: S,
    pub mat: Mat,
    pub _pd: core::marker::PhantomData<(In, Out)>,
}

/// How a throttle stage treats elements above the rate.
#[derive(Debug, Clone, Copy, PartialEq, Eq, Structural)]
pub enum ThrottleMode {
    /// Delays elements to keep the rate.
    Shaping,
    /// Fails the stream when the rate is exceeded.
    Enforcing,
}

/// Materialized value of a monitored flow.
#[derive(Debug, PartialEq, Eq)]
pub struct FlowMonitor<T> {
    pub _pd: core::marker::PhantomData<T>,
}

impl<T> FlowMonitor<T> {
    /// Creates a monitor.
    pub fn new() -> (r: Self)
        ensures true,
    {
        FlowMonitor { _pd: core::marker::PhantomData }
    }
}

/// `r` is `f` followed by the stage `next`, with one more blueprint stage of `kind`.
pub open spec fn chained<In, Out, T, Mat, S, S2>(f: Flow<In, Out, Mat, S>, r: Flow<In, T, Mat, Then<S, S2, Out>>, next: S2, kind: StageKind) -> bool {
    &&& r.stage.first == f.stage
    &&& r.stage.second == next
    &&& kinds_of(r.graph.nodes@) == kinds_of(f.graph.nodes@).push(kind)
    &&& r.mat == f.mat
}

/// `r` runs the same stages as `f`, with one more blueprint stage of `kind` that passes elements on.
pub open spec fn extended<In, Out, Mat, S>(f: Flow<In, Out, Mat, S>, r: Flow<In, Out, Mat, S>, kind: StageKind) -> bool {
    &&& r.stage == f.stage
    &&& kinds_of(r.graph.nodes@) == kinds_of(f.graph.nodes@).push(kind)
    &&& r.mat == f.mat
}

impl<T> Flow<T, T, StreamNotUsed, Identity> {
    /// An empty flow that passes every element on.
    pub fn new() -> (r: Self)
        ensures r.graph.nodes@.len() == 0, r.mat == (StreamNotUsed {}),
    {
        Flow { graph: StreamGraph::new(), stage: Identity, mat: StreamNotUsed::new(), _pd: core::marker::PhantomData }
    }
}

impl<T, Mat> Flow<T, T, Mat, Identity> {
    /// A flow over an existing blueprint whose elements pass unchanged.
    pub fn from_graph(graph: StreamGraph, mat: Mat) -> (r: Self)
        ensures r.graph == graph, r.mat == mat,
    {
        Flow { graph, stage: Identity, mat, _pd: core::marker::PhantomData }
    }
}

impl<In, Out, F: FnMut(In) -> Out> Flow<In, Out, StreamNotUsed, Then<Identity, MapStage<F>, In>> {
    /// A flow that maps every element through `f`.
    pub fn from_function(f: F) -> (r: Self)
        ensures
            r.stage.second == (MapStage { func: f }),
            kinds_of(r.graph.nodes@) == seq![StageKind::FlowMap],
            r.mat == (StreamNotUsed {}),
    {
        let r = Flow::<In, In, StreamNotUsed, Identity>::new().map(f);
        proof { assert(kinds_of(r.graph.nodes@) =~= seq![StageKind::FlowMap]); }
        r
    }
}

impl<In, Out, Mat, S> Flow<In, Out, Mat, S> {
    /// The flow that `factory` builds.
    pub fn from_materializer<F: FnOnce() -> Self>(factory: F) -> (r: Self)
        requires call_requires(factory, ()),
        ensures call_ensures(factory, (), r),
    {
        factory()
    }

    /// Follows this flow with the stage `next`, adding a blueprint stage of `kind`.
    pub fn then_stage<T, S2>(self, kind: StageKind, next: S2) -> (r: Flow<In, T, Mat, Then<S, S2, Out>>)
        ensures chained(self, r, next, kind),
    {
        let Flow { graph, stage, mat, _pd } = self;
        Flow { graph: add_flow_stage(graph, kind), stage: Then::new(stage, next), mat, _pd: core::marker::PhantomData }
    }

    /// Adds a blueprint stage of `kind` that passes every element on.
    pub fn pass(self, kind: StageKind) -> (r: Self)
        ensures extended(self, r, kind),
    {
        let Flow { graph, stage, mat, _pd } = self;
        Flow { graph: add_flow_stage(graph, kind), stage, mat, _pd }
    }

    /// Follows this flow with `flow`, keeping this flow's materialized value.
    pub fn via<T, Mat2, S2>(self, flow: Flow<Out, T, Mat2, S2>) -> (r: Flow<In, T, Mat, Then<S, S2, Out>>)
        ensures
            r.stage.first == self.stage, r.stage.second == flow.stage,
            kinds_of(r.graph.nodes@) == kinds_of(self.graph.nodes@) + kinds_of(flow.graph.nodes@),
            r.mat == self.mat,
    {
        self.via_mat(flow, KeepLeft)
    }

    /// Follows this flow with `flow`; `combine` picks the materialized value.
    pub fn via_mat<T, Mat2, S2, C: MatCombineRule<Mat, Mat2>>(self, flow: Flow<Out, T, Mat2, S2>, combine: C)
        -> (r: Flow<In, T, C::Out, Then<S, S2, Out>>)
        ensures
            r.stage.first == self.stage, r.stage.second == flow.stage,
            kinds_of(r.graph.nodes@) == kinds_of(self.graph.nodes@) + kinds_of(flow.graph.nodes@),
            r.mat == C::spec_combine(self.mat, flow.mat),
    {
        let Flow { graph, stage, mat, _pd } = self;
        let Flow { graph: g2, stage: s2, mat: m2, _pd: _ } = flow;
        let mut g = graph;
        g.append(g2);
        let m = C::combine(mat, m2);
        Flow { graph: g, stage: Then::new(stage, s2), mat: m, _pd: core::marker::PhantomData }
    }

    /// Replaces the materialized value with `func` applied to it.
    pub fn map_materialized_value<Mat2, F: FnOnce(Mat) -> Mat2>(self, func: F) -> (r: Flow<In, Out, Mat2, S>)
        requires call_requires(func, (self.mat,)),
        ensures call_ensures(func, (self.mat,), r.mat), r.graph == self.graph, r.stage == self.stage,
    {
        let Flow { graph, stage, mat, _pd } = self;
        let m = func(mat);
        Flow { graph, stage, mat: m, _pd: core::marker::PhantomData }
    }

    /// The blueprint and the materialized value.
    pub fn into_parts(self) -> (r: (StreamGraph, Mat))
        ensures r.0 == self.graph, r.1 == self.mat,
    {
        (self.graph, self.mat)
    }

    /// Maps every element through `func`.
    pub fn map<T, F: FnMut(Out) -> T>(self, func: F) -> (r: Flow<In, T, Mat, Then<S, MapStage<F>, Out>>)
        ensures chained(self, r, MapStage { func }, StageKind::FlowMap),
    {
        self.then_stage(StageKind::FlowMap, MapStage { func })
    }

    /// Maps every element through `right`; `left` is not used.
    pub fn dimap<T, FL, FR: FnMut(Out) -> T>(self, left: FL, right: FR) -> (r: Flow<In, T, Mat, Then<S, MapStage<FR>, Out>>)
        ensures chained(self, r, MapStage { func: right }, StageKind::FlowMap),
    {
        self.map(right)
    }

    /// Builds a mapper with `factory` when the stream starts and maps every element through it.
    pub fn stateful_map<T, M: FnMut(Out) -> T, Fac: FnOnce() -> M>(self, factory: Fac)
        -> (r: Flow<In, T, Mat, Then<S, StatefulMapStage<Fac>, Out>>)
        ensures chained(self, r, StatefulMapStage { factory }, StageKind::FlowStatefulMap),
    {
        self.then_stage(StageKind::FlowStatefulMap, StatefulMapStage { factory })
    }

    /// Builds a mapper with `factory` when the stream starts and emits the vectors it maps elements to.
    pub fn stateful_map_concat<T, M: FnMut(Out) -> Vec<T>, Fac: FnOnce() -> M>(self, factory: Fac)
        -> (r: Flow<In, T, Mat, Then<S, StatefulMapConcatStage<Fac>, Out>>)
        ensures chained(self, r, StatefulMapConcatStage { factory }, StageKind::FlowStatefulMapConcat),
    {
        self.then_stage(StageKind::FlowStatefulMapConcat, StatefulMapConcatStage { factory })
    }

    /// Maps every element to a vector of outputs and emits them in order.
    pub fn map_concat<T, F: FnMut(Out) -> Vec<T>>(self, func: F) -> (r: Flow<In, T, Mat, Then<S, MapConcatStage<F>, Out>>)
        ensures chained(self, r, MapConcatStage { func }, StageKind::FlowMapConcat),
    {
        self.then_stage(StageKind::FlowMapConcat, MapConcatStage { func })
    }

    /// Maps every element to an optional output and emits the present ones.
    pub fn map_option<T, F: FnMut(Out) -> Option<T>>(self, func: F) -> (r: Flow<In, T, Mat, Then<S, MapOptionStage<F>, Out>>)
        ensures chained(self, r, MapOptionStage { func }, StageKind::FlowMapOption),
    {
        self.then_stage(StageKind::FlowMapOption, MapOptionStage { func })
    }

    /// Keeps the elements that `predicate` accepts.
    pub fn filter<F: FnMut(&Out) -> bool>(self, predicate: F) -> (r: Flow<In, Out, Mat, Then<S, FilterStage<F>, Out>>)
        ensures chained(self, r, FilterStage { predicate, keep: true }, StageKind::FlowFilter),
    {
        self.then_stage(StageKind::FlowFilter, FilterStage { predicate, keep: true })
    }

    /// Keeps the elements that `predicate` rejects.
    pub fn filter_not<F: FnMut(&Out) -> bool>(self, predicate: F) -> (r: Flow<In, Out, Mat, Then<S, FilterStage<F>, Out>>)
        ensures chained(self, r, FilterStage { predicate, keep: false }, StageKind::FlowFilter),
    {
        self.then_stage(StageKind::FlowFilter, FilterStage { predicate, keep: false })
    }

    /// Keeps the elements that `predicate` rejects; the sink is not attached.
    pub fn divert_to<F: FnMut(&Out) -> bool, SinkT>(self, predicate: F, sink: SinkT) -> (r: Flow<In, Out, Mat, Then<S, FilterStage<F>, Out>>)
        ensures chained(self, r, FilterStage { predicate, keep: false }, StageKind::FlowFilter),
    {
        self.filter_not(predicate)
    }

    /// Skips the first `count` elements.
    pub fn drop(self, count: usize) -> (r: Flow<In, Out, Mat, Then<S, DropStage, Out>>)
        ensures chained(self, r, DropStage { count }, StageKind::FlowDrop),
    {
        self.then_stage(StageKind::FlowDrop, DropStage { count })
    }

    /// Skips the elements that arrive within `ticks` ticks, one element arriving per tick; fails when
    /// `ticks` is zero.
    pub fn drop_within(self, ticks: usize) -> (r: Result<Flow<In, Out, Mat, Then<S, DropStage, Out>>, StreamDslError>)
        ensures
            ticks == 0 <==> r is Err,
            r matches Err(e) ==> e == spec_zero_argument("ticks"),
            r matches Ok(f) ==> chained(self, f, DropStage { count: ticks }, StageKind::FlowDrop),
    {
        let _ = validate_positive_argument("ticks", ticks)?;
        Ok(self.drop(ticks))
    }

    /// Keeps the first `count` elements; the stream completes once they have passed.
    pub fn take(self, count: usize) -> (r: Flow<In, Out, Mat, Then<S, TakeStage, Out>>)
        ensures chained(self, r, TakeStage { count }, StageKind::FlowTake),
    {
        self.then_stage(StageKind::FlowTake, TakeStage { count })
    }

    /// Alias of [`Flow::take`].
    pub fn limit(self, max: usize) -> (r: Flow<In, Out, Mat, Then<S, TakeStage, Out>>)
        ensures chained(self, r, TakeStage { count: max }, StageKind::FlowTake),
    {
        self.take(max)
    }

    /// Keeps the first `max_weight` elements; the weight function is not used.
    pub fn limit_weighted<FW>(self, max_weight: usize, weight_fn: FW) -> (r: Flow<In, Out, Mat, Then<S, TakeStage, Out>>)
        ensures chained(self, r, TakeStage { count: max_weight }, StageKind::FlowTake),
    {
        self.take(max_weight)
    }

    /// Skips elements while `predicate` accepts them.
    pub fn drop_while<F: FnMut(&Out) -> bool>(self, predicate: F) -> (r: Flow<In, Out, Mat, Then<S, DropWhileStage<F>, Out>>)
        ensures chained(self, r, DropWhileStage { predicate }, StageKind::FlowDropWhile),
    {
        self.then_stage(StageKind::FlowDropWhile, DropWhileStage { predicate })
    }

    /// Keeps elements while `predicate` accepts them; the stream completes at the first rejected one.
    pub fn take_while<F: FnMut(&Out) -> bool>(self, predicate: F) -> (r: Flow<In, Out, Mat, Then<S, TakeWhileStage<F>, Out>>)
        ensures chained(self, r, TakeWhileStage { predicate }, StageKind::FlowTakeWhile),
    {
        self.then_stage(StageKind::FlowTakeWhile, TakeWhileStage { predicate })
    }

    /// Alias of [`Flow::take_while`].
    pub fn collect_while<F: FnMut(&Out) -> bool>(self, predicate: F) -> (r: Flow<In, Out, Mat, Then<S, TakeWhileStage<F>, Out>>)
        ensures chained(self, r, TakeWhileStage { predicate }, StageKind::FlowTakeWhile),
    {
        self.take_while(predicate)
    }

    /// Keeps elements up to and including the first one `predicate` accepts; the stream completes there.
    pub fn take_until<F: FnMut(&Out) -> bool>(self, predicate: F) -> (r: Flow<In, Out, Mat, Then<S, TakeUntilStage<F>, Out>>)
        ensures chained(self, r, TakeUntilStage { predicate }, StageKind::FlowTakeUntil),
    {
        self.then_stage(StageKind::FlowTakeUntil, TakeUntilStage { predicate })
    }

    /// Emits the first element `predicate` accepts; the stream completes there.
    pub fn collect_first<F: FnMut(&Out) -> bool>(self, predicate: F)
        -> (r: Flow<In, Out, Mat, Then<Then<S, FilterStage<F>, Out>, TakeStage, Out>>)
        ensures
            r.stage.first.first == self.stage,
            r.stage.first.second == (FilterStage { predicate, keep: true }),
            r.stage.second == (TakeStage { count: 1 }),
            kinds_of(r.graph.nodes@) == kinds_of(self.graph.nodes@).push(StageKind::FlowFilter).push(StageKind::FlowTake),
            r.mat == self.mat,
    {
        self.filter(predicate).take(1)
    }

    /// Emits chunks of `size` elements; fails when `size` is zero.
    pub fn grouped(self, size: usize) -> (r: Result<Flow<In, Vec<Out>, Mat, Then<S, GroupedStage, Out>>, StreamDslError>)
        ensures
            size == 0 <==> r is Err,
            r matches Err(e) ==> e == spec_zero_argument("size"),
            r matches Ok(f) ==> chained(self, f, GroupedStage { size }, StageKind::FlowGrouped),
    {
        let _ = validate_positive_argument("size", size)?;
        Ok(self.then_stage(StageKind::FlowGrouped, GroupedStage { size }))
    }

    /// Alias of [`Flow::grouped`]; the key function is not used.
    pub fn grouped_adjacent_by<F>(self, size: usize, key_fn: F) -> (r: Result<Flow<In, Vec<Out>, Mat, Then<S, GroupedStage, Out>>, StreamDslError>)
        ensures
            size == 0 <==> r is Err,
            r matches Err(e) ==> e == spec_zero_argument("size"),
            r matches Ok(f) ==> chained(self, f, GroupedStage { size }, StageKind::FlowGrouped),
    {
        self.grouped(size)
    }

    /// Alias of [`Flow::grouped`]; the key and weight functions are not used.
    pub fn grouped_adjacent_by_weighted<FK, FW>(self, size: usize, key_fn: FK, weight_fn: FW)
        -> (r: Result<Flow<In, Vec<Out>, Mat, Then<S, GroupedStage, Out>>, StreamDslError>)
        ensures
            size == 0 <==> r is Err,
            r matches Err(e) ==> e == spec_zero_argument("size"),
            r matches Ok(f) ==> chained(self, f, GroupedStage { size }, StageKind::FlowGrouped),
    {
        self.grouped(size)
    }

    /// Chunks of `max_weight` elements, as `grouped` gives them; the weight function is not used.
    pub fn grouped_weighted<FW>(self, max_weight: usize, weight_fn: FW)
        -> (r: Result<Flow<In, Vec<Out>, Mat, Then<S, GroupedStage, Out>>, StreamDslError>)
        ensures
            max_weight == 0 <==> r is Err,
            r matches Err(e) ==> e == spec_zero_argument("size"),
            r matches Ok(f) ==> chained(self, f, GroupedStage { size: max_weight }, StageKind::FlowGrouped),
    {
        self.grouped(max_weight)
    }

    /// Chunks of `max_weight` elements, as `grouped` gives them; the window and weight function are not used.
    pub fn grouped_weighted_within<FW>(self, max_weight: usize, ticks: usize, weight_fn: FW)
        -> (r: Result<Flow<In, Vec<Out>, Mat, Then<S, GroupedStage, Out>>, StreamDslError>)
        ensures
            max_weight == 0 <==> r is Err,
            r matches Err(e) ==> e == spec_zero_argument("size"),
            r matches Ok(f) ==> chained(self, f, GroupedStage { size: max_weight }, StageKind::FlowGrouped),
    {
        self.grouped(max_weight)
    }

    /// Alias of [`Flow::grouped`].
    pub fn prefix_and_tail(self, size: usize) -> (r: Result<Flow<In, Vec<Out>, Mat, Then<S, GroupedStage, Out>>, StreamDslError>)
        ensures
            size == 0 <==> r is Err,
            r matches Err(e) ==> e == spec_zero_argument("size"),
            r matches Ok(f) ==> chained(self, f, GroupedStage { size }, StageKind::FlowGrouped),
    {
        self.grouped(size)
    }

    /// Emits chunks of at most `size` elements, closing a chunk once `ticks` drive steps have
    /// passed since its first element arrived. Fails when `size` or `ticks` is zero.
    pub fn grouped_within(self, size: usize, ticks: usize)
        -> (r: Result<Flow<In, Vec<Out>, Mat, Then<S, GroupedWithinStage, Out>>, StreamDslError>)
        ensures
            size == 0 || ticks == 0 <==> r is Err,
            r matches Err(e) ==> e == spec_zero_argument(if size == 0 { "size" } else { "ticks" }),
            r matches Ok(f) ==> chained(self, f, GroupedWithinStage { size, ticks }, StageKind::FlowStatefulMapConcat),
    {
        let _ = validate_positive_argument("size", size)?;
        let _ = validate_positive_argument("ticks", ticks)?;
        Ok(self.then_stage(StageKind::FlowStatefulMapConcat, GroupedWithinStage { size, ticks }))
    }

    /// Emits chunks of at most `size` elements; fails when `size` is zero.
    pub fn batch(self, size: usize) -> (r: Result<Flow<In, Vec<Out>, Mat, Then<S, GroupedStage, Out>>, StreamDslError>)
        ensures
            size == 0 <==> r is Err,
            r matches Err(e) ==> e == spec_zero_argument("size"),
            r matches Ok(f) ==> chained(self, f, GroupedStage { size }, StageKind::FlowBatch),
    {
        let _ = validate_positive_argument("size", size)?;
        Ok(self.then_stage(StageKind::FlowBatch, GroupedStage { size }))
    }

    /// Alias of [`Flow::batch`].
    pub fn aggregate_with_boundary(self, size: usize) -> (r: Result<Flow<In, Vec<Out>, Mat, Then<S, GroupedStage, Out>>, StreamDslError>)
        ensures
            size == 0 <==> r is Err,
            r matches Err(e) ==> e == spec_zero_argument("size"),
            r matches Ok(f) ==> chained(self, f, GroupedStage { size }, StageKind::FlowBatch),
    {
        self.batch(size)
    }

    /// Chunks of `max_weight` elements, as `batch` gives them; the weight function is not used.
    pub fn batch_weighted<FW>(self, max_weight: usize, weight_fn: FW)
        -> (r: Result<Flow<In, Vec<Out>, Mat, Then<S, GroupedStage, Out>>, StreamDslError>)
        ensures
            max_weight == 0 <==> r is Err,
            r matches Err(e) ==> e == spec_zero_argument("size"),
            r matches Ok(f) ==> chained(self, f, GroupedStage { size: max_weight }, StageKind::FlowBatch),
    {
        self.batch(max_weight)
    }

    /// Emits every window of `size` consecutive elements; fails when `size` is zero.
    pub fn sliding(self, size: usize) -> (r: Result<Flow<In, Vec<Out>, Mat, Then<S, SlidingStage, Out>>, StreamDslError>)
        ensures
            size == 0 <==> r is Err,
            r matches Err(e) ==> e == spec_zero_argument("size"),
            r matches Ok(f) ==> chained(self, f, SlidingStage { size }, StageKind::FlowSliding),
    {
        let _ = validate_positive_argument("size", size)?;
        Ok(self.then_stage(StageKind::FlowSliding, SlidingStage { size }))
    }

    /// Emits `initial` and then every running accumulation of `func`.
    pub fn scan<Acc, F: FnMut(Acc, Out) -> Acc>(self, initial: Acc, func: F) -> (r: Flow<In, Acc, Mat, Then<S, ScanStage<Acc, F>, Out>>)
        ensures chained(self, r, ScanStage { initial, func }, StageKind::FlowScan),
    {
        self.then_stage(StageKind::FlowScan, ScanStage { initial, func })
    }

    /// Emits every running accumulation of `func`, without `initial`.
    pub fn fold<Acc, F: FnMut(Acc, Out) -> Acc>(self, initial: Acc, func: F)
        -> (r: Flow<In, Acc, Mat, Then<Then<S, ScanStage<Acc, F>, Out>, DropStage, Acc>>)
        ensures
            r.stage.first.first == self.stage,
            r.stage.first.second == (ScanStage { initial, func }),
            r.stage.second == (DropStage { count: 1 }),
            kinds_of(r.graph.nodes@) == kinds_of(self.graph.nodes@).push(StageKind::FlowScan).push(StageKind::FlowDrop),
            r.mat == self.mat,
    {
        self.scan(initial, func).drop(1)
    }

    /// Emits every running reduction of `func`, seeded with the first element.
    pub fn reduce<F: FnMut(Out, Out) -> Out>(self, func: F) -> (r: Flow<In, Out, Mat, Then<S, ReduceStage<F>, Out>>)
        ensures
            r.stage.first == self.stage,
            r.stage.second == (ReduceStage { func }),
            kinds_of(r.graph.nodes@) == kinds_of(self.graph.nodes@).push(StageKind::FlowScan)
                .push(StageKind::FlowDrop).push(StageKind::FlowMapOption),
            r.mat == self.mat,
    {
        let Flow { graph, stage, mat, _pd } = self;
        let graph = add_flow_stage(graph, StageKind::FlowScan);
        let graph = add_flow_stage(graph, StageKind::FlowDrop);
        let graph = add_flow_stage(graph, StageKind::FlowMapOption);
        Flow { graph, stage: Then::new(stage, ReduceStage { func }), mat, _pd: core::marker::PhantomData }
    }

    /// Emits `start`, the elements separated by `inject`, and `end` when the stream completes.
    pub fn intersperse(self, start: Out, inject: Out, end: Out) -> (r: Flow<In, Out, Mat, Then<S, IntersperseStage<Out>, Out>>)
        ensures chained(self, r, IntersperseStage { start, inject, end }, StageKind::FlowIntersperse),
    {
        self.then_stage(StageKind::FlowIntersperse, IntersperseStage { start, inject, end })
    }

    /// Emits `value` before, between and after the elements; fails when `ticks` is zero.
    pub fn keep_alive(self, ticks: usize, value: Out) -> (r: Result<Flow<In, Out, Mat, Then<S, IntersperseStage<Out>, Out>>, StreamDslError>)
        where Out: Copy,
        ensures
            ticks == 0 <==> r is Err,
            r matches Err(e) ==> e == spec_zero_argument("ticks"),
            r matches Ok(f) ==> chained(self, f, IntersperseStage { start: value, inject: value, end: value }, StageKind::FlowIntersperse),
    {
        let _ = validate_positive_argument("ticks", ticks)?;
        Ok(self.intersperse(value, value, value))
    }

    /// Maps every element to an inner source and emits the inner sources' elements one after the other.
    pub fn flat_map_concat<T, M, F: FnMut(Out) -> Source<T, M>>(self, func: F) -> (r: Flow<In, T, Mat, Then<S, FlatMapConcatStage<F>, Out>>)
        ensures chained(self, r, FlatMapConcatStage { func }, StageKind::FlowFlatMapConcat),
    {
        self.then_stage(StageKind::FlowFlatMapConcat, FlatMapConcatStage { func })
    }

    /// Maps every element to an inner source with at most `breadth` open; an inner source is drained
    /// before the next element is taken. Fails when `breadth` is zero.
    pub fn flat_map_merge<T, M, F: FnMut(Out) -> Source<T, M>>(self, breadth: usize, func: F)
        -> (r: Result<Flow<In, T, Mat, Then<S, FlatMapConcatStage<F>, Out>>, StreamDslError>)
        ensures
            breadth == 0 <==> r is Err,
            r matches Err(e) ==> e == spec_zero_argument("breadth"),
            r matches Ok(f) ==> chained(self, f, FlatMapConcatStage { func }, StageKind::FlowFlatMapMerge),
    {
        let _ = validate_positive_argument("breadth", breadth)?;
        Ok(self.then_stage(StageKind::FlowFlatMapMerge, FlatMapConcatStage { func }))
    }

    /// Alias of [`Flow::flat_map_merge`].
    pub fn flatten_merge<T, M, F: FnMut(Out) -> Source<T, M>>(self, breadth: usize, func: F)
        -> (r: Result<Flow<In, T, Mat, Then<S, FlatMapConcatStage<F>, Out>>, StreamDslError>)
        ensures
            breadth == 0 <==> r is Err,
            r matches Err(e) ==> e == spec_zero_argument("breadth"),
            r matches Ok(f) ==> chained(self, f, FlatMapConcatStage { func }, StageKind::FlowFlatMapMerge),
    {
        self.flat_map_merge(breadth, func)
    }

    /// `flat_map_merge` with a single open inner source.
    pub fn switch_map<T, M, F: FnMut(Out) -> Source<T, M>>(self, func: F)
        -> (r: Result<Flow<In, T, Mat, Then<S, FlatMapConcatStage<F>, Out>>, StreamDslError>)
        ensures
            r matches Ok(f) && chained(self, f, FlatMapConcatStage { func }, StageKind::FlowFlatMapMerge),
    {
        self.flat_map_merge(1, func)
    }

    /// Buffers up to `capacity` elements; the elements pass unchanged. Fails when `capacity` is zero.
    pub fn buffer(self, capacity: usize, overflow_policy: OverflowPolicy) -> (r: Result<Self, StreamDslError>)
        ensures
            capacity == 0 <==> r is Err,
            r matches Err(e) ==> e == spec_zero_argument("capacity"),
            r matches Ok(f) ==> extended(self, f, StageKind::FlowBuffer),
    {
        let _ = validate_positive_argument("capacity", capacity)?;
        Ok(self.pass(StageKind::FlowBuffer))
    }

    /// Adds an asynchronous boundary; the elements pass unchanged.
    pub fn async_boundary(self) -> (r: Self)
        ensures extended(self, r, StageKind::FlowAsyncBoundary),
    {
        self.pass(StageKind::FlowAsyncBoundary)
    }

    /// Alias of [`Flow::async_boundary`].
    pub fn detach(self) -> (r: Self)
        ensures extended(self, r, StageKind::FlowAsyncBoundary),
    {
        self.async_boundary()
    }

    /// Bounds the rate to `capacity` elements per tick; the elements pass unchanged. Fails when
    /// `capacity` is zero.
    pub fn throttle(self, capacity: usize) -> (r: Result<Self, StreamDslError>)
        ensures
            capacity == 0 <==> r is Err,
            r matches Err(e) ==> e == spec_zero_argument("capacity"),
            r matches Ok(f) ==> extended(self, f, StageKind::FlowThrottle),
    {
        let _ = validate_positive_argument("capacity", capacity)?;
        Ok(self.pass(StageKind::FlowThrottle))
    }

    /// Delays every element by `ticks`; the elements pass unchanged. Fails when `ticks` is zero.
    pub fn delay(self, ticks: usize) -> (r: Result<Self, StreamDslError>)
        ensures
            ticks == 0 <==> r is Err,
            r matches Err(e) ==> e == spec_zero_argument("ticks"),
            r matches Ok(f) ==> extended(self, f, StageKind::FlowDelay),
    {
        let _ = validate_positive_argument("ticks", ticks)?;
        Ok(self.pass(StageKind::FlowDelay))
    }

    /// Alias of [`Flow::delay`].
    pub fn delay_with(self, ticks: usize) -> (r: Result<Self, StreamDslError>)
        ensures
            ticks == 0 <==> r is Err,
            r matches Err(e) ==> e == spec_zero_argument("ticks"),
            r matches Ok(f) ==> extended(self, f, StageKind::FlowDelay),
    {
        self.delay(ticks)
    }

    /// Delays the first element by `ticks`; the elements pass unchanged. Fails when `ticks` is zero.
    pub fn initial_delay(self, ticks: usize) -> (r: Result<Self, StreamDslError>)
        ensures
            ticks == 0 <==> r is Err,
            r matches Err(e) ==> e == spec_zero_argument("ticks"),
            r matches Ok(f) ==> extended(self, f, StageKind::FlowInitialDelay),
    {
        let _ = validate_positive_argument("ticks", ticks)?;
        Ok(self.pass(StageKind::FlowInitialDelay))
    }

    /// Keeps the elements that arrive before drive step `ticks`; the stream completes when the
    /// window closes. Fails when `ticks` is zero.
    pub fn take_within(self, ticks: usize) -> (r: Result<Flow<In, Out, Mat, Then<S, TakeWithinStage, Out>>, StreamDslError>)
        ensures
            ticks == 0 <==> r is Err,
            r matches Err(e) ==> e == spec_zero_argument("ticks"),
            r matches Ok(f) ==> chained(self, f, TakeWithinStage { ticks }, StageKind::FlowTakeWithin),
    {
        let _ = validate_positive_argument("ticks", ticks)?;
        Ok(self.then_stage(StageKind::FlowTakeWithin, TakeWithinStage { ticks }))
    }

    /// Restarts the flow with backoff after failures; its behaviour is otherwise unchanged.
    pub fn restart_flow_with_backoff(self, min_backoff_ticks: u32, max_restarts: usize) -> (r: Self)
        ensures r == self,
    {
        self
    }

    /// Alias of [`Flow::restart_flow_with_backoff`].
    pub fn on_failures_with_backoff(self, min_backoff_ticks: u32, max_restarts: usize) -> (r: Self)
        ensures r == self,
    {
        self.restart_flow_with_backoff(min_backoff_ticks, max_restarts)
    }

    /// Alias of [`Flow::restart_flow_with_backoff`].
    pub fn with_backoff(self, min_backoff_ticks: u32, max_restarts: usize) -> (r: Self)
        ensures r == self,
    {
        self.restart_flow_with_backoff(min_backoff_ticks, max_restarts)
    }

    /// Alias of [`Flow::restart_flow_with_backoff`]; the context is not used.
    pub fn with_backoff_and_context<C>(self, min_backoff_ticks: u32, max_restarts: usize, context: C) -> (r: Self)
        ensures r == self,
    {
        self.restart_flow_with_backoff(min_backoff_ticks, max_restarts)
    }

    /// Restarts the flow after failures as `settings` says; its behaviour is otherwise unchanged.
    pub fn restart_flow_with_settings(self, settings: RestartSettings) -> (r: Self)
        ensures r == self,
    {
        self
    }

    /// Sets the stop supervision strategy; the behaviour is unchanged.
    pub fn supervision_stop(self) -> (r: Self)
        ensures r == self,
    {
        self
    }

    /// Sets the resume supervision strategy; the behaviour is unchanged.
    pub fn supervision_resume(self) -> (r: Self)
        ensures r == self,
    {
        self
    }

    /// Sets the restart supervision strategy; the behaviour is unchanged.
    pub fn supervision_restart(self) -> (r: Self)
        ensures r == self,
    {
        self
    }

    /// Returns this flow unchanged.
    pub fn completion_stage_flow(self) -> (r: Self)
        ensures r == self,
    {
        self
    }

    /// Returns this flow unchanged.
    pub fn future_flow(self) -> (r: Self)
        ensures r == self,
    {
        self
    }

    /// Returns this flow unchanged; `func` is not used.
    pub fn contramap<F>(self, func: F) -> (r: Self)
        ensures r == self,
    {
        self
    }

    /// Returns this flow unchanged; `callback` is not used.
    pub fn do_on_cancel<F>(self, callback: F) -> (r: Self)
        ensures r == self,
    {
        self
    }

    /// Returns this flow unchanged.
    pub fn materialize_into_source(self) -> (r: Self)
        ensures r == self,
    {
        self
    }

    /// Returns this flow unchanged.
    pub fn watch(self) -> (r: Self)
        ensures r == self,
    {
        self
    }

    /// Gives the flow a name attribute; the stages are unchanged.
    pub fn named(self, name: &str) -> (r: Self)
        ensures
            r.stage == self.stage,
            r.mat == self.mat,
            r.graph.nodes@ == self.graph.nodes@,
            r.graph.edges@ == self.graph.edges@,
            r.graph.attributes.spec_names() == self.graph.attributes.spec_names().push(name@),
    {
        self.add_attributes(crate::graph::Attributes::named(name))
    }

    /// Replaces the graph attributes; the stages are unchanged.
    pub fn with_attributes(self, attributes: crate::graph::Attributes) -> (r: Self)
        ensures
            r.stage == self.stage,
            r.mat == self.mat,
            r.graph.nodes@ == self.graph.nodes@,
            r.graph.edges@ == self.graph.edges@,
            r.graph.attributes.spec_names() == attributes.spec_names(),
    {
        let Flow { mut graph, stage, mat, _pd } = self;
        graph.set_attributes(attributes);
        Flow { graph, stage, mat, _pd }
    }

    /// Appends graph attributes after the existing ones; the stages are unchanged.
    pub fn add_attributes(self, attributes: crate::graph::Attributes) -> (r: Self)
        ensures
            r.stage == self.stage,
            r.mat == self.mat,
            r.graph.nodes@ == self.graph.nodes@,
            r.graph.edges@ == self.graph.edges@,
            r.graph.attributes.spec_names() == self.graph.attributes.spec_names() + attributes.spec_names(),
    {
        let Flow { mut graph, stage, mat, _pd } = self;
        graph.add_attributes(attributes);
        Flow { graph, stage, mat, _pd }
    }

    /// Returns this flow unchanged.
    pub fn deflate(self) -> (r: Self)
        ensures r == self,
    {
        self
    }

    /// Returns this flow unchanged.
    pub fn gzip(self) -> (r: Self)
        ensures r == self,
    {
        self
    }

    /// Returns this flow unchanged.
    pub fn gzip_decompress(self) -> (r: Self)
        ensures r == self,
    {
        self
    }

    /// Returns this flow unchanged.
    pub fn inflate(self) -> (r: Self)
        ensures r == self,
    {
        self
    }

    /// Returns this flow unchanged; the sinks are not attached.
    pub fn also_to_all<SinkT>(self, sinks: Vec<SinkT>) -> (r: Self)
        ensures r == self,
    {
        self
    }

    /// Shows every element to `callback` and passes it on.
    pub fn wire_tap<F: FnMut(&Out)>(self, callback: F) -> (r: Flow<In, Out, Mat, Then<S, WireTapStage<F>, Out>>)
        ensures chained(self, r, WireTapStage { callback, first_only: false }, StageKind::FlowMap),
    {
        self.then_stage(StageKind::FlowMap, WireTapStage { callback, first_only: false })
    }

    /// Shows the first element to `callback` and passes every element on.
    pub fn do_on_first<F: FnMut(&Out)>(self, callback: F) -> (r: Flow<In, Out, Mat, Then<S, WireTapStage<F>, Out>>)
        ensures chained(self, r, WireTapStage { callback, first_only: true }, StageKind::FlowMap),
    {
        self.then_stage(StageKind::FlowMap, WireTapStage { callback, first_only: true })
    }

    /// Adds a logging stage; the elements pass unchanged.
    pub fn log(self, name: &'static str) -> (r: Self)
        ensures extended(self, r, StageKind::FlowMap),
    {
        self.pass(StageKind::FlowMap)
    }

    /// Adds a marker-tagged logging stage; the elements pass unchanged.
    pub fn log_with_marker(self, name: &'static str, marker: &'static str) -> (r: Self)
        ensures extended(self, r, StageKind::FlowMap),
    {
        self.pass(StageKind::FlowMap)
    }

    /// Routes every element to one of two lanes by `predicate`; on a single path all elements pass.
    pub fn partition<F: FnMut(&Out) -> bool>(self, predicate: F) -> (r: Flow<In, Out, Mat, Then<S, PartitionStage<F>, Out>>)
        ensures chained(self, r, PartitionStage { predicate }, StageKind::FlowPartition),
    {
        self.then_stage(StageKind::FlowPartition, PartitionStage { predicate })
    }

    /// Maps every element to a pair and emits both components.
    pub fn unzip_with<T, F: FnMut(Out) -> (T, T)>(self, func: F) -> (r: Flow<In, T, Mat, Then<S, UnzipWithStage<F>, Out>>)
        ensures chained(self, r, UnzipWithStage { func }, StageKind::FlowUnzipWith),
    {
        self.then_stage(StageKind::FlowUnzipWith, UnzipWithStage { func })
    }

    /// Duplicates every element `fan_out` times.
    pub fn broadcast(self, fan_out: usize) -> (r: Flow<In, Out, Mat, Then<S, BroadcastStage, Out>>)
        requires fan_out > 0,
        ensures chained(self, r, BroadcastStage { fan_out }, StageKind::FlowBroadcast),
    {
        self.then_stage(StageKind::FlowBroadcast, BroadcastStage { fan_out })
    }

    /// Distributes elements over `fan_out` lanes; on a single path all elements pass.
    pub fn balance(self, fan_out: usize) -> (r: Self)
        requires fan_out > 0,
        ensures extended(self, r, StageKind::FlowBalance),
    {
        self.pass(StageKind::FlowBalance)
    }

    /// Merges `fan_in` lanes; on a single path all elements pass.
    pub fn merge(self, fan_in: usize) -> (r: Self)
        requires fan_in > 0,
        ensures extended(self, r, StageKind::FlowMerge),
    {
        self.pass(StageKind::FlowMerge)
    }

    /// Takes `fan_in` lanes in round-robin order; on a single path all elements pass.
    pub fn interleave(self, fan_in: usize) -> (r: Self)
        requires fan_in > 0,
        ensures extended(self, r, StageKind::FlowInterleave),
    {
        self.pass(StageKind::FlowInterleave)
    }

    /// Prefers lower-index lanes; on a single path all elements pass.
    pub fn prepend(self, fan_in: usize) -> (r: Self)
        requires fan_in > 0,
        ensures extended(self, r, StageKind::FlowPrepend),
    {
        self.pass(StageKind::FlowPrepend)
    }

    /// Emits all elements of each lane in lane order; on a single path all elements pass.
    pub fn concat(self, fan_in: usize) -> (r: Self)
        requires fan_in > 0,
        ensures extended(self, r, StageKind::FlowConcat),
    {
        self.pass(StageKind::FlowConcat)
    }

    /// Prefers the first lane when several have data; on a single path all elements pass.
    pub fn merge_preferred(self, fan_in: usize) -> (r: Self)
        requires fan_in > 0,
        ensures extended(self, r, StageKind::FlowMergePreferred),
    {
        self.pass(StageKind::FlowMergePreferred)
    }

    /// Picks lanes by equal priority; on a single path all elements pass.
    pub fn merge_prioritized(self, fan_in: usize) -> (r: Self)
        requires fan_in > 0,
        ensures extended(self, r, StageKind::FlowMergePrioritized),
    {
        self.pass(StageKind::FlowMergePrioritized)
    }

    /// Picks lanes in proportion to `priorities`; on a single path all elements pass.
    pub fn merge_prioritized_n(self, fan_in: usize, priorities: &[usize]) -> (r: Self)
        requires
            fan_in > 0,
            priorities@.len() == fan_in,
            forall|i: int| 0 <= i < priorities@.len() ==> priorities@[i] > 0,
        ensures extended(self, r, StageKind::FlowMergePrioritized),
    {
        self.pass(StageKind::FlowMergePrioritized)
    }

    /// Merges lanes by element order; on a single path all elements pass.
    pub fn merge_sorted(self, fan_in: usize) -> (r: Self)
        requires fan_in > 0,
        ensures extended(self, r, StageKind::FlowMergeSorted),
    {
        self.pass(StageKind::FlowMergeSorted)
    }

    /// `merge` with a zero-argument check.
    pub fn merge_sequence(self, fan_in: usize) -> (r: Result<Self, StreamDslError>)
        ensures
            fan_in == 0 <==> r is Err,
            r matches Err(e) ==> e == spec_zero_argument("fan_in"),
            r matches Ok(f) ==> extended(self, f, StageKind::FlowMerge),
    {
        let _ = validate_positive_argument("fan_in", fan_in)?;
        Ok(self.merge(fan_in))
    }

    /// `merge` with a zero-argument check.
    pub fn merge_all(self, fan_in: usize) -> (r: Result<Self, StreamDslError>)
        ensures
            fan_in == 0 <==> r is Err,
            r matches Err(e) ==> e == spec_zero_argument("fan_in"),
            r matches Ok(f) ==> extended(self, f, StageKind::FlowMerge),
    {
        let _ = validate_positive_argument("fan_in", fan_in)?;
        Ok(self.merge(fan_in))
    }

    /// `concat` with a zero-argument check.
    pub fn concat_all_lazy(self, fan_in: usize) -> (r: Result<Self, StreamDslError>)
        ensures
            fan_in == 0 <==> r is Err,
            r matches Err(e) ==> e == spec_zero_argument("fan_in"),
            r matches Ok(f) ==> extended(self, f, StageKind::FlowConcat),
    {
        let _ = validate_positive_argument("fan_in", fan_in)?;
        Ok(self.concat(fan_in))
    }

    /// `concat` with a zero-argument check.
    pub fn concat_lazy(self, fan_in: usize) -> (r: Result<Self, StreamDslError>)
        ensures
            fan_in == 0 <==> r is Err,
            r matches Err(e) ==> e == spec_zero_argument("fan_in"),
            r matches Ok(f) ==> extended(self, f, StageKind::FlowConcat),
    {
        let _ = validate_positive_argument("fan_in", fan_in)?;
        Ok(self.concat(fan_in))
    }

    /// `interleave` with a zero-argument check.
    pub fn interleave_all(self, fan_in: usize) -> (r: Result<Self, StreamDslError>)
        ensures
            fan_in == 0 <==> r is Err,
            r matches Err(e) ==> e == spec_zero_argument("fan_in"),
            r matches Ok(f) ==> extended(self, f, StageKind::FlowInterleave),
    {
        let _ = validate_positive_argument("fan_in", fan_in)?;
        Ok(self.interleave(fan_in))
    }

    /// `prepend` with a zero-argument check.
    pub fn or_else(self, fan_in: usize) -> (r: Result<Self, StreamDslError>)
        ensures
            fan_in == 0 <==> r is Err,
            r matches Err(e) ==> e == spec_zero_argument("fan_in"),
            r matches Ok(f) ==> extended(self, f, StageKind::FlowPrepend),
    {
        let _ = validate_positive_argument("fan_in", fan_in)?;
        Ok(self.prepend(fan_in))
    }

    /// `prepend` with a zero-argument check.
    pub fn prepend_lazy(self, fan_in: usize) -> (r: Result<Self, StreamDslError>)
        ensures
            fan_in == 0 <==> r is Err,
            r matches Err(e) ==> e == spec_zero_argument("fan_in"),
            r matches Ok(f) ==> extended(self, f, StageKind::FlowPrepend),
    {
        let _ = validate_positive_argument("fan_in", fan_in)?;
        Ok(self.prepend(fan_in))
    }

    /// Emits one vector per round with an element of every lane; on a single path every element is
    /// wrapped alone.
    pub fn zip(self, fan_in: usize) -> (r: Flow<In, Vec<Out>, Mat, Then<S, WrapStage, Out>>)
        requires fan_in > 0,
        ensures chained(self, r, WrapStage, StageKind::FlowZip),
    {
        self.then_stage(StageKind::FlowZip, WrapStage)
    }

    /// Like `zip`, filling lanes that completed with `fill_value`; on a single path every element is
    /// wrapped alone.
    pub fn zip_all(self, fan_in: usize, fill_value: Out) -> (r: Flow<In, Vec<Out>, Mat, Then<S, WrapStage, Out>>)
        requires fan_in > 0,
        ensures chained(self, r, WrapStage, StageKind::FlowZipAll),
    {
        self.then_stage(StageKind::FlowZipAll, WrapStage)
    }

    /// Emits the latest element of every lane when any lane emits; on a single path every element
    /// is wrapped alone. Fails when `fan_in` is zero.
    pub fn merge_latest(self, fan_in: usize) -> (r: Result<Flow<In, Vec<Out>, Mat, Then<S, WrapStage, Out>>, StreamDslError>)
        ensures
            fan_in == 0 <==> r is Err,
            r matches Err(e) ==> e == spec_zero_argument("fan_in"),
            r matches Ok(f) ==> chained(self, f, WrapStage, StageKind::FlowMergeLatest),
    {
        let _ = validate_positive_argument("fan_in", fan_in)?;
        Ok(self.then_stage(StageKind::FlowMergeLatest, WrapStage))
    }

    /// `zip_all` with a zero-argument check.
    pub fn zip_latest(self, fan_in: usize, fill_value: Out) -> (r: Result<Flow<In, Vec<Out>, Mat, Then<S, WrapStage, Out>>, StreamDslError>)
        ensures
            fan_in == 0 <==> r is Err,
            r matches Err(e) ==> e == spec_zero_argument("fan_in"),
            r matches Ok(f) ==> chained(self, f, WrapStage, StageKind::FlowZipAll),
    {
        let _ = validate_positive_argument("fan_in", fan_in)?;
        Ok(self.zip_all(fan_in, fill_value))
    }

    /// `zip` followed by mapping every zipped vector through `func`. Fails when `fan_in` is zero.
    pub fn zip_with<T, F: FnMut(Vec<Out>) -> T>(self, fan_in: usize, func: F)
        -> (r: Result<Flow<In, T, Mat, Then<Then<S, WrapStage, Out>, MapStage<F>, Vec<Out>>>, StreamDslError>)
        ensures
            fan_in == 0 <==> r is Err,
            r matches Err(e) ==> e == spec_zero_argument("fan_in"),
            r matches Ok(f) ==> f.stage.first.first == self.stage && f.stage.first.second == WrapStage
                && f.stage.second == (MapStage { func })
                && kinds_of(f.graph.nodes@) == kinds_of(self.graph.nodes@).push(StageKind::FlowZip).push(StageKind::FlowMap)
                && f.mat == self.mat,
    {
        let _ = validate_positive_argument("fan_in", fan_in)?;
        Ok(self.zip(fan_in).map(func))
    }

    /// `zip_latest` followed by mapping every zipped vector through `func`. Fails when `fan_in` is zero.
    pub fn zip_latest_with<T, F: FnMut(Vec<Out>) -> T>(self, fan_in: usize, fill_value: Out, func: F)
        -> (r: Result<Flow<In, T, Mat, Then<Then<S, WrapStage, Out>, MapStage<F>, Vec<Out>>>, StreamDslError>)
        ensures
            fan_in == 0 <==> r is Err,
            r matches Err(e) ==> e == spec_zero_argument("fan_in"),
            r matches Ok(f) ==> f.stage.first.first == self.stage && f.stage.first.second == WrapStage
                && f.stage.second == (MapStage { func })
                && kinds_of(f.graph.nodes@) == kinds_of(self.graph.nodes@).push(StageKind::FlowZipAll).push(StageKind::FlowMap)
                && f.mat == self.mat,
    {
        let _ = validate_positive_argument("fan_in", fan_in)?;
        Ok(self.zip_all(fan_in, fill_value).map(func))
    }

    /// Pairs every element with its position.
    pub fn zip_with_index(self) -> (r: Flow<In, (Out, u64), Mat, Then<S, ZipWithIndexStage, Out>>)
        ensures chained(self, r, ZipWithIndexStage, StageKind::FlowZipWithIndex),
    {
        self.then_stage(StageKind::FlowZipWithIndex, ZipWithIndexStage)
    }

    /// Pairs every element with its position, position first.
    pub fn monitor(self) -> (r: Flow<In, (u64, Out), Mat, Then<Then<S, ZipWithIndexStage, Out>, SwapStage, (Out, u64)>>)
        ensures
            r.stage.first.first == self.stage,
            kinds_of(r.graph.nodes@) == kinds_of(self.graph.nodes@).push(StageKind::FlowZipWithIndex).push(StageKind::FlowMap),
            r.mat == self.mat,
    {
        self.zip_with_index().then_stage(StageKind::FlowMap, SwapStage)
    }

    /// Combines the materialized value with a flow monitor; the elements pass unchanged.
    pub fn monitor_mat<C: MatCombineRule<Mat, FlowMonitor<Out>>>(self, combine: C) -> (r: Flow<In, Out, C::Out, S>)
        ensures
            r.stage == self.stage, r.graph == self.graph,
            exists|m: FlowMonitor<Out>| r.mat == C::spec_combine(self.mat, m),
    {
        let Flow { graph, stage, mat, _pd } = self;
        let m = C::combine(mat, FlowMonitor::new());
        Flow { graph, stage, mat: m, _pd: core::marker::PhantomData }
    }

    /// Combines the materialized value with a termination handle that holds no result before the
    /// flow runs; the elements pass unchanged.
    pub fn watch_termination_mat<C: MatCombineRule<Mat, StreamCompletion<()>>>(self, combine: C) -> (r: Flow<In, Out, C::Out, S>)
        ensures
            r.stage == self.stage,
            kinds_of(r.graph.nodes@) == kinds_of(self.graph.nodes@).push(StageKind::FlowWatchTermination),
            exists|c: StreamCompletion<()>| c.spec_result() is None && r.mat == C::spec_combine(self.mat, c),
    {
        let Flow { graph, stage, mat, _pd } = self;
        let g = add_flow_stage(graph, StageKind::FlowWatchTermination);
        let m = C::combine(mat, StreamCompletion::new());
        Flow { graph: g, stage, mat: m, _pd: core::marker::PhantomData }
    }

    /// Routes elements by key to substreams; the stream fails when more than `max_substreams` keys
    /// would be open. Fails when `max_substreams` is zero.
    pub fn group_by<K: GroupKey, F: FnMut(&Out) -> K>(self, max_substreams: usize, key_fn: F)
        -> (r: Result<FlowSubFlow<In, Out, Mat, Then<Then<S, GroupByStage<F>, Out>, WrapStage, Out>>, StreamDslError>)
        ensures
            max_substreams == 0 <==> r is Err,
            r matches Err(e) ==> e == spec_zero_argument("max_substreams"),
            r matches Ok(sf) ==> sf.flow.stage.first.first == self.stage
                && sf.flow.stage.first.second == (GroupByStage { max_substreams, key_fn })
                && kinds_of(sf.flow.graph.nodes@) == kinds_of(self.graph.nodes@).push(StageKind::FlowGroupBy).push(StageKind::FlowMap)
                && sf.flow.mat == self.mat,
    {
        let _ = validate_positive_argument("max_substreams", max_substreams)?;
        let grouped = self.then_stage(StageKind::FlowGroupBy, GroupByStage { max_substreams, key_fn });
        Ok(FlowSubFlow { flow: grouped.then_stage(StageKind::FlowMap, WrapStage) })
    }

    /// Splits the stream into segments that start at each element `predicate` accepts.
    pub fn split_when<F: FnMut(&Out) -> bool>(self, predicate: F) -> (r: FlowSubFlow<In, Out, Mat, Then<S, SplitStage<F>, Out>>)
        ensures chained(self, r.flow, SplitStage { predicate, after: false }, StageKind::FlowSplitWhen),
    {
        FlowSubFlow { flow: self.then_stage(StageKind::FlowSplitWhen, SplitStage { predicate, after: false }) }
    }

    /// Splits the stream into segments that end at each element `predicate` accepts.
    pub fn split_after<F: FnMut(&Out) -> bool>(self, predicate: F) -> (r: FlowSubFlow<In, Out, Mat, Then<S, SplitStage<F>, Out>>)
        ensures chained(self, r.flow, SplitStage { predicate, after: true }, StageKind::FlowSplitAfter),
    {
        FlowSubFlow { flow: self.then_stage(StageKind::FlowSplitAfter, SplitStage { predicate, after: true }) }
    }

    /// Merges the elements that arrive in one drive step: the first element of each burst goes
    /// through `seed`, and `aggregate` adds each further element of the burst to the result.
    pub fn conflate_with_seed<T, FS: FnMut(Out) -> T, FA: FnMut(T, Out) -> T>(self, seed: FS, aggregate: FA)
        -> (r: Flow<In, T, Mat, Then<S, ConflateStage<FS, FA>, Out>>)
        ensures chained(self, r, ConflateStage { seed, aggregate }, StageKind::Custom),
    {
        self.then_stage(StageKind::Custom, ConflateStage { seed, aggregate })
    }

    /// Merges the elements that arrive in one drive step with `aggregate`, starting from the first
    /// element of each burst.
    pub fn conflate<FA: FnMut(Out, Out) -> Out>(self, aggregate: FA) -> (r: Flow<In, Out, Mat, Then<S, ConflateSameStage<FA>, Out>>)
        ensures chained(self, r, ConflateSameStage { aggregate }, StageKind::Custom),
    {
        self.then_stage(StageKind::Custom, ConflateSameStage { aggregate })
    }

    /// Emits, for every element, the first value of its expansion.
    pub fn expand<F: FnMut(&Out) -> Vec<Out>>(self, expander: F) -> (r: Flow<In, Out, Mat, Then<S, ExpandStage<F>, Out>>)
        ensures chained(self, r, ExpandStage { expander }, StageKind::FlowStatefulMapConcat),
    {
        self.then_stage(StageKind::FlowStatefulMapConcat, ExpandStage { expander })
    }

    /// Alias of [`Flow::expand`].
    pub fn extrapolate<F: FnMut(&Out) -> Vec<Out>>(self, expander: F) -> (r: Flow<In, Out, Mat, Then<S, ExpandStage<F>, Out>>)
        ensures chained(self, r, ExpandStage { expander }, StageKind::FlowStatefulMapConcat),
    {
        self.expand(expander)
    }

    /// Adds a side branch ending in `sink` to the blueprint and keeps this flow's materialized value;
    /// the elements pass unchanged. The sink's own materialized value is dropped, and with it
    /// everything consuming the copies would settle, so the stages stay those of this flow.
    pub fn also_to<Mat2, L>(self, sink: crate::sink::Sink<Out, Mat2, L>) -> (r: Self)
        ensures
            r.stage == self.stage,
            kinds_of(r.graph.nodes@) == kinds_of(self.graph.nodes@).push(StageKind::FlowBroadcast)
                + kinds_of(sink.graph.nodes@).push(StageKind::FlowMap),
            r.mat == self.mat,
    {
        let Flow { graph, stage, mat, _pd } = self;
        let crate::sink::Sink { graph: sink_graph, logic: _, mat: _, _pd: _ } = sink;
        let mut g = add_flow_stage(graph, StageKind::FlowBroadcast);
        let branch = add_flow_stage(sink_graph, StageKind::FlowMap);
        g.append(branch);
        Flow { graph: g, stage, mat, _pd: core::marker::PhantomData }
    }

    /// Sends a copy of every element this flow emits to `sink` and passes the elements on;
    /// `combine` picks the materialized value from this flow's and the sink's. When a stream runs
    /// through the flow, the sink consumes the copies and settles its part of the value, where
    /// `combine` keeps it.
    pub fn also_to_mat<Mat2, L, C: MatCombineRule<Mat, Mat2>>(self, sink: crate::sink::Sink<Out, Mat2, L>, combine: C)
        -> (r: Flow<In, Out, C::Out, AlsoToStage<S, L, (C, Mat, Mat2)>>)
        ensures
            r.stage.inner == self.stage,
            r.stage.logic == sink.logic,
            kinds_of(r.graph.nodes@) == kinds_of(self.graph.nodes@).push(StageKind::FlowBroadcast)
                + kinds_of(sink.graph.nodes@).push(StageKind::FlowMap),
            r.mat == C::spec_combine(self.mat, sink.mat),
    {
        let Flow { graph, stage, mat, _pd } = self;
        let crate::sink::Sink { graph: sink_graph, logic, mat: sink_mat, _pd: _ } = sink;
        let mut g = add_flow_stage(graph, StageKind::FlowBroadcast);
        let branch = add_flow_stage(sink_graph, StageKind::FlowMap);
        g.append(branch);
        let m = C::combine(mat, sink_mat);
        Flow { graph: g, stage: AlsoToStage { inner: stage, logic, _pd: core::marker::PhantomData }, mat: m,
            _pd: core::marker::PhantomData }
    }

    /// Alias of [`Flow::also_to_mat`].
    pub fn wire_tap_mat<Mat2, L, C: MatCombineRule<Mat, Mat2>>(self, sink: crate::sink::Sink<Out, Mat2, L>, combine: C)
        -> (r: Flow<In, Out, C::Out, AlsoToStage<S, L, (C, Mat, Mat2)>>)
        ensures
            r.stage.inner == self.stage,
            r.stage.logic == sink.logic,
            kinds_of(r.graph.nodes@) == kinds_of(self.graph.nodes@).push(StageKind::FlowBroadcast)
                + kinds_of(sink.graph.nodes@).push(StageKind::FlowMap),
            r.mat == C::spec_combine(self.mat, sink.mat),
    {
        self.also_to_mat(sink, combine)
    }
}

/// Copies `v` element by element.
pub fn clone_elements<T: Clone>(v: &Vec<T>) -> (r: Vec<T>)
    ensures clones_of(v@, r@),
{
    let mut out: Vec<T> = Vec::new();
    let mut i: usize = 0;
    while i < v.len()
        invariant
            i <= v.len(),
            out@.len() == i,
            forall|j: int| 0 <= j < i ==> cloned(v@[j], #[trigger] out@[j]),
        decreases v.len() - i,
    {
        let c = v[i].clone();
        out.push(c);
        i = i + 1;
    }
    out
}

/// The stages of a flow with a side branch ending in a sink: the inner stages run, and the sink
/// consumes a copy of every element they emit, settling its part of the flow's materialized value
/// as the rule `C` keeps it.
pub struct AlsoToStage<S, L, C> {
    pub inner: S,
    pub logic: L,
    pub _pd: core::marker::PhantomData<C>,
}

impl<In, Out: Clone, Mat, Mat2, S: FlowStage<In, Out>, L: SinkStage<Out, Mat2>, C: SettleRight<Mat, Mat2, Out, L>>
    MatStage<In, Out, C::Out> for AlsoToStage<S, L, (C, Mat, Mat2)> {
    open spec fn ready_with_mat(&self) -> bool {
        self.inner.ready() && self.logic.ready()
    }

    /// The inner stages give `output`; the sink consumes a copy of it and settles its part of
    /// the value.
    open spec fn runs(&self, input: StreamBody<In>, before: C::Out, output: StreamBody<Out>, after: C::Out) -> bool {
        &&& self.inner.yields(input, output)
        &&& exists|copy: StreamBody<Out>| #[trigger] C::right_settled(before, self.logic, copy, after)
            && clones_of(output.elements@, copy.elements@) && copy.end == output.end
    }

    fn run_with_mat(self, input: StreamBody<In>, mat: C::Out) -> (r: (StreamBody<Out>, C::Out)) {
        let AlsoToStage { inner, logic, _pd } = self;
        let out = inner.run(input);
        let copy = StreamBody { elements: clone_elements(&out.elements), end: out.end, ticks: Vec::new() };
        let ghost c = copy;
        let after = C::settle_right(mat, logic, copy);
        proof {
            assert(C::right_settled(mat, logic, c, after));
        }
        (out, after)
    }
}

/// The consuming logic of a flow connected to a sink: the flow's stages run over the stream, and
/// the sink's logic settles the part of the combined materialized value that the rule `C` keeps
/// from the sink.
pub struct FlowSinkLogic<S, L, C, Mid> {
    pub stage: S,
    pub logic: L,
    pub _pd: core::marker::PhantomData<(C, Mid)>,
}

impl<In, Mid, Mat, Mat2, S: FlowStage<In, Mid>, L: SinkStage<Mid, Mat2>, C: SettleRight<Mat, Mat2, Mid, L>>
    SinkStage<In, C::Out> for FlowSinkLogic<S, L, (C, Mat, Mat2), Mid> {
    open spec fn ready(&self) -> bool {
        self.stage.ready() && self.logic.ready()
    }

    open spec fn settles(&self, input: StreamBody<In>, before: C::Out, after: C::Out) -> bool {
        exists|mid: StreamBody<Mid>| #[trigger] self.stage.yields(input, mid) && C::right_settled(before, self.logic, mid, after)
    }

    fn settle(self, input: StreamBody<In>, mat: C::Out) -> (after: C::Out) {
        let FlowSinkLogic { stage, logic, _pd } = self;
        let mid = stage.run(input);
        let ghost m = mid;
        let after = C::settle_right(mat, logic, mid);
        proof {
            assert(stage.yields(input, m));
        }
        after
    }
}

impl<In, Out, Mat, S> Flow<In, Out, Mat, S> {
    /// Connects this flow to `sink`: the flow's stages run before the sink's logic, and `combine`
    /// picks the materialized value; a sink value that the rule keeps is settled when a stream runs
    /// into the connected sink.
    pub fn to_mat<Mat2, L, C: MatCombineRule<Mat, Mat2>>(self, sink: Sink<Out, Mat2, L>, combine: C)
        -> (r: Sink<In, C::Out, FlowSinkLogic<S, L, (C, Mat, Mat2), Out>>)
        ensures
            r.logic.stage == self.stage,
            r.logic.logic == sink.logic,
            kinds_of(r.graph.nodes@) == kinds_of(self.graph.nodes@) + kinds_of(sink.graph.nodes@),
            r.mat == C::spec_combine(self.mat, sink.mat),
    {
        let Flow { graph, stage, mat, _pd } = self;
        let Sink { graph: sink_graph, logic, mat: sink_mat, _pd: _ } = sink;
        let mut g = graph;
        g.append(sink_graph);
        let m = C::combine(mat, sink_mat);
        Sink { graph: g, logic: FlowSinkLogic { stage, logic, _pd: core::marker::PhantomData }, mat: m,
            _pd: core::marker::PhantomData }
    }

    /// Connects this flow to `sink`, keeping this flow's materialized value.
    pub fn to<Mat2, L>(self, sink: Sink<Out, Mat2, L>) -> (r: Sink<In, Mat, FlowSinkLogic<S, L, (KeepLeft, Mat, Mat2), Out>>)
        ensures
            r.logic.stage == self.stage,
            r.logic.logic == sink.logic,
            kinds_of(r.graph.nodes@) == kinds_of(self.graph.nodes@) + kinds_of(sink.graph.nodes@),
            r.mat == self.mat,
    {
        self.to_mat(sink, KeepLeft)
    }
}

impl<Out, Mat> Source<Out, Mat> {
    /// Runs the elements through `flow`, keeping this source's materialized value.
    pub fn via<T, Mat2, S: MatStage<Out, T, Mat2>>(self, flow: Flow<Out, T, Mat2, S>) -> (r: Source<T, Mat>)
        requires flow.stage.ready_with_mat(),
        ensures
            exists|m2: Mat2| #[trigger] flow.stage.runs(self.body, flow.mat, r.body, m2),
            kinds_of(r.graph.nodes@) == kinds_of(self.graph.nodes@) + kinds_of(flow.graph.nodes@),
            r.mat == self.mat,
    {
        self.via_mat(flow, KeepLeft)
    }

    /// Runs the elements through `flow`; `combine` picks the materialized value, from the flow's
    /// value as running the stream settled it.
    pub fn via_mat<T, Mat2, S: MatStage<Out, T, Mat2>, C: MatCombineRule<Mat, Mat2>>(self, flow: Flow<Out, T, Mat2, S>, combine: C)
        -> (r: Source<T, C::Out>)
        requires flow.stage.ready_with_mat(),
        ensures
            exists|m2: Mat2| #[trigger] flow.stage.runs(self.body, flow.mat, r.body, m2) && r.mat == C::spec_combine(self.mat, m2),
            kinds_of(r.graph.nodes@) == kinds_of(self.graph.nodes@) + kinds_of(flow.graph.nodes@),
    {
        let Source { graph, body, mat } = self;
        let Flow { graph: g2, stage, mat: m2, _pd } = flow;
        let mut g = graph;
        g.append(g2);
        let (out, settled) = stage.run_with_mat(body, m2);
        let m = C::combine(mat, settled);
        Source { graph: g, body: out, mat: m }
    }
}

impl<In, Out, Mat, S> Flow<In, Vec<Out>, Mat, S> {
    /// Emits the elements of every substream in order.
    pub fn merge_substreams(self) -> (r: Flow<In, Out, Mat, Then<S, FlattenStage, Vec<Out>>>)
        ensures chained(self, r, FlattenStage, StageKind::FlowMergeSubstreams),
    {
        self.then_stage(StageKind::FlowMergeSubstreams, FlattenStage)
    }

    /// Emits the elements of every substream in order with at most `parallelism` open; fails when
    /// `parallelism` is zero.
    pub fn merge_substreams_with_parallelism(self, parallelism: usize) -> (r: Result<Flow<In, Out, Mat, Then<S, FlattenStage, Vec<Out>>>, StreamDslError>)
        ensures
            parallelism == 0 <==> r is Err,
            r matches Err(e) ==> e == spec_zero_argument("parallelism"),
            r matches Ok(f) ==> chained(self, f, FlattenStage, StageKind::FlowMergeSubstreamsWithParallelism),
    {
        let _ = validate_positive_argument("parallelism", parallelism)?;
        Ok(self.then_stage(StageKind::FlowMergeSubstreamsWithParallelism, FlattenStage))
    }

    /// Emits the elements of every substream, one substream after the other.
    pub fn concat_substreams(self) -> (r: Flow<In, Out, Mat, Then<S, FlattenStage, Vec<Out>>>)
        ensures chained(self, r, FlattenStage, StageKind::FlowConcatSubstreams),
    {
        self.then_stage(StageKind::FlowConcatSubstreams, FlattenStage)
    }
}

impl<In, Out, Mat, S> Flow<In, (Out, Out), Mat, S> {
    /// Emits both components of every pair.
    pub fn unzip(self) -> (r: Flow<In, Out, Mat, Then<S, UnzipStage, (Out, Out)>>)
        ensures chained(self, r, UnzipStage, StageKind::FlowUnzip),
    {
        self.then_stage(StageKind::FlowUnzip, UnzipStage)
    }
}

impl<In, Out, Mat, S> Flow<In, Option<Out>, Mat, S> {
    /// Emits the present values and skips the absent ones.
    pub fn flatten_optional(self) -> (r: Flow<In, Out, Mat, Then<S, FlattenOptionalStage, Option<Out>>>)
        ensures chained(self, r, FlattenOptionalStage, StageKind::FlowMapOption),
    {
        self.then_stage(StageKind::FlowMapOption, FlattenOptionalStage)
    }
}

impl<In, Out, Mat, S> Flow<In, Result<Out, StreamError>, Mat, S> {
    /// Maps the error payloads through `mapper`.
    pub fn map_error<F: FnMut(StreamError) -> StreamError>(self, mapper: F)
        -> (r: Flow<In, Result<Out, StreamError>, Mat, Then<S, MapErrorStage<F>, Result<Out, StreamError>>>)
        ensures chained(self, r, MapErrorStage { func: mapper }, StageKind::FlowMap),
    {
        self.then_stage(StageKind::FlowMap, MapErrorStage { func: mapper })
    }

    /// Drops the error payloads.
    pub fn on_error_continue(self) -> (r: Flow<In, Out, Mat, Then<S, OkValuesStage, Result<Out, StreamError>>>)
        ensures chained(self, r, OkValuesStage, StageKind::FlowMapOption),
    {
        self.then_stage(StageKind::FlowMapOption, OkValuesStage)
    }

    /// Alias of [`Flow::on_error_continue`].
    pub fn on_error_resume(self) -> (r: Flow<In, Out, Mat, Then<S, OkValuesStage, Result<Out, StreamError>>>)
        ensures chained(self, r, OkValuesStage, StageKind::FlowMapOption),
    {
        self.on_error_continue()
    }

    /// Emits the successful payloads before the first error payload; the stream completes there.
    pub fn on_error_complete(self) -> (r: Flow<In, Out, Mat, Then<S, OkPrefixStage, Result<Out, StreamError>>>)
        ensures chained(self, r, OkPrefixStage, StageKind::FlowStatefulMap),
    {
        self.then_stage(StageKind::FlowStatefulMap, OkPrefixStage)
    }

    /// Replaces every error payload with a clone of `fallback`.
    pub fn recover(self, fallback: Out) -> (r: Flow<In, Out, Mat, Then<S, RecoverStage<Out>, Result<Out, StreamError>>>)
        ensures chained(self, r, RecoverStage { fallback }, StageKind::FlowRecover),
    {
        self.then_stage(StageKind::FlowRecover, RecoverStage { fallback })
    }

    /// Alias of [`Flow::recover`].
    pub fn recover_with(self, fallback: Out) -> (r: Flow<In, Out, Mat, Then<S, RecoverStage<Out>, Result<Out, StreamError>>>)
        ensures chained(self, r, RecoverStage { fallback }, StageKind::FlowRecover),
    {
        self.recover(fallback)
    }

    /// Replaces error payloads with `fallback` while `max_retries` lasts; the next one fails the stream.
    pub fn recover_with_retries(self, max_retries: usize, fallback: Out)
        -> (r: Flow<In, Out, Mat, Then<S, RecoverWithRetriesStage<Out>, Result<Out, StreamError>>>)
        ensures chained(self, r, RecoverWithRetriesStage { max_retries, fallback }, StageKind::FlowRecoverWithRetries),
    {
        self.then_stage(StageKind::FlowRecoverWithRetries, RecoverWithRetriesStage { max_retries, fallback })
    }
}

/// Runs `inner` when present and passes the elements on otherwise.
pub struct OptionalStage<S2> {
    pub inner: Option<S2>,
}

impl<T, S2: FlowStage<T, T>> FlowStage<T, T> for OptionalStage<S2> {
    open spec fn ready(&self) -> bool {
        self.inner matches Some(s) ==> s.ready()
    }

    open spec fn yields(&self, input: StreamBody<T>, output: StreamBody<T>) -> bool {
        match self.inner {
            Some(s) => s.yields(input, output),
            None => output.elements@ == input.elements@ && output.end == input.end,
        }
    }

    fn run(self, input: StreamBody<T>) -> (output: StreamBody<T>) {
        match self.inner {
            Some(s) => s.run(input),
            None => input,
        }
    }
}

impl<In, Out, Mat, S> Flow<In, Out, Mat, S> {
    /// Follows this flow with `flow` when it is present; this flow's materialized value is kept.
    pub fn optional_via<Mat2, S2>(self, flow: Option<Flow<Out, Out, Mat2, S2>>) -> (r: Flow<In, Out, Mat, Then<S, OptionalStage<S2>, Out>>)
        ensures
            r.stage.first == self.stage,
            r.mat == self.mat,
            flow matches Some(f) ==> r.stage.second.inner == Some(f.stage)
                && kinds_of(r.graph.nodes@) == kinds_of(self.graph.nodes@) + kinds_of(f.graph.nodes@),
            flow is None ==> r.stage.second.inner is None && r.graph == self.graph,
    {
        let Flow { graph, stage, mat, _pd } = self;
        match flow {
            Some(f) => {
                let Flow { graph: g2, stage: s2, mat: _, _pd: _ } = f;
                let mut g = graph;
                g.append(g2);
                Flow { graph: g, stage: Then::new(stage, OptionalStage { inner: Some(s2) }), mat, _pd: core::marker::PhantomData }
            },
            None => Flow { graph, stage: Then::new(stage, OptionalStage { inner: None }), mat, _pd: core::marker::PhantomData },
        }
    }
}

/// Builds the inner flow with `factory` when the first element arrives and runs its stages; a
/// stream without elements passes its ending on and never builds the inner flow.
pub struct LazyFlowStage<Fac> {
    pub factory: Fac,
}

impl<In, Out, Mat, S: FlowStage<In, Out>, Fac: FnOnce() -> Flow<In, Out, Mat, S>> FlowStage<In, Out> for LazyFlowStage<Fac> {
    open spec fn ready(&self) -> bool {
        &&& call_requires(self.factory, ())
        &&& forall|f: Flow<In, Out, Mat, S>| call_ensures(self.factory, (), f) ==> f.stage.ready()
    }

    open spec fn yields(&self, input: StreamBody<In>, output: StreamBody<Out>) -> bool {
        &&& input.elements@.len() == 0 ==> output.elements@.len() == 0 && output.end == input.end
        &&& input.elements@.len() > 0 ==> exists|f: Flow<In, Out, Mat, S>| #[trigger] call_ensures(self.factory, (), f)
            && f.stage.yields(input, output)
    }

    fn run(self, input: StreamBody<In>) -> (output: StreamBody<Out>) {
        if input.elements.len() == 0 {
            return StreamBody { elements: Vec::new(), end: input.end, ticks: Vec::new() };
        }
        let factory = self.factory;
        let f = factory();
        let ghost f0 = f;
        let Flow { graph: _, stage, mat: _, _pd } = f;
        let out = stage.run(input);
        proof { assert(call_ensures(factory, (), f0)); }
        out
    }
}

/// A lazily built flow leaves the materialized value as it is.
impl<In, Out, M, Mat, S: FlowStage<In, Out>, Fac: FnOnce() -> Flow<In, Out, Mat, S>> MatStage<In, Out, M> for LazyFlowStage<Fac> {
    open spec fn ready_with_mat(&self) -> bool { self.ready() }

    open spec fn runs(&self, input: StreamBody<In>, before: M, output: StreamBody<Out>, after: M) -> bool {
        self.yields(input, output) && after == before
    }

    fn run_with_mat(self, input: StreamBody<In>, mat: M) -> (r: (StreamBody<Out>, M)) {
        (self.run(input), mat)
    }
}

impl<In, Out, Mat: Default, S, Fac: FnOnce() -> Flow<In, Out, Mat, S>> Flow<In, Out, Mat, LazyFlowStage<Fac>> {
    /// A flow whose stages `factory` builds only when the first element arrives; its materialized
    /// value is the default one.
    pub fn lazy_flow(factory: Fac) -> (r: Self)
        ensures
            r.stage == (LazyFlowStage { factory }),
            kinds_of(r.graph.nodes@) == seq![StageKind::Custom],
            call_ensures(Mat::default, (), r.mat),
    {
        let g = add_flow_stage(StreamGraph::new(), StageKind::Custom);
        proof { assert(kinds_of(g.nodes@) =~= seq![StageKind::Custom]); }
        Flow { graph: g, stage: LazyFlowStage { factory }, mat: Mat::default(), _pd: core::marker::PhantomData }
    }

    /// Alias of [`Flow::lazy_flow`].
    pub fn lazy_future_flow(factory: Fac) -> (r: Self)
        ensures
            r.stage == (LazyFlowStage { factory }),
            kinds_of(r.graph.nodes@) == seq![StageKind::Custom],
            call_ensures(Mat::default, (), r.mat),
    {
        Self::lazy_flow(factory)
    }

    /// Alias of [`Flow::lazy_flow`].
    pub fn lazy_completion_stage_flow(factory: Fac) -> (r: Self)
        ensures
            r.stage == (LazyFlowStage { factory }),
            kinds_of(r.graph.nodes@) == seq![StageKind::Custom],
            call_ensures(Mat::default, (), r.mat),
    {
        Self::lazy_flow(factory)
    }
}

impl<In, Out, Mat, S> Flow<In, Out, Mat, S> {
    /// Emits an element once no newer one follows within `ticks`; timing is not modelled, so every
    /// element passes. Fails when `ticks` is zero.
    pub fn debounce(self, ticks: usize) -> (r: Result<Self, StreamDslError>)
        ensures
            ticks == 0 <==> r is Err,
            r matches Err(e) ==> e == spec_zero_argument("ticks"),
            r matches Ok(f) ==> extended(self, f, StageKind::FlowDebounce),
    {
        let _ = validate_positive_argument("ticks", ticks)?;
        Ok(self.pass(StageKind::FlowDebounce))
    }

    /// Emits the latest element at `ticks` intervals; timing is not modelled, so every element
    /// passes. Fails when `ticks` is zero.
    pub fn sample(self, ticks: usize) -> (r: Result<Self, StreamDslError>)
        ensures
            ticks == 0 <==> r is Err,
            r matches Err(e) ==> e == spec_zero_argument("ticks"),
            r matches Ok(f) ==> extended(self, f, StageKind::FlowSample),
    {
        let _ = validate_positive_argument("ticks", ticks)?;
        Ok(self.pass(StageKind::FlowSample))
    }

    /// Fails the stream when downstream backpressure lasts `ticks`; timing is not modelled, so
    /// every element passes. Fails when `ticks` is zero.
    pub fn backpressure_timeout(self, ticks: usize) -> (r: Result<Self, StreamDslError>)
        ensures
            ticks == 0 <==> r is Err,
            r matches Err(e) ==> e == spec_zero_argument("ticks"),
            r matches Ok(f) ==> extended(self, f, StageKind::FlowBackpressureTimeout),
    {
        let _ = validate_positive_argument("ticks", ticks)?;
        Ok(self.pass(StageKind::FlowBackpressureTimeout))
    }

    /// Fails the stream when it has not completed within `ticks`; timing is not modelled, so
    /// every element passes. Fails when `ticks` is zero.
    pub fn completion_timeout(self, ticks: usize) -> (r: Result<Self, StreamDslError>)
        ensures
            ticks == 0 <==> r is Err,
            r matches Err(e) ==> e == spec_zero_argument("ticks"),
            r matches Ok(f) ==> extended(self, f, StageKind::FlowCompletionTimeout),
    {
        let _ = validate_positive_argument("ticks", ticks)?;
        Ok(self.pass(StageKind::FlowCompletionTimeout))
    }

    /// Fails the stream when no element arrives for `ticks`; timing is not modelled, so every
    /// element passes. Fails when `ticks` is zero.
    pub fn idle_timeout(self, ticks: usize) -> (r: Result<Self, StreamDslError>)
        ensures
            ticks == 0 <==> r is Err,
            r matches Err(e) ==> e == spec_zero_argument("ticks"),
            r matches Ok(f) ==> extended(self, f, StageKind::FlowIdleTimeout),
    {
        let _ = validate_positive_argument("ticks", ticks)?;
        Ok(self.pass(StageKind::FlowIdleTimeout))
    }

    /// Fails the stream when the first element does not arrive within `ticks`; timing is not
    /// modelled, so every element passes. Fails when `ticks` is zero.
    pub fn initial_timeout(self, ticks: usize) -> (r: Result<Self, StreamDslError>)
        ensures
            ticks == 0 <==> r is Err,
            r matches Err(e) ==> e == spec_zero_argument("ticks"),
            r matches Ok(f) ==> extended(self, f, StageKind::FlowInitialTimeout),
    {
        let _ = validate_positive_argument("ticks", ticks)?;
        Ok(self.pass(StageKind::FlowInitialTimeout))
    }

    /// Keeps the elements whose key, given by `key_fn`, has not occurred before.
    pub fn distinct_by<K: GroupKey, F: FnMut(&Out) -> K>(self, key_fn: F)
        -> (r: Flow<In, Out, Mat, Then<S, DistinctByStage<F>, Out>>)
        ensures
            r.stage.first == self.stage,
            r.stage.second == (DistinctByStage { key_fn }),
            kinds_of(r.graph.nodes@) == kinds_of(self.graph.nodes@).push(StageKind::FlowStatefulMap).push(StageKind::FlowMapOption),
            r.mat == self.mat,
    {
        self.then_stage(StageKind::FlowStatefulMap, DistinctByStage { key_fn }).pass(StageKind::FlowMapOption)
    }

    /// Maps every element with `mapper` and a resource that `resource_factory` creates when the
    /// stream starts; `mapper` takes the resource with each element and hands it back with the
    /// output.
    pub fn map_with_resource<T, R, FR: FnOnce() -> R, FM: FnMut(R, Out) -> (R, T)>(self, resource_factory: FR, mapper: FM)
        -> (r: Flow<In, T, Mat, Then<S, crate::stages::ResourceMapStage<FR, FM>, Out>>)
        ensures chained(self, r, crate::stages::ResourceMapStage { factory: resource_factory, mapper }, StageKind::FlowStatefulMap),
    {
        self.then_stage(StageKind::FlowStatefulMap, crate::stages::ResourceMapStage { factory: resource_factory, mapper })
    }

    /// Maps every element, wrapped as a one-element prefix, to an inner source and emits the inner
    /// sources' elements one after the other. Fails when `prefix` is zero.
    pub fn flat_map_prefix<T, M, F: FnMut(Vec<Out>) -> Source<T, M>>(self, prefix: usize, factory: F)
        -> (r: Result<Flow<In, T, Mat, Then<Then<S, WrapStage, Out>, FlatMapConcatStage<F>, Vec<Out>>>, StreamDslError>)
        ensures
            prefix == 0 <==> r is Err,
            r matches Err(e) ==> e == spec_zero_argument("prefix"),
            r matches Ok(f) ==> f.stage.first.first == self.stage && f.stage.first.second == WrapStage
                && f.stage.second == (FlatMapConcatStage { func: factory })
                && kinds_of(f.graph.nodes@) == kinds_of(self.graph.nodes@).push(StageKind::FlowMap).push(StageKind::FlowFlatMapMerge)
                && f.mat == self.mat,
    {
        let _ = validate_positive_argument("prefix", prefix)?;
        Ok(self.then_stage(StageKind::FlowMap, WrapStage).then_stage(StageKind::FlowFlatMapMerge, FlatMapConcatStage { func: factory }))
    }

    /// Views this flow as a flow with a unit context: the context is dropped before the flow's
    /// stages and attached again after them.
    pub fn as_flow_with_context(self)
        -> (r: FlowWithContext<(), In, Out, Mat, Then<Then<SecondStage, S, In>, UnitContextStage, Out>>)
        ensures
            r.inner.stage.first.first == SecondStage,
            r.inner.stage.first.second == self.stage,
            r.inner.stage.second == UnitContextStage,
            r.inner.mat == self.mat,
            kinds_of(r.inner.graph.nodes@) == seq![StageKind::FlowMap] + kinds_of(self.graph.nodes@) + seq![StageKind::FlowMap],
    {
        let Flow { graph, stage, mat, _pd } = self;
        let mut joined = add_flow_stage(StreamGraph::new(), StageKind::FlowMap);
        joined.append(graph);
        let joined = add_flow_stage(joined, StageKind::FlowMap);
        FlowWithContext::from_flow(Flow {
            graph: joined,
            stage: Then::new(Then::new(SecondStage, stage), UnitContextStage),
            mat,
            _pd: core::marker::PhantomData,
        })
    }
}

impl<In, Out: GroupKey, Mat, S> Flow<In, Out, Mat, S> {
    /// Keeps the elements that have not occurred before.
    pub fn distinct(self) -> (r: Flow<In, Out, Mat, Then<S, DistinctStage, Out>>)
        ensures
            r.stage.first == self.stage,
            r.stage.second == DistinctStage,
            kinds_of(r.graph.nodes@) == kinds_of(self.graph.nodes@).push(StageKind::FlowStatefulMap).push(StageKind::FlowMapOption),
            r.mat == self.mat,
    {
        self.then_stage(StageKind::FlowStatefulMap, DistinctStage).pass(StageKind::FlowMapOption)
    }

    /// Drops each element equal to the one just before it.
    pub fn drop_repeated(self) -> (r: Flow<In, Out, Mat, Then<S, DropRepeatedStage, Out>>)
        ensures
            r.stage.first == self.stage,
            r.stage.second == DropRepeatedStage,
            kinds_of(r.graph.nodes@) == kinds_of(self.graph.nodes@).push(StageKind::FlowStatefulMap).push(StageKind::FlowMapOption),
            r.mat == self.mat,
    {
        self.then_stage(StageKind::FlowStatefulMap, DropRepeatedStage).pass(StageKind::FlowMapOption)
    }
}

impl<In, Out> Flow<In, Out, StreamNotUsed, Identity> {
    /// A flow built from a sink and a source; both are dropped and the flow has no stages.
    pub fn from_sink_and_source<Mat1, Mat2, L>(sink: Sink<In, Mat1, L>, source: Source<Out, Mat2>) -> (r: Self)
        ensures r.graph.nodes@.len() == 0, r.mat == (StreamNotUsed {}),
    {
        Flow { graph: StreamGraph::new(), stage: Identity, mat: StreamNotUsed {}, _pd: core::marker::PhantomData }
    }

    /// Alias of [`Flow::from_sink_and_source`].
    pub fn from_sink_and_source_coupled<Mat1, Mat2, L>(sink: Sink<In, Mat1, L>, source: Source<Out, Mat2>) -> (r: Self)
        ensures r.graph.nodes@.len() == 0, r.mat == (StreamNotUsed {}),
    {
        Self::from_sink_and_source(sink, source)
    }
}

impl<In, Out, Mat, S> Flow<In, Out, Mat, S> {
    /// Maps every element to a computation and emits the results in input order, waiting on each;
    /// fails when `parallelism` is zero.
    pub fn map_async<T, P: Pollable<T>, F: FnMut(Out) -> P>(self, parallelism: usize, func: F)
        -> (r: Result<Flow<In, T, Mat, Then<S, MapAsyncStage<F>, Out>>, StreamDslError>)
        ensures
            parallelism == 0 <==> r is Err,
            r matches Err(e) ==> e == spec_zero_argument("parallelism"),
            r matches Ok(f) ==> chained(self, f, MapAsyncStage { func }, StageKind::FlowMapAsync),
    {
        let _ = validate_positive_argument("parallelism", parallelism)?;
        Ok(self.then_stage(StageKind::FlowMapAsync, MapAsyncStage { func }))
    }

    /// Alias of [`Flow::map_async`].
    pub fn map_async_unordered<T, P: Pollable<T>, F: FnMut(Out) -> P>(self, parallelism: usize, func: F)
        -> (r: Result<Flow<In, T, Mat, Then<S, MapAsyncStage<F>, Out>>, StreamDslError>)
        ensures
            parallelism == 0 <==> r is Err,
            r matches Err(e) ==> e == spec_zero_argument("parallelism"),
            r matches Ok(f) ==> chained(self, f, MapAsyncStage { func }, StageKind::FlowMapAsync),
    {
        self.map_async(parallelism, func)
    }

    /// Alias of [`Flow::map_async`]; the partition count is not used.
    pub fn map_async_partitioned<T, P: Pollable<T>, F: FnMut(Out) -> P>(self, parallelism: usize, partitions: usize, func: F)
        -> (r: Result<Flow<In, T, Mat, Then<S, MapAsyncStage<F>, Out>>, StreamDslError>)
        ensures
            parallelism == 0 <==> r is Err,
            r matches Err(e) ==> e == spec_zero_argument("parallelism"),
            r matches Ok(f) ==> chained(self, f, MapAsyncStage { func }, StageKind::FlowMapAsync),
    {
        self.map_async(parallelism, func)
    }

    /// Alias of [`Flow::map_async`]; the partition count is not used.
    pub fn map_async_partitioned_unordered<T, P: Pollable<T>, F: FnMut(Out) -> P>(self, parallelism: usize, partitions: usize, func: F)
        -> (r: Result<Flow<In, T, Mat, Then<S, MapAsyncStage<F>, Out>>, StreamDslError>)
        ensures
            parallelism == 0 <==> r is Err,
            r matches Err(e) ==> e == spec_zero_argument("parallelism"),
            r matches Ok(f) ==> chained(self, f, MapAsyncStage { func }, StageKind::FlowMapAsync),
    {
        self.map_async(parallelism, func)
    }

    /// Asks an endpoint for every element; alias of [`Flow::map_async`].
    pub fn ask<T, P: Pollable<T>, F: FnMut(Out) -> P>(self, parallelism: usize, func: F)
        -> (r: Result<Flow<In, T, Mat, Then<S, MapAsyncStage<F>, Out>>, StreamDslError>)
        ensures
            parallelism == 0 <==> r is Err,
            r matches Err(e) ==> e == spec_zero_argument("parallelism"),
            r matches Ok(f) ==> chained(self, f, MapAsyncStage { func }, StageKind::FlowMapAsync),
    {
        self.map_async(parallelism, func)
    }

    /// Alias of [`Flow::ask`].
    pub fn ask_with_status<T, P: Pollable<T>, F: FnMut(Out) -> P>(self, parallelism: usize, func: F)
        -> (r: Result<Flow<In, T, Mat, Then<S, MapAsyncStage<F>, Out>>, StreamDslError>)
        ensures
            parallelism == 0 <==> r is Err,
            r matches Err(e) ==> e == spec_zero_argument("parallelism"),
            r matches Ok(f) ==> chained(self, f, MapAsyncStage { func }, StageKind::FlowMapAsync),
    {
        self.ask(parallelism, func)
    }

    /// Emits the accumulator after every element; each step's computation is polled once, and a
    /// pending one leaves the accumulator as it was.
    pub fn fold_async<Acc, P: Pollable<Acc>, F: FnMut(Acc, Out) -> P>(self, initial: Acc, func: F)
        -> (r: Flow<In, Acc, Mat, Then<S, AsyncScanStage<Acc, F>, Out>>)
        ensures chained(self, r, AsyncScanStage { initial, func, emit_initial: false }, StageKind::FlowStatefulMap),
    {
        self.then_stage(StageKind::FlowStatefulMap, AsyncScanStage { initial, func, emit_initial: false })
    }

    /// Emits the initial accumulator and then the accumulator after every element; each step's
    /// computation is polled once, and a pending one leaves the accumulator as it was.
    pub fn scan_async<Acc, P: Pollable<Acc>, F: FnMut(Acc, Out) -> P>(self, initial: Acc, func: F)
        -> (r: Flow<In, Acc, Mat, Then<S, AsyncScanStage<Acc, F>, Out>>)
        ensures chained(self, r, AsyncScanStage { initial, func, emit_initial: true }, StageKind::FlowScan),
    {
        self.then_stage(StageKind::FlowScan, AsyncScanStage { initial, func, emit_initial: true })
    }
}

impl<In, Ctx, Req, Mat, S> Flow<In, (Ctx, Req), Mat, S> {
    /// Asks an endpoint for the request of every (context, request) pair and emits the context
    /// with the answer; fails when `parallelism` is zero.
    pub fn ask_with_context<T, P: Pollable<T>, F: FnMut(Req) -> P>(self, parallelism: usize, func: F)
        -> (r: Result<Flow<In, (Ctx, T), Mat, Then<S, AskWithContextStage<F>, (Ctx, Req)>>, StreamDslError>)
        ensures
            parallelism == 0 <==> r is Err,
            r matches Err(e) ==> e == spec_zero_argument("parallelism"),
            r matches Ok(f) ==> chained(self, f, AskWithContextStage { func }, StageKind::FlowMapAsync),
    {
        let _ = validate_positive_argument("parallelism", parallelism)?;
        Ok(self.then_stage(StageKind::FlowMapAsync, AskWithContextStage { func }))
    }

    /// Alias of [`Flow::ask_with_context`].
    pub fn ask_with_status_and_context<T, P: Pollable<T>, F: FnMut(Req) -> P>(self, parallelism: usize, func: F)
        -> (r: Result<Flow<In, (Ctx, T), Mat, Then<S, AskWithContextStage<F>, (Ctx, Req)>>, StreamDslError>)
        ensures
            parallelism == 0 <==> r is Err,
            r matches Err(e) ==> e == spec_zero_argument("parallelism"),
            r matches Ok(f) ==> chained(self, f, AskWithContextStage { func }, StageKind::FlowMapAsync),
    {
        self.ask_with_context(parallelism, func)
    }
}

impl<In, Out, Mat, S> Flow<In, Out, Mat, S> {
    /// Keeps the elements that convert into `T`, converted.
    pub fn collect_type<T>(self) -> (r: Flow<In, T, Mat, Then<S, CollectTypeStage, Out>>)
        where Out: TryInto<T>,
        ensures chained(self, r, CollectTypeStage, StageKind::FlowMapOption),
    {
        self.then_stage(StageKind::FlowMapOption, CollectTypeStage)
    }
}

} // verus!
