//! Operators on sources: each adds a stage to the blueprint and states what the stage does to the
//! emitted elements.
use vstd::prelude::*;
use crate::body::{StreamBody, StreamEnd, arrivals, spec_collected, spec_take, spec_drop, mapped_by, filtered_by, rejected_by,
    accepted_prefix, spec_groups, somes, flatten};
use crate::error::{StreamError, StreamDslError, validate_positive_argument, spec_zero_argument};
use crate::graph::{StreamGraph, kinds_of};
use crate::keyed::{GroupKey, admitted};
use crate::ops::{first_accepted, option_mapped_by, concat_mapped_by, scanned_by, folded_by, reduced_by, interspersed,
    repeated_each, windowed, oks, errors_mapped_by, pairs_spread_by, recovered_with, error_count, emitted_segments,
    split_after_state, split_before_state, scan_trace};
use crate::source::{Source, stage_added, passes_through, add_flow_stage};
use crate::timed::{TakeWithinStage, in_time_prefix, timed_concat_mapped_by};
use crate::stages::{FlowStage, Identity, MapStage, FilterStage, MapOptionStage, MapConcatStage, StatefulMapStage,
    StatefulMapConcatStage, built_total, TakeStage, DropStage, TakeWhileStage, DropWhileStage, TakeUntilStage, GroupedStage,
    SlidingStage, ScanStage, ReduceStage, IntersperseStage, ZipWithIndexStage, BroadcastStage, WrapStage, UnzipStage,
    UnzipWithStage, FlattenStage, FlattenOptionalStage, MapErrorStage, OkValuesStage, OkPrefixStage, RecoverStage,
    RecoverWithRetriesStage, SplitStage, GroupByStage, PartitionStage, FlatMapConcatStage, inner_sources_for,
    inner_elements, inner_end};
use crate::stage_kind::StageKind;
use crate::sub_flow::SourceSubFlow;
use crate::flow::ThrottleMode;
use crate::buffer::OverflowPolicy;
use crate::mat::{MatCombineRule, StreamCompletion, StreamDone};
use crate::sink::{Sink, IgnoreSink};

verus! {

impl<Out, Mat> Source<Out, Mat> {
    /// Adds a flow stage of `kind` that runs `stage` over the emitted elements.
    pub fn through<T, S: FlowStage<Out, T>>(self, kind: StageKind, stage: S) -> (r: Source<T, Mat>)
        requires stage.ready(),
        ensures stage.yields(self.body, r.body), stage_added(self, r, kind),
    {
        let Source { graph, body, mat } = self;
        let body = stage.run(body);
        Source { graph: add_flow_stage(graph, kind), body, mat }
    }

    /// Adds a stage of `kind` that passes every element through unchanged.
    pub fn pass(self, kind: StageKind) -> (r: Source<Out, Mat>)
        ensures passes_through(self, r, kind),
    {
        self.through(kind, Identity)
    }

    /// Maps every element through `func`.
    pub fn map<T, F: FnMut(Out) -> T>(self, func: F) -> (r: Source<T, Mat>)
        requires forall|a: Out| call_requires(func, (a,)),
        ensures
            mapped_by(func, self.body.elements@, r.body.elements@),
            r.body.end == self.body.end,
            stage_added(self, r, StageKind::FlowMap),
    {
        self.through(StageKind::FlowMap, MapStage { func })
    }

    /// Maps every element to a vector of outputs and emits them in order.
    pub fn map_concat<T, F: FnMut(Out) -> Vec<T>>(self, func: F) -> (r: Source<T, Mat>)
        requires forall|a: Out| call_requires(func, (a,)),
        ensures
            timed_concat_mapped_by(func, self.body.elements@, arrivals(self.body), r.body.elements@, arrivals(r.body)),
            r.body.end == self.body.end,
            stage_added(self, r, StageKind::FlowMapConcat),
    {
        self.through(StageKind::FlowMapConcat, MapConcatStage { func })
    }

    /// Maps every element to an optional output and emits the present ones.
    pub fn map_option<T, F: FnMut(Out) -> Option<T>>(self, func: F) -> (r: Source<T, Mat>)
        requires forall|a: Out| call_requires(func, (a,)),
        ensures
            option_mapped_by(func, self.body.elements@, r.body.elements@),
            r.body.end == self.body.end,
            stage_added(self, r, StageKind::FlowMapOption),
    {
        self.through(StageKind::FlowMapOption, MapOptionStage { func })
    }

    /// Builds a mapper with `factory` when the stream starts and maps every element through it.
    pub fn stateful_map<T, M: FnMut(Out) -> T, Fac: FnOnce() -> M>(self, factory: Fac) -> (r: Source<T, Mat>)
        requires
            call_requires(factory, ()),
            forall|m: M| call_ensures(factory, (), m) ==> forall|a: Out| call_requires(m, (a,)),
        ensures
            exists|m: M| #[trigger] built_total::<Out, T, M, Fac>(factory, m)
                && mapped_by(m, self.body.elements@, r.body.elements@),
            r.body.end == self.body.end,
            stage_added(self, r, StageKind::FlowStatefulMap),
    {
        self.through(StageKind::FlowStatefulMap, StatefulMapStage { factory })
    }

    /// Builds a mapper with `factory` when the stream starts and emits the vectors it maps elements to.
    pub fn stateful_map_concat<T, M: FnMut(Out) -> Vec<T>, Fac: FnOnce() -> M>(self, factory: Fac) -> (r: Source<T, Mat>)
        requires
            call_requires(factory, ()),
            forall|m: M| call_ensures(factory, (), m) ==> forall|a: Out| call_requires(m, (a,)),
        ensures
            exists|m: M| #[trigger] built_total::<Out, Vec<T>, M, Fac>(factory, m)
                && concat_mapped_by(m, self.body.elements@, r.body.elements@),
            r.body.end == self.body.end,
            stage_added(self, r, StageKind::FlowStatefulMapConcat),
    {
        self.through(StageKind::FlowStatefulMapConcat, StatefulMapConcatStage { factory })
    }

    /// Keeps the elements that `predicate` accepts.
    pub fn filter<F: FnMut(&Out) -> bool>(self, predicate: F) -> (r: Source<Out, Mat>)
        requires forall|a: &Out| call_requires(predicate, (a,)),
        ensures
            filtered_by(predicate, self.body.elements@, r.body.elements@),
            r.body.end == self.body.end,
            stage_added(self, r, StageKind::FlowFilter),
    {
        self.through(StageKind::FlowFilter, FilterStage { predicate, keep: true })
    }

    /// Keeps the elements that `predicate` rejects.
    pub fn filter_not<F: FnMut(&Out) -> bool>(self, predicate: F) -> (r: Source<Out, Mat>)
        requires forall|a: &Out| call_requires(predicate, (a,)),
        ensures
            rejected_by(predicate, self.body.elements@, r.body.elements@),
            r.body.end == self.body.end,
            stage_added(self, r, StageKind::FlowFilter),
    {
        self.through(StageKind::FlowFilter, FilterStage { predicate, keep: false })
    }

    /// Skips the first `count` elements.
    pub fn drop(self, count: usize) -> (r: Source<Out, Mat>)
        ensures
            r.body.elements@ == spec_drop(self.body.elements@, count as nat),
            r.body.end == self.body.end,
            stage_added(self, r, StageKind::FlowDrop),
    {
        self.through(StageKind::FlowDrop, DropStage { count })
    }

    /// Keeps the first `count` elements; the stream completes once they have passed.
    pub fn take(self, count: usize) -> (r: Source<Out, Mat>)
        ensures
            (r.body.elements@, r.body.end) == spec_take(self.body.elements@, self.body.end, count as nat),
            stage_added(self, r, StageKind::FlowTake),
    {
        self.through(StageKind::FlowTake, TakeStage { count })
    }

    /// Skips elements while `predicate` accepts them.
    pub fn drop_while<F: FnMut(&Out) -> bool>(self, predicate: F) -> (r: Source<Out, Mat>)
        requires forall|a: &Out| call_requires(predicate, (a,)),
        ensures
            exists|k: int| #![auto] accepted_prefix(predicate, self.body.elements@, k)
                && r.body.elements@ == self.body.elements@.skip(k),
            r.body.end == self.body.end,
            stage_added(self, r, StageKind::FlowDropWhile),
    {
        self.through(StageKind::FlowDropWhile, DropWhileStage { predicate })
    }

    /// Keeps elements while `predicate` accepts them; the stream completes at the first rejected one.
    pub fn take_while<F: FnMut(&Out) -> bool>(self, predicate: F) -> (r: Source<Out, Mat>)
        requires forall|a: &Out| call_requires(predicate, (a,)),
        ensures
            exists|k: int| #![auto] accepted_prefix(predicate, self.body.elements@, k)
                && r.body.elements@ == self.body.elements@.take(k)
                && r.body.end == (if k < self.body.elements@.len() { StreamEnd::Completed } else { self.body.end }),
            stage_added(self, r, StageKind::FlowTakeWhile),
    {
        self.through(StageKind::FlowTakeWhile, TakeWhileStage { predicate })
    }

    /// Keeps elements up to and including the first one `predicate` accepts; the stream completes there.
    pub fn take_until<F: FnMut(&Out) -> bool>(self, predicate: F) -> (r: Source<Out, Mat>)
        requires forall|a: &Out| call_requires(predicate, (a,)),
        ensures
            exists|k: int| #![auto] first_accepted(predicate, self.body.elements@, k)
                && (k < self.body.elements@.len() ==> r.body.elements@ == self.body.elements@.take(k + 1)
                    && r.body.end == StreamEnd::Completed)
                && (k == self.body.elements@.len() ==> r.body.elements@ == self.body.elements@
                    && r.body.end == self.body.end),
            stage_added(self, r, StageKind::FlowTakeUntil),
    {
        self.through(StageKind::FlowTakeUntil, TakeUntilStage { predicate })
    }

    /// Emits chunks of `size` elements; fails when `size` is zero.
    pub fn grouped(self, size: usize) -> (r: Result<Source<Vec<Out>, Mat>, StreamDslError>)
        ensures
            size == 0 <==> r is Err,
            r matches Err(e) ==> e == spec_zero_argument("size"),
            r matches Ok(s) ==> s.body.elements@.map_values(|c: Vec<Out>| c@)
                == spec_groups(self.body.elements@, size as nat, self.body.end)
                && s.body.end == self.body.end && stage_added(self, s, StageKind::FlowGrouped),
    {
        let _ = validate_positive_argument("size", size)?;
        Ok(self.through(StageKind::FlowGrouped, GroupedStage { size }))
    }

    /// Emits chunks of at most `size` elements, as `grouped` does; fails when `size` is zero.
    pub fn batch(self, size: usize) -> (r: Result<Source<Vec<Out>, Mat>, StreamDslError>)
        ensures
            size == 0 <==> r is Err,
            r matches Err(e) ==> e == spec_zero_argument("size"),
            r matches Ok(s) ==> s.body.elements@.map_values(|c: Vec<Out>| c@)
                == spec_groups(self.body.elements@, size as nat, self.body.end)
                && s.body.end == self.body.end && stage_added(self, s, StageKind::FlowBatch),
    {
        let _ = validate_positive_argument("size", size)?;
        Ok(self.through(StageKind::FlowBatch, GroupedStage { size }))
    }

    /// Emits every window of `size` consecutive elements; fails when `size` is zero.
    pub fn sliding(self, size: usize) -> (r: Result<Source<Vec<Out>, Mat>, StreamDslError>)
        where Out: Clone,
        ensures
            size == 0 <==> r is Err,
            r matches Err(e) ==> e == spec_zero_argument("size"),
            r matches Ok(s) ==> windowed(self.body.elements@, size as nat, s.body.elements@.map_values(|w: Vec<Out>| w@))
                && s.body.end == self.body.end && stage_added(self, s, StageKind::FlowSliding),
    {
        let _ = validate_positive_argument("size", size)?;
        Ok(self.through(StageKind::FlowSliding, SlidingStage { size }))
    }

    /// Emits `initial` and then every running accumulation of `func` over the elements.
    pub fn scan<Acc: Clone, F: FnMut(Acc, Out) -> Acc>(self, initial: Acc, func: F) -> (r: Source<Acc, Mat>)
        requires forall|a: Acc, t: Out| call_requires(func, (a, t)),
        ensures
            self.body.elements@.len() > 0 || self.body.end == StreamEnd::Completed
                ==> scanned_by(func, initial, self.body.elements@, r.body.elements@),
            self.body.elements@.len() == 0 && self.body.end != StreamEnd::Completed ==> r.body.elements@.len() == 0,
            r.body.end == self.body.end,
            stage_added(self, r, StageKind::FlowScan),
    {
        self.through(StageKind::FlowScan, ScanStage { initial, func })
    }

    /// Emits every running accumulation of `func` over the elements, without `initial`.
    pub fn fold<Acc: Clone, F: FnMut(Acc, Out) -> Acc>(self, initial: Acc, func: F) -> (r: Source<Acc, Mat>)
        requires forall|a: Acc, t: Out| call_requires(func, (a, t)),
        ensures
            folded_by(func, initial, self.body.elements@, r.body.elements@),
            r.body.end == self.body.end,
            kinds_of(r.graph.nodes@) == kinds_of(self.graph.nodes@).push(StageKind::FlowScan).push(StageKind::FlowDrop),
            r.mat == self.mat,
    {
        let ghost xs = self.body.elements@;
        let scanned = self.scan(initial, func);
        let ghost ys = scanned.body.elements@;
        let r = scanned.drop(1);
        proof {
            if xs.len() > 0 || self.body.end == StreamEnd::Completed {
                let accs = choose|accs: Seq<Acc>| #![auto] scan_trace(func, initial, xs, accs)
                    && crate::body::clones_of(accs, ys);
                assert(crate::body::clones_of(accs.drop_first(), r.body.elements@)) by {
                    assert(r.body.elements@ == ys.skip(1));
                    assert forall|i: int| 0 <= i < accs.drop_first().len()
                        implies cloned(accs.drop_first()[i], #[trigger] r.body.elements@[i]) by {
                        assert(accs.drop_first()[i] == accs[i + 1]);
                        assert(r.body.elements@[i] == ys[i + 1]);
                    }
                }
            } else {
                let accs = seq![initial];
                assert(scan_trace(func, initial, xs, accs));
                assert(crate::body::clones_of(accs.drop_first(), r.body.elements@));
            }
        }
        r
    }

    /// Emits every running reduction of `func`, seeded with the first element.
    pub fn reduce<F: FnMut(Out, Out) -> Out>(self, func: F) -> (r: Source<Out, Mat>)
        where Out: Clone,
        requires forall|a: Out, b: Out| call_requires(func, (a, b)),
        ensures
            reduced_by(func, self.body.elements@, r.body.elements@),
            r.body.end == self.body.end,
            kinds_of(r.graph.nodes@) == kinds_of(self.graph.nodes@).push(StageKind::FlowScan)
                .push(StageKind::FlowDrop).push(StageKind::FlowMapOption),
            r.mat == self.mat,
    {
        let Source { graph, body, mat } = self;
        let body = ReduceStage { func }.run(body);
        let graph = add_flow_stage(graph, StageKind::FlowScan);
        let graph = add_flow_stage(graph, StageKind::FlowDrop);
        let graph = add_flow_stage(graph, StageKind::FlowMapOption);
        Source { graph, body, mat }
    }

    /// Emits `start`, the elements separated by `inject`, and `end` when the stream completes.
    pub fn intersperse(self, start: Out, inject: Out, end: Out) -> (r: Source<Out, Mat>)
        where Out: Clone,
        ensures
            interspersed(self.body.elements@, start, inject, end, self.body.end == StreamEnd::Completed,
                r.body.elements@),
            r.body.end == self.body.end,
            stage_added(self, r, StageKind::FlowIntersperse),
    {
        self.through(StageKind::FlowIntersperse, IntersperseStage { start, inject, end })
    }

    /// Maps every element to an inner source and emits the inner sources' elements one after the other.
    pub fn flat_map_concat<T, M, F: FnMut(Out) -> Source<T, M>>(self, func: F) -> (r: Source<T, Mat>)
        requires forall|a: Out| call_requires(func, (a,)),
        ensures
            exists|ss: Seq<Source<T, M>>| #[trigger] inner_sources_for(func, self.body.elements@, ss)
                && r.body.elements@ == inner_elements(ss)
                && r.body.end == inner_end(ss, self.body.end),
            stage_added(self, r, StageKind::FlowFlatMapConcat),
    {
        self.through(StageKind::FlowFlatMapConcat, FlatMapConcatStage { func })
    }

    /// Maps every element to an inner source with at most `breadth` of them open; an inner source is
    /// drained before the next element is taken, so the output is that of `flat_map_concat`.
    /// Fails when `breadth` is zero.
    pub fn flat_map_merge<T, M, F: FnMut(Out) -> Source<T, M>>(self, breadth: usize, func: F) -> (r: Result<Source<T, Mat>, StreamDslError>)
        requires forall|a: Out| call_requires(func, (a,)),
        ensures
            breadth == 0 <==> r is Err,
            r matches Err(e) ==> e == spec_zero_argument("breadth"),
            r matches Ok(s) ==> (exists|ss: Seq<Source<T, M>>| #[trigger] inner_sources_for(func, self.body.elements@, ss)
                && s.body.elements@ == inner_elements(ss)
                && s.body.end == inner_end(ss, self.body.end))
                && stage_added(self, s, StageKind::FlowFlatMapMerge),
    {
        let _ = validate_positive_argument("breadth", breadth)?;
        Ok(self.through(StageKind::FlowFlatMapMerge, FlatMapConcatStage { func }))
    }

    /// Adds an asynchronous boundary; the elements pass unchanged.
    pub fn async_boundary(self) -> (r: Source<Out, Mat>)
        ensures passes_through(self, r, StageKind::FlowAsyncBoundary),
    {
        self.pass(StageKind::FlowAsyncBoundary)
    }

    /// Alias of [`Source::async_boundary`].
    pub fn detach(self) -> (r: Source<Out, Mat>)
        ensures passes_through(self, r, StageKind::FlowAsyncBoundary),
    {
        self.async_boundary()
    }

    /// Buffers up to `capacity` elements between upstream and downstream; the elements pass
    /// unchanged. Fails when `capacity` is zero.
    pub fn buffer(self, capacity: usize, overflow_policy: OverflowPolicy) -> (r: Result<Source<Out, Mat>, StreamDslError>)
        ensures
            capacity == 0 <==> r is Err,
            r matches Err(e) ==> e == spec_zero_argument("capacity"),
            r matches Ok(s) ==> passes_through(self, s, StageKind::FlowBuffer),
    {
        let _ = validate_positive_argument("capacity", capacity)?;
        Ok(self.pass(StageKind::FlowBuffer))
    }

    /// Bounds the rate of elements to `capacity` per tick; the elements pass unchanged.
    /// Fails when `capacity` is zero.
    pub fn throttle(self, capacity: usize, mode: ThrottleMode) -> (r: Result<Source<Out, Mat>, StreamDslError>)
        ensures
            capacity == 0 <==> r is Err,
            r matches Err(e) ==> e == spec_zero_argument("capacity"),
            r matches Ok(s) ==> passes_through(self, s, StageKind::FlowThrottle),
    {
        let _ = validate_positive_argument("capacity", capacity)?;
        Ok(self.pass(StageKind::FlowThrottle))
    }

    /// Delays every element by `ticks`; the elements pass unchanged. Fails when `ticks` is zero.
    pub fn delay(self, ticks: usize) -> (r: Result<Source<Out, Mat>, StreamDslError>)
        ensures
            ticks == 0 <==> r is Err,
            r matches Err(e) ==> e == spec_zero_argument("ticks"),
            r matches Ok(s) ==> passes_through(self, s, StageKind::FlowDelay),
    {
        let _ = validate_positive_argument("ticks", ticks)?;
        Ok(self.pass(StageKind::FlowDelay))
    }

    /// Delays the first element by `ticks`; the elements pass unchanged. Fails when `ticks` is zero.
    pub fn initial_delay(self, ticks: usize) -> (r: Result<Source<Out, Mat>, StreamDslError>)
        ensures
            ticks == 0 <==> r is Err,
            r matches Err(e) ==> e == spec_zero_argument("ticks"),
            r matches Ok(s) ==> passes_through(self, s, StageKind::FlowInitialDelay),
    {
        let _ = validate_positive_argument("ticks", ticks)?;
        Ok(self.pass(StageKind::FlowInitialDelay))
    }

    /// Keeps the elements that arrive before drive step `ticks`; the stream completes when the
    /// window closes. Fails when `ticks` is zero.
    pub fn take_within(self, ticks: usize) -> (r: Result<Source<Out, Mat>, StreamDslError>)
        ensures
            ticks == 0 <==> r is Err,
            r matches Err(e) ==> e == spec_zero_argument("ticks"),
            r matches Ok(s) ==> (exists|k: int| #[trigger] in_time_prefix(arrivals(self.body), ticks as int, k)
                && s.body.elements@ == self.body.elements@.take(k)
                && s.body.end == (if k < self.body.elements@.len() { StreamEnd::Completed } else { self.body.end }))
                && stage_added(self, s, StageKind::FlowTakeWithin),
    {
        let _ = validate_positive_argument("ticks", ticks)?;
        Ok(self.through(StageKind::FlowTakeWithin, TakeWithinStage { ticks }))
    }

    /// Routes every element to one of two lanes by `predicate`; on a single path all elements pass.
    pub fn partition<F: FnMut(&Out) -> bool>(self, predicate: F) -> (r: Source<Out, Mat>)
        requires forall|a: &Out| call_requires(predicate, (a,)),
        ensures passes_through(self, r, StageKind::FlowPartition),
    {
        self.through(StageKind::FlowPartition, PartitionStage { predicate })
    }

    /// Maps every element to a pair and emits both components.
    pub fn unzip_with<T, F: FnMut(Out) -> (T, T)>(self, func: F) -> (r: Source<T, Mat>)
        requires forall|a: Out| call_requires(func, (a,)),
        ensures
            pairs_spread_by(func, self.body.elements@, r.body.elements@),
            r.body.end == self.body.end,
            stage_added(self, r, StageKind::FlowUnzipWith),
    {
        self.through(StageKind::FlowUnzipWith, UnzipWithStage { func })
    }

    /// Duplicates every element `fan_out` times; fails when `fan_out` is zero.
    pub fn broadcast(self, fan_out: usize) -> (r: Result<Source<Out, Mat>, StreamDslError>)
        where Out: Clone,
        ensures
            fan_out == 0 <==> r is Err,
            r matches Err(e) ==> e == spec_zero_argument("fan_out"),
            r matches Ok(s) ==> repeated_each(self.body.elements@, fan_out as nat, s.body.elements@)
                && s.body.end == self.body.end && stage_added(self, s, StageKind::FlowBroadcast),
    {
        let _ = validate_positive_argument("fan_out", fan_out)?;
        Ok(self.through(StageKind::FlowBroadcast, BroadcastStage { fan_out }))
    }

    /// Distributes elements over `fan_out` lanes; on a single path all elements pass. Fails when
    /// `fan_out` is zero.
    pub fn balance(self, fan_out: usize) -> (r: Result<Source<Out, Mat>, StreamDslError>)
        ensures
            fan_out == 0 <==> r is Err,
            r matches Err(e) ==> e == spec_zero_argument("fan_out"),
            r matches Ok(s) ==> passes_through(self, s, StageKind::FlowBalance),
    {
        let _ = validate_positive_argument("fan_out", fan_out)?;
        Ok(self.pass(StageKind::FlowBalance))
    }

    /// Merges `fan_in` lanes; on a single path all elements pass. Fails when `fan_in` is zero.
    pub fn merge(self, fan_in: usize) -> (r: Result<Source<Out, Mat>, StreamDslError>)
        ensures
            fan_in == 0 <==> r is Err,
            r matches Err(e) ==> e == spec_zero_argument("fan_in"),
            r matches Ok(s) ==> passes_through(self, s, StageKind::FlowMerge),
    {
        let _ = validate_positive_argument("fan_in", fan_in)?;
        Ok(self.pass(StageKind::FlowMerge))
    }

    /// Takes `fan_in` lanes in round-robin order; on a single path all elements pass. Fails when
    /// `fan_in` is zero.
    pub fn interleave(self, fan_in: usize) -> (r: Result<Source<Out, Mat>, StreamDslError>)
        ensures
            fan_in == 0 <==> r is Err,
            r matches Err(e) ==> e == spec_zero_argument("fan_in"),
            r matches Ok(s) ==> passes_through(self, s, StageKind::FlowInterleave),
    {
        let _ = validate_positive_argument("fan_in", fan_in)?;
        Ok(self.pass(StageKind::FlowInterleave))
    }

    /// Prefers lower-index lanes; on a single path all elements pass. Fails when `fan_in` is zero.
    pub fn prepend(self, fan_in: usize) -> (r: Result<Source<Out, Mat>, StreamDslError>)
        ensures
            fan_in == 0 <==> r is Err,
            r matches Err(e) ==> e == spec_zero_argument("fan_in"),
            r matches Ok(s) ==> passes_through(self, s, StageKind::FlowPrepend),
    {
        let _ = validate_positive_argument("fan_in", fan_in)?;
        Ok(self.pass(StageKind::FlowPrepend))
    }

    /// Emits all elements of each lane in lane order; on a single path all elements pass. Fails when
    /// `fan_in` is zero.
    pub fn concat(self, fan_in: usize) -> (r: Result<Source<Out, Mat>, StreamDslError>)
        ensures
            fan_in == 0 <==> r is Err,
            r matches Err(e) ==> e == spec_zero_argument("fan_in"),
            r matches Ok(s) ==> passes_through(self, s, StageKind::FlowConcat),
    {
        let _ = validate_positive_argument("fan_in", fan_in)?;
        Ok(self.pass(StageKind::FlowConcat))
    }

    /// Emits one vector per round with an element of every lane; on a single path every element is
    /// wrapped alone. Fails when `fan_in` is zero.
    pub fn zip(self, fan_in: usize) -> (r: Result<Source<Vec<Out>, Mat>, StreamDslError>)
        ensures
            fan_in == 0 <==> r is Err,
            r matches Err(e) ==> e == spec_zero_argument("fan_in"),
            r matches Ok(s) ==> s.body.elements@.len() == self.body.elements@.len()
                && (forall|i: int| 0 <= i < self.body.elements@.len()
                    ==> (#[trigger] s.body.elements@[i])@ == seq![self.body.elements@[i]])
                && s.body.end == self.body.end && stage_added(self, s, StageKind::FlowZip),
    {
        let _ = validate_positive_argument("fan_in", fan_in)?;
        Ok(self.through(StageKind::FlowZip, WrapStage))
    }

    /// Like `zip`, filling lanes that completed with `fill_value`; on a single path every element is
    /// wrapped alone. Fails when `fan_in` is zero.
    pub fn zip_all(self, fan_in: usize, fill_value: Out) -> (r: Result<Source<Vec<Out>, Mat>, StreamDslError>)
        ensures
            fan_in == 0 <==> r is Err,
            r matches Err(e) ==> e == spec_zero_argument("fan_in"),
            r matches Ok(s) ==> s.body.elements@.len() == self.body.elements@.len()
                && (forall|i: int| 0 <= i < self.body.elements@.len()
                    ==> (#[trigger] s.body.elements@[i])@ == seq![self.body.elements@[i]])
                && s.body.end == self.body.end && stage_added(self, s, StageKind::FlowZipAll),
    {
        let _ = validate_positive_argument("fan_in", fan_in)?;
        Ok(self.through(StageKind::FlowZipAll, WrapStage))
    }

    /// Alias of [`Source::zip`].
    pub fn zip_n(self, n: usize) -> (r: Result<Source<Vec<Out>, Mat>, StreamDslError>)
        ensures
            n == 0 <==> r is Err,
            r matches Err(e) ==> e == spec_zero_argument("fan_in"),
            r matches Ok(s) ==> s.body.elements@.len() == self.body.elements@.len()
                && (forall|i: int| 0 <= i < self.body.elements@.len()
                    ==> (#[trigger] s.body.elements@[i])@ == seq![self.body.elements@[i]])
                && s.body.end == self.body.end && stage_added(self, s, StageKind::FlowZip),
    {
        self.zip(n)
    }

    /// `zip_n` followed by mapping every zipped vector through `func`.
    pub fn zip_with_n<T, F: FnMut(Vec<Out>) -> T>(self, n: usize, func: F) -> (r: Result<Source<T, Mat>, StreamDslError>)
        requires forall|a: Vec<Out>| call_requires(func, (a,)),
        ensures
            n == 0 <==> r is Err,
            r matches Err(e) ==> e == spec_zero_argument("fan_in"),
            r matches Ok(s) ==> (exists|ws: Seq<Vec<Out>>| #![auto] ws.len() == self.body.elements@.len()
                && (forall|i: int| 0 <= i < ws.len() ==> ws[i]@ == seq![self.body.elements@[i]])
                && mapped_by(func, ws, s.body.elements@))
                && s.body.end == self.body.end
                && kinds_of(s.graph.nodes@) == kinds_of(self.graph.nodes@).push(StageKind::FlowZip).push(StageKind::FlowMap),
    {
        let zipped = self.zip_n(n)?;
        let ghost ws = zipped.body.elements@;
        let r = zipped.map(func);
        proof { assert(ws.len() == self.body.elements@.len()); }
        Ok(r)
    }

    /// Pairs every element with its position.
    pub fn zip_with_index(self) -> (r: Source<(Out, u64), Mat>)
        ensures
            r.body.elements@.len() == self.body.elements@.len(),
            forall|i: int| 0 <= i < self.body.elements@.len()
                ==> #[trigger] r.body.elements@[i] == (self.body.elements@[i], i as u64),
            r.body.end == self.body.end,
            stage_added(self, r, StageKind::FlowZipWithIndex),
    {
        self.through(StageKind::FlowZipWithIndex, ZipWithIndexStage)
    }

    /// Routes elements to substreams by the key `key_fn` gives them; the stream fails when more than
    /// `max_substreams` keys would be open. Fails when `max_substreams` is zero.
    pub fn group_by<K: GroupKey, F: FnMut(&Out) -> K>(self, max_substreams: usize, key_fn: F)
        -> (r: Result<SourceSubFlow<Out, Mat>, StreamDslError>)
        requires forall|a: &Out| call_requires(key_fn, (a,)),
        ensures
            max_substreams == 0 <==> r is Err,
            r matches Err(e) ==> e == spec_zero_argument("max_substreams"),
            r matches Ok(sf) ==> (exists|k: int| #![auto] admitted(key_fn, self.body.elements@, max_substreams as nat, k)
                && sf.source.body.elements@.len() == k
                && (forall|i: int| 0 <= i < k ==> (#[trigger] sf.source.body.elements@[i])@ == seq![self.body.elements@[i]])
                && sf.source.body.end == (if k < self.body.elements@.len() {
                    StreamEnd::Failed(StreamError::SubstreamLimitExceeded { max_substreams })
                } else {
                    self.body.end
                }))
                && kinds_of(sf.source.graph.nodes@) == kinds_of(self.graph.nodes@).push(StageKind::FlowGroupBy).push(StageKind::FlowMap)
                && sf.source.mat == self.mat,
    {
        let _ = validate_positive_argument("max_substreams", max_substreams)?;
        let grouped = self.through(StageKind::FlowGroupBy, GroupByStage { max_substreams, key_fn });
        let ghost g = grouped.body;
        let wrapped = grouped.through(StageKind::FlowMap, WrapStage);
        Ok(SourceSubFlow { source: wrapped })
    }

    /// Splits the stream into segments that start at each element `predicate` accepts.
    pub fn split_when<F: FnMut(&Out) -> bool>(self, predicate: F) -> (r: SourceSubFlow<Out, Mat>)
        requires forall|a: &Out| call_requires(predicate, (a,)),
        ensures
            exists|flags: Seq<bool>| #![auto] crate::body::judged_by(predicate, self.body.elements@, flags)
                && r.source.body.elements@.map_values(|w: Vec<Out>| w@) == emitted_segments(
                    split_before_state(self.body.elements@, flags), self.body.end == StreamEnd::Completed),
            r.source.body.end == self.body.end,
            stage_added(self, r.source, StageKind::FlowSplitWhen),
    {
        SourceSubFlow { source: self.through(StageKind::FlowSplitWhen, SplitStage { predicate, after: false }) }
    }

    /// Splits the stream into segments that end at each element `predicate` accepts.
    pub fn split_after<F: FnMut(&Out) -> bool>(self, predicate: F) -> (r: SourceSubFlow<Out, Mat>)
        requires forall|a: &Out| call_requires(predicate, (a,)),
        ensures
            exists|flags: Seq<bool>| #![auto] crate::body::judged_by(predicate, self.body.elements@, flags)
                && r.source.body.elements@.map_values(|w: Vec<Out>| w@) == emitted_segments(
                    split_after_state(self.body.elements@, flags), self.body.end == StreamEnd::Completed),
            r.source.body.end == self.body.end,
            stage_added(self, r.source, StageKind::FlowSplitAfter),
    {
        SourceSubFlow { source: self.through(StageKind::FlowSplitAfter, SplitStage { predicate, after: true }) }
    }

    /// Returns this source unchanged.
    pub fn watch(self) -> (r: Source<Out, Mat>)
        ensures r == self,
    {
        self
    }

    /// Combines the materialized value with a handle that records how the stream ended: `Ok` when
    /// it completed, the failure when it failed, nothing while it stalls. The elements pass unchanged.
    pub fn watch_termination_mat<C: MatCombineRule<Mat, StreamCompletion<()>>>(self, combine: C) -> (r: Source<Out, C::Out>)
        ensures
            r.body == self.body,
            kinds_of(r.graph.nodes@) == kinds_of(self.graph.nodes@).push(StageKind::FlowWatchTermination),
            exists|c: StreamCompletion<()>| #![auto] c.spec_result() == crate::sink::outcome_of(self.body.end, ())
                && r.mat == C::spec_combine(self.mat, c),
    {
        let Source { graph, body, mat } = self;
        let c = crate::sink::settle_completion(StreamCompletion::new(), crate::sink::outcome(body.end, ()));
        let m = C::combine(mat, c);
        Source { graph: add_flow_stage(graph, StageKind::FlowWatchTermination), body, mat: m }
    }

    /// Restarts the source with backoff after failures; the emitted elements are unchanged.
    pub fn restart_source_with_backoff(self, min_backoff_ticks: u32, max_restarts: usize) -> (r: Source<Out, Mat>)
        ensures r == self,
    {
        self
    }

    /// Alias of [`Source::restart_source_with_backoff`].
    pub fn on_failures_with_backoff(self, min_backoff_ticks: u32, max_restarts: usize) -> (r: Source<Out, Mat>)
        ensures r == self,
    {
        self.restart_source_with_backoff(min_backoff_ticks, max_restarts)
    }

    /// Alias of [`Source::restart_source_with_backoff`].
    pub fn with_backoff(self, min_backoff_ticks: u32, max_restarts: usize) -> (r: Source<Out, Mat>)
        ensures r == self,
    {
        self.restart_source_with_backoff(min_backoff_ticks, max_restarts)
    }

    /// Alias of [`Source::restart_source_with_backoff`]; the context is not used.
    pub fn with_backoff_and_context<C>(self, min_backoff_ticks: u32, max_restarts: usize, context: C) -> (r: Source<Out, Mat>)
        ensures r == self,
    {
        self.restart_source_with_backoff(min_backoff_ticks, max_restarts)
    }

    /// Sets the stop supervision strategy; the emitted elements are unchanged.
    pub fn supervision_stop(self) -> (r: Source<Out, Mat>)
        ensures r == self,
    {
        self
    }

    /// Sets the resume supervision strategy; the emitted elements are unchanged.
    pub fn supervision_resume(self) -> (r: Source<Out, Mat>)
        ensures r == self,
    {
        self
    }

    /// Sets the restart supervision strategy; the emitted elements are unchanged.
    pub fn supervision_restart(self) -> (r: Source<Out, Mat>)
        ensures r == self,
    {
        self
    }

    /// Replaces the materialized value with `func` applied to it.
    pub fn map_materialized_value<Mat2, F: FnOnce(Mat) -> Mat2>(self, func: F) -> (r: Source<Out, Mat2>)
        requires call_requires(func, (self.mat,)),
        ensures
            call_ensures(func, (self.mat,), r.mat),
            r.graph == self.graph,
            r.body == self.body,
    {
        let Source { graph, body, mat } = self;
        let mat = func(mat);
        Source { graph, body, mat }
    }

    /// Runs the source to its end and collects the emitted elements: they come back when the stream
    /// completes, the failure when it fails, and `WouldBlock` when it stalls.
    pub fn collect_values(self) -> (r: Result<Vec<Out>, StreamError>)
        ensures spec_collected(self.body.elements@, self.body.end, r),
    {
        self.body.into_result()
    }

    /// Alias of [`Source::collect_values`].
    pub fn as_input_stream(self) -> (r: Result<Vec<Out>, StreamError>)
        ensures spec_collected(self.body.elements@, self.body.end, r),
    {
        self.collect_values()
    }

    /// Alias of [`Source::collect_values`].
    pub fn as_java_stream(self) -> (r: Result<Vec<Out>, StreamError>)
        ensures spec_collected(self.body.elements@, self.body.end, r),
    {
        self.collect_values()
    }

    /// Alias of [`Source::collect_values`].
    pub fn as_output_stream(self) -> (r: Result<Vec<Out>, StreamError>)
        ensures spec_collected(self.body.elements@, self.body.end, r),
    {
        self.collect_values()
    }

    /// The blueprint and the materialized value.
    pub fn into_parts(self) -> (r: (StreamGraph, Mat))
        ensures r.0 == self.graph, r.1 == self.mat,
    {
        (self.graph, self.mat)
    }
}

impl<Out, Mat> Source<(Out, Out), Mat> {
    /// Emits both components of every pair.
    pub fn unzip(self) -> (r: Source<Out, Mat>)
        ensures
            r.body.elements@.len() == 2 * self.body.elements@.len(),
            forall|i: int| 0 <= i < self.body.elements@.len()
                ==> r.body.elements@[2 * i] == (#[trigger] self.body.elements@[i]).0
                && r.body.elements@[2 * i + 1] == self.body.elements@[i].1,
            r.body.end == self.body.end,
            stage_added(self, r, StageKind::FlowUnzip),
    {
        self.through(StageKind::FlowUnzip, UnzipStage)
    }
}

impl<Out, Mat> Source<Vec<Out>, Mat> {
    /// Emits the elements of every substream in order.
    pub fn merge_substreams(self) -> (r: Source<Out, Mat>)
        ensures
            r.body.elements@ == flatten(self.body.elements@.map_values(|w: Vec<Out>| w@)),
            r.body.end == self.body.end,
            stage_added(self, r, StageKind::FlowMergeSubstreams),
    {
        self.through(StageKind::FlowMergeSubstreams, FlattenStage)
    }

    /// Emits the elements of every substream in order with at most `parallelism` open; fails when
    /// `parallelism` is zero.
    pub fn merge_substreams_with_parallelism(self, parallelism: usize) -> (r: Result<Source<Out, Mat>, StreamDslError>)
        ensures
            parallelism == 0 <==> r is Err,
            r matches Err(e) ==> e == spec_zero_argument("parallelism"),
            r matches Ok(s) ==> s.body.elements@ == flatten(self.body.elements@.map_values(|w: Vec<Out>| w@))
                && s.body.end == self.body.end && stage_added(self, s, StageKind::FlowMergeSubstreamsWithParallelism),
    {
        let _ = validate_positive_argument("parallelism", parallelism)?;
        Ok(self.through(StageKind::FlowMergeSubstreamsWithParallelism, FlattenStage))
    }

    /// Emits the elements of every substream, one substream after the other.
    pub fn concat_substreams(self) -> (r: Source<Out, Mat>)
        ensures
            r.body.elements@ == flatten(self.body.elements@.map_values(|w: Vec<Out>| w@)),
            r.body.end == self.body.end,
            stage_added(self, r, StageKind::FlowConcatSubstreams),
    {
        self.through(StageKind::FlowConcatSubstreams, FlattenStage)
    }
}

impl<Out, Mat> Source<Option<Out>, Mat> {
    /// Emits the present values and skips the absent ones.
    pub fn flatten_optional(self) -> (r: Source<Out, Mat>)
        ensures
            r.body.elements@ == somes(self.body.elements@),
            r.body.end == self.body.end,
            stage_added(self, r, StageKind::FlowMapOption),
    {
        self.through(StageKind::FlowMapOption, FlattenOptionalStage)
    }
}

impl<Out, Mat> Source<Result<Out, StreamError>, Mat> {
    /// Maps the error payloads through `mapper`.
    pub fn map_error<F: FnMut(StreamError) -> StreamError>(self, mapper: F) -> (r: Source<Result<Out, StreamError>, Mat>)
        requires forall|e: StreamError| call_requires(mapper, (e,)),
        ensures
            errors_mapped_by(mapper, self.body.elements@, r.body.elements@),
            r.body.end == self.body.end,
            stage_added(self, r, StageKind::FlowMap),
    {
        self.through(StageKind::FlowMap, MapErrorStage { func: mapper })
    }

    /// Drops the error payloads.
    pub fn on_error_continue(self) -> (r: Source<Out, Mat>)
        ensures
            r.body.elements@ == oks(self.body.elements@),
            r.body.end == self.body.end,
            stage_added(self, r, StageKind::FlowMapOption),
    {
        self.through(StageKind::FlowMapOption, OkValuesStage)
    }

    /// Alias of [`Source::on_error_continue`].
    pub fn on_error_resume(self) -> (r: Source<Out, Mat>)
        ensures
            r.body.elements@ == oks(self.body.elements@),
            r.body.end == self.body.end,
            stage_added(self, r, StageKind::FlowMapOption),
    {
        self.on_error_continue()
    }

    /// Emits the successful payloads before the first error payload; the stream completes there.
    pub fn on_error_complete(self) -> (r: Source<Out, Mat>)
        ensures
            r.body.elements@.len() <= self.body.elements@.len(),
            forall|i: int| 0 <= i < r.body.elements@.len()
                ==> self.body.elements@[i] == Ok::<Out, StreamError>(#[trigger] r.body.elements@[i]),
            r.body.elements@.len() < self.body.elements@.len()
                ==> self.body.elements@[r.body.elements@.len() as int] is Err && r.body.end == StreamEnd::Completed,
            r.body.elements@.len() == self.body.elements@.len() ==> r.body.end == self.body.end,
            stage_added(self, r, StageKind::FlowStatefulMap),
    {
        self.through(StageKind::FlowStatefulMap, OkPrefixStage)
    }

    /// Replaces every error payload with a clone of `fallback`.
    pub fn recover(self, fallback: Out) -> (r: Source<Out, Mat>)
        where Out: Clone,
        ensures
            recovered_with(self.body.elements@, fallback, r.body.elements@),
            r.body.end == self.body.end,
            stage_added(self, r, StageKind::FlowRecover),
    {
        self.through(StageKind::FlowRecover, RecoverStage { fallback })
    }

    /// Alias of [`Source::recover`].
    pub fn recover_with(self, fallback: Out) -> (r: Source<Out, Mat>)
        where Out: Clone,
        ensures
            recovered_with(self.body.elements@, fallback, r.body.elements@),
            r.body.end == self.body.end,
            stage_added(self, r, StageKind::FlowRecover),
    {
        self.recover(fallback)
    }

    /// Replaces error payloads with `fallback` while `max_retries` lasts; the next one fails the stream.
    pub fn recover_with_retries(self, max_retries: usize, fallback: Out) -> (r: Source<Out, Mat>)
        where Out: Clone,
        ensures
            r.body.elements@.len() <= self.body.elements@.len(),
            recovered_with(self.body.elements@.take(r.body.elements@.len() as int), fallback, r.body.elements@),
            error_count(self.body.elements@.take(r.body.elements@.len() as int)) <= max_retries,
            r.body.elements@.len() < self.body.elements@.len()
                ==> self.body.elements@[r.body.elements@.len() as int] is Err
                && error_count(self.body.elements@.take(r.body.elements@.len() as int)) == max_retries
                && r.body.end == StreamEnd::Failed(StreamError::Failed),
            r.body.elements@.len() == self.body.elements@.len() ==> r.body.end == self.body.end,
            stage_added(self, r, StageKind::FlowRecoverWithRetries),
    {
        self.through(StageKind::FlowRecoverWithRetries, RecoverWithRetriesStage { max_retries, fallback })
    }
}

} // verus!
