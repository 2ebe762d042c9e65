//! Substream surfaces: a stream of segments, each segment a substream.
use vstd::prelude::*;
use crate::body::flatten;
use crate::error::{StreamDslError, spec_zero_argument};
use crate::source::{Source, stage_added};
use crate::stage_kind::StageKind;
use crate::flow::{Flow, chained};
use crate::stages::{FlowStage, Then, FlattenStage};
use crate::body::{StreamBody, StreamEnd, mapped_by, filtered_by, accepted_prefix, spec_take, spec_drop, map_elements, filter_elements};
use crate::ops::{split_at, accepted_prefix_len};

verus! {

/// Substream surface returned by the splitting and grouping operators of a source: the source
/// emits one vector per substream.
pub struct SourceSubFlow<Out, Mat> {
    pub source: Source<Vec<Out>, Mat>,
}

impl<Out, Mat> SourceSubFlow<Out, Mat> {
    /// Wraps a source of segments.
    pub fn from_source(source: Source<Vec<Out>, Mat>) -> (r: Self)
        ensures r.source == source,
    {
        SourceSubFlow { source }
    }

    /// The source of segments, one vector per substream.
    pub fn into_source(self) -> (r: Source<Vec<Out>, Mat>)
        ensures r == self.source,
    {
        self.source
    }

    /// Emits the elements of every substream in order.
    pub fn merge_substreams(self) -> (r: Source<Out, Mat>)
        ensures
            r.body.elements@ == flatten(self.source.body.elements@.map_values(|w: Vec<Out>| w@)),
            r.body.end == self.source.body.end,
            stage_added(self.source, r, StageKind::FlowMergeSubstreams),
    {
        self.source.merge_substreams()
    }

    /// Emits the elements of every substream in order with at most `parallelism` open; fails when
    /// `parallelism` is zero.
    pub fn merge_substreams_with_parallelism(self, parallelism: usize) -> (r: Result<Source<Out, Mat>, StreamDslError>)
        ensures
            parallelism == 0 <==> r is Err,
            r matches Err(e) ==> e == spec_zero_argument("parallelism"),
            r matches Ok(s) ==> s.body.elements@ == flatten(self.source.body.elements@.map_values(|w: Vec<Out>| w@))
                && s.body.end == self.source.body.end
                && stage_added(self.source, s, StageKind::FlowMergeSubstreamsWithParallelism),
    {
        self.source.merge_substreams_with_parallelism(parallelism)
    }

    /// Emits the elements of every substream, one substream after the other.
    pub fn concat_substreams(self) -> (r: Source<Out, Mat>)
        ensures
            r.body.elements@ == flatten(self.source.body.elements@.map_values(|w: Vec<Out>| w@)),
            r.body.end == self.source.body.end,
            stage_added(self.source, r, StageKind::FlowConcatSubstreams),
    {
        self.source.concat_substreams()
    }
}

/// Substream surface returned by the splitting and grouping operators of a flow: the flow emits
/// one vector per substream.
pub struct FlowSubFlow<In, Out, Mat, S> {
    pub flow: Flow<In, Vec<Out>, Mat, S>,
}

impl<In, Out, Mat, S> FlowSubFlow<In, Out, Mat, S> {
    /// Wraps a flow of segments.
    pub fn from_flow(flow: Flow<In, Vec<Out>, Mat, S>) -> (r: Self)
        ensures r.flow == flow,
    {
        FlowSubFlow { flow }
    }

    /// The flow of segments.
    pub fn into_flow(self) -> (r: Flow<In, Vec<Out>, Mat, S>)
        ensures r == self.flow,
    {
        self.flow
    }

    /// Emits the elements of every substream in order.
    pub fn merge_substreams(self) -> (r: Flow<In, Out, Mat, Then<S, FlattenStage, Vec<Out>>>)
        ensures chained(self.flow, r, FlattenStage, StageKind::FlowMergeSubstreams),
    {
        self.flow.then_stage(StageKind::FlowMergeSubstreams, FlattenStage)
    }

    /// Emits the elements of every substream in order with at most `parallelism` open; fails when
    /// `parallelism` is zero.
    pub fn merge_substreams_with_parallelism(self, parallelism: usize) -> (r: Result<Flow<In, Out, Mat, Then<S, FlattenStage, Vec<Out>>>, StreamDslError>)
        ensures
            parallelism == 0 <==> r is Err,
            r matches Err(e) ==> e == spec_zero_argument("parallelism"),
            r matches Ok(f) ==> chained(self.flow, f, FlattenStage, StageKind::FlowMergeSubstreamsWithParallelism),
    {
        self.flow.merge_substreams_with_parallelism(parallelism)
    }

    /// Emits the elements of every substream, one substream after the other.
    pub fn concat_substreams(self) -> (r: Flow<In, Out, Mat, Then<S, FlattenStage, Vec<Out>>>)
        ensures chained(self.flow, r, FlattenStage, StageKind::FlowConcatSubstreams),
    {
        self.flow.then_stage(StageKind::FlowConcatSubstreams, FlattenStage)
    }
}

/// Maps every element of every segment through `func`.
pub struct SegmentMapStage<F> {
    pub func: F,
}

/// `ys` holds, segment by segment, the elements of `xs` mapped through `f`.
pub open spec fn segments_mapped_by<A, B, F: FnMut(A) -> B>(f: F, xs: Seq<Vec<A>>, ys: Seq<Vec<B>>) -> bool {
    ys.len() == xs.len() && forall|i: int| 0 <= i < xs.len() ==> mapped_by(f, xs[i]@, #[trigger] ys[i]@)
}

impl<A, B, F: FnMut(A) -> B> FlowStage<Vec<A>, Vec<B>> for SegmentMapStage<F> {
    open spec fn ready(&self) -> bool { forall|a: A| call_requires(self.func, (a,)) }

    open spec fn yields(&self, input: StreamBody<Vec<A>>, output: StreamBody<Vec<B>>) -> bool {
        segments_mapped_by(self.func, input.elements@, output.elements@) && output.end == input.end
    }

    fn run(self, input: StreamBody<Vec<A>>) -> (output: StreamBody<Vec<B>>) {
        let mut f = self.func;
        let ghost f0 = f;
        let StreamBody { elements, end, .. } = input;
        let ghost xs = elements@;
        let mut out: Vec<Vec<B>> = Vec::new();
        for seg in it: elements.into_iter()
            invariant
                f == f0,
                forall|a: A| call_requires(f0, (a,)),
                it.seq() == xs,
                out.len() == it.index(),
                forall|i: int| 0 <= i < out.len() ==> mapped_by(f0, xs[i]@, #[trigger] out@[i]@),
        {
            let m = map_elements(seg, &mut f);
            out.push(m);
        }
        StreamBody { elements: out, end, ticks: Vec::new() }
    }
}

/// Keeps, in every segment, the elements `predicate` accepts.
pub struct SegmentFilterStage<F> {
    pub predicate: F,
}

impl<T, F: FnMut(&T) -> bool> FlowStage<Vec<T>, Vec<T>> for SegmentFilterStage<F> {
    open spec fn ready(&self) -> bool { forall|a: &T| call_requires(self.predicate, (a,)) }

    open spec fn yields(&self, input: StreamBody<Vec<T>>, output: StreamBody<Vec<T>>) -> bool {
        &&& output.elements@.len() == input.elements@.len()
        &&& forall|i: int| 0 <= i < input.elements@.len()
            ==> filtered_by(self.predicate, input.elements@[i]@, #[trigger] output.elements@[i]@)
        &&& output.end == input.end
    }

    fn run(self, input: StreamBody<Vec<T>>) -> (output: StreamBody<Vec<T>>) {
        let mut f = self.predicate;
        let ghost f0 = f;
        let StreamBody { elements, end, .. } = input;
        let ghost xs = elements@;
        let mut out: Vec<Vec<T>> = Vec::new();
        for seg in it: elements.into_iter()
            invariant
                f == f0,
                forall|a: &T| call_requires(f0, (a,)),
                it.seq() == xs,
                out.len() == it.index(),
                forall|i: int| 0 <= i < out.len() ==> filtered_by(f0, xs[i]@, #[trigger] out@[i]@),
        {
            let kept = filter_elements(seg, &mut f, true);
            out.push(kept);
        }
        StreamBody { elements: out, end, ticks: Vec::new() }
    }
}

/// Cuts every segment: `take` keeps its first `count` elements, otherwise they are skipped.
pub struct SegmentCutStage {
    pub count: usize,
    pub take: bool,
}

impl<T> FlowStage<Vec<T>, Vec<T>> for SegmentCutStage {
    open spec fn ready(&self) -> bool { true }

    open spec fn yields(&self, input: StreamBody<Vec<T>>, output: StreamBody<Vec<T>>) -> bool {
        &&& output.elements@.len() == input.elements@.len()
        &&& forall|i: int| 0 <= i < input.elements@.len() ==> (#[trigger] output.elements@[i])@ == (if self.take {
                spec_take(input.elements@[i]@, StreamEnd::Completed, self.count as nat).0
            } else {
                spec_drop(input.elements@[i]@, self.count as nat)
            })
        &&& output.end == input.end
    }

    fn run(self, input: StreamBody<Vec<T>>) -> (output: StreamBody<Vec<T>>) {
        let StreamBody { elements, end, .. } = input;
        let ghost xs = elements@;
        let mut out: Vec<Vec<T>> = Vec::new();
        for seg in it: elements.into_iter()
            invariant
                it.seq() == xs,
                out.len() == it.index(),
                forall|i: int| 0 <= i < out.len() ==> (#[trigger] out@[i])@ == (if self.take {
                    spec_take(xs[i]@, StreamEnd::Completed, self.count as nat).0
                } else {
                    spec_drop(xs[i]@, self.count as nat)
                }),
        {
            let (front, rest) = split_at(seg, self.count);
            if self.take { out.push(front); } else { out.push(rest); }
        }
        StreamBody { elements: out, end, ticks: Vec::new() }
    }
}

/// `ys` is `xs` cut at the prefix `f` accepts: the prefix when `take`, the rest otherwise.
pub open spec fn while_cut<T, F: FnMut(&T) -> bool>(f: F, xs: Seq<T>, ys: Seq<T>, take: bool) -> bool {
    exists|k: int| #![auto] accepted_prefix(f, xs, k) && ys == (if take { xs.take(k) } else { xs.skip(k) })
}

/// Cuts every segment at the prefix `predicate` accepts: `take` keeps the prefix, otherwise it is skipped.
pub struct SegmentWhileStage<F> {
    pub predicate: F,
    pub take: bool,
}

impl<T, F: FnMut(&T) -> bool> FlowStage<Vec<T>, Vec<T>> for SegmentWhileStage<F> {
    open spec fn ready(&self) -> bool { forall|a: &T| call_requires(self.predicate, (a,)) }

    open spec fn yields(&self, input: StreamBody<Vec<T>>, output: StreamBody<Vec<T>>) -> bool {
        &&& output.elements@.len() == input.elements@.len()
        &&& forall|i: int| 0 <= i < input.elements@.len()
            ==> while_cut(self.predicate, input.elements@[i]@, #[trigger] output.elements@[i]@, self.take)
        &&& output.end == input.end
    }

    fn run(self, input: StreamBody<Vec<T>>) -> (output: StreamBody<Vec<T>>) {
        let mut f = self.predicate;
        let ghost f0 = f;
        let StreamBody { elements, end, .. } = input;
        let ghost xs = elements@;
        let mut out: Vec<Vec<T>> = Vec::new();
        for seg in it: elements.into_iter()
            invariant
                f == f0,
                forall|a: &T| call_requires(f0, (a,)),
                it.seq() == xs,
                out.len() == it.index(),
                forall|i: int| 0 <= i < out.len() ==> while_cut(f0, xs[i]@, #[trigger] out@[i]@, self.take),
        {
            let ghost i = it.index();
            let k = accepted_prefix_len(&seg, &mut f);
            let (front, rest) = split_at(seg, k);
            if self.take { out.push(front); } else { out.push(rest); }
            proof {
                assert(accepted_prefix(f0, xs[i as int]@, k as int));
                assert(while_cut(f0, xs[i as int]@, out@[i as int]@, self.take));
            }
        }
        StreamBody { elements: out, end, ticks: Vec::new() }
    }
}

impl<Out, Mat> SourceSubFlow<Out, Mat> {
    /// Maps every element inside every substream.
    pub fn map<T, F: FnMut(Out) -> T>(self, func: F) -> (r: SourceSubFlow<T, Mat>)
        requires forall|a: Out| call_requires(func, (a,)),
        ensures
            segments_mapped_by(func, self.source.body.elements@, r.source.body.elements@),
            r.source.body.end == self.source.body.end,
            stage_added(self.source, r.source, StageKind::FlowMap),
    {
        SourceSubFlow { source: self.source.through(StageKind::FlowMap, SegmentMapStage { func }) }
    }

    /// Keeps, in every substream, the elements `predicate` accepts.
    pub fn filter<F: FnMut(&Out) -> bool>(self, predicate: F) -> (r: SourceSubFlow<Out, Mat>)
        requires forall|a: &Out| call_requires(predicate, (a,)),
        ensures
            (SegmentFilterStage { predicate }).yields(self.source.body, r.source.body),
            stage_added(self.source, r.source, StageKind::FlowMap),
    {
        SourceSubFlow { source: self.source.through(StageKind::FlowMap, SegmentFilterStage { predicate }) }
    }

    /// Skips the first `count` elements of every substream.
    pub fn drop(self, count: usize) -> (r: SourceSubFlow<Out, Mat>)
        ensures
            (SegmentCutStage { count, take: false }).yields(self.source.body, r.source.body),
            stage_added(self.source, r.source, StageKind::FlowMap),
    {
        SourceSubFlow { source: self.source.through(StageKind::FlowMap, SegmentCutStage { count, take: false }) }
    }

    /// Keeps the first `count` elements of every substream.
    pub fn take(self, count: usize) -> (r: SourceSubFlow<Out, Mat>)
        ensures
            (SegmentCutStage { count, take: true }).yields(self.source.body, r.source.body),
            stage_added(self.source, r.source, StageKind::FlowMap),
    {
        SourceSubFlow { source: self.source.through(StageKind::FlowMap, SegmentCutStage { count, take: true }) }
    }

    /// Skips, in every substream, the elements `predicate` accepts before the first one it rejects.
    pub fn drop_while<F: FnMut(&Out) -> bool>(self, predicate: F) -> (r: SourceSubFlow<Out, Mat>)
        requires forall|a: &Out| call_requires(predicate, (a,)),
        ensures
            (SegmentWhileStage { predicate, take: false }).yields(self.source.body, r.source.body),
            stage_added(self.source, r.source, StageKind::FlowMap),
    {
        SourceSubFlow { source: self.source.through(StageKind::FlowMap, SegmentWhileStage { predicate, take: false }) }
    }

    /// Keeps, in every substream, the elements `predicate` accepts before the first one it rejects.
    pub fn take_while<F: FnMut(&Out) -> bool>(self, predicate: F) -> (r: SourceSubFlow<Out, Mat>)
        requires forall|a: &Out| call_requires(predicate, (a,)),
        ensures
            (SegmentWhileStage { predicate, take: true }).yields(self.source.body, r.source.body),
            stage_added(self.source, r.source, StageKind::FlowMap),
    {
        SourceSubFlow { source: self.source.through(StageKind::FlowMap, SegmentWhileStage { predicate, take: true }) }
    }
}

/// Substream surface of a keyed source: the source emits (key, value) pairs.
pub struct SourceGroupBySubFlow<Key, Out, Mat> {
    pub source: Source<(Key, Out), Mat>,
}

impl<Key, Out, Mat> SourceGroupBySubFlow<Key, Out, Mat> {
    /// Emits the values, dropping the keys.
    pub fn merge_substreams(self) -> (r: Source<Out, Mat>)
        ensures
            r.body.elements@.len() == self.source.body.elements@.len(),
            forall|i: int| 0 <= i < self.source.body.elements@.len()
                ==> #[trigger] r.body.elements@[i] == self.source.body.elements@[i].1,
            r.body.end == self.source.body.end,
            stage_added(self.source, r, StageKind::FlowMap),
    {
        self.source.through(StageKind::FlowMap, SecondStage)
    }
}

/// Substream surface of a keyed flow: the flow emits (key, value) pairs.
pub struct FlowGroupBySubFlow<In, Key, Out, Mat, S> {
    pub flow: Flow<In, (Key, Out), Mat, S>,
}

impl<In, Key, Out, Mat, S> FlowGroupBySubFlow<In, Key, Out, Mat, S> {
    /// Emits the values, dropping the keys.
    pub fn merge_substreams(self) -> (r: Flow<In, Out, Mat, Then<S, SecondStage, (Key, Out)>>)
        ensures chained(self.flow, r, SecondStage, StageKind::FlowMap),
    {
        self.flow.then_stage(StageKind::FlowMap, SecondStage)
    }
}

/// Keeps the second component of every pair.
pub struct SecondStage;

impl<A, B> FlowStage<(A, B), B> for SecondStage {
    open spec fn ready(&self) -> bool { true }

    open spec fn yields(&self, input: StreamBody<(A, B)>, output: StreamBody<B>) -> bool {
        &&& output.elements@.len() == input.elements@.len()
        &&& forall|i: int| 0 <= i < input.elements@.len() ==> #[trigger] output.elements@[i] == input.elements@[i].1
        &&& output.end == input.end
    }

    fn run(self, input: StreamBody<(A, B)>) -> (output: StreamBody<B>) {
        let StreamBody { elements, end, .. } = input;
        let ghost xs = elements@;
        let mut out: Vec<B> = Vec::new();
        for p in it: elements.into_iter()
            invariant
                it.seq() == xs,
                out.len() == it.index(),
                forall|i: int| 0 <= i < out.len() ==> #[trigger] out@[i] == xs[i].1,
        {
            let (_a, b) = p;
            out.push(b);
        }
        StreamBody { elements: out, end, ticks: Vec::new() }
    }
}

} // verus!
