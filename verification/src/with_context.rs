//! Context-carrying sources and flows: every element travels with a context value that the value
//! operators leave alone.
use vstd::prelude::*;
use crate::body::{StreamBody, select};
use crate::flow::Flow;
use crate::graph::kinds_of;
use crate::mat::{KeepRight, StreamNotUsed};
use crate::source::{Source, stage_added, add_flow_stage};
use crate::graph::StreamGraph;
use crate::stage_kind::StageKind;
use crate::stages::{FlowStage, MatStage, Then};

verus! {

/// Maps the value of every (context, value) pair through `func`, keeping the context.
pub struct MapValueStage<F> {
    pub func: F,
}

/// `ys` holds the pairs of `xs` with each value mapped by `f` and each context kept.
pub open spec fn values_mapped_by<C, A, B, F: FnMut(A) -> B>(f: F, xs: Seq<(C, A)>, ys: Seq<(C, B)>) -> bool {
    &&& ys.len() == xs.len()
    &&& forall|i: int| 0 <= i < xs.len() ==> (#[trigger] ys[i]).0 == xs[i].0 && call_ensures(f, (xs[i].1,), ys[i].1)
}

impl<C, A, B, F: FnMut(A) -> B> FlowStage<(C, A), (C, B)> for MapValueStage<F> {
    open spec fn ready(&self) -> bool { forall|a: A| call_requires(self.func, (a,)) }

    open spec fn yields(&self, input: StreamBody<(C, A)>, output: StreamBody<(C, B)>) -> bool {
        values_mapped_by(self.func, input.elements@, output.elements@) && output.end == input.end
    }

    fn run(self, input: StreamBody<(C, A)>) -> (output: StreamBody<(C, B)>) {
        let mut f = self.func;
        let ghost f0 = f;
        let StreamBody { elements, end, .. } = input;
        let ghost xs = elements@;
        let mut out: Vec<(C, B)> = Vec::new();
        for p in it: elements.into_iter()
            invariant
                f == f0,
                forall|a: A| call_requires(f0, (a,)),
                it.seq() == xs,
                out.len() == it.index(),
                forall|i: int| 0 <= i < out.len() ==> (#[trigger] out@[i]).0 == xs[i].0 && call_ensures(f0, (xs[i].1,), out@[i].1),
        {
            let (c, a) = p;
            let b = f(a);
            out.push((c, b));
        }
        StreamBody { elements: out, end, ticks: Vec::new() }
    }
}

/// Maps the context of every (context, value) pair through `func`, keeping the value.
pub struct MapContextStage<F> {
    pub func: F,
}

/// `ys` holds the pairs of `xs` with each context mapped by `f` and each value kept.
pub open spec fn contexts_mapped_by<C, D, T, F: FnMut(C) -> D>(f: F, xs: Seq<(C, T)>, ys: Seq<(D, T)>) -> bool {
    &&& ys.len() == xs.len()
    &&& forall|i: int| 0 <= i < xs.len() ==> (#[trigger] ys[i]).1 == xs[i].1 && call_ensures(f, (xs[i].0,), ys[i].0)
}

impl<C, D, T, F: FnMut(C) -> D> FlowStage<(C, T), (D, T)> for MapContextStage<F> {
    open spec fn ready(&self) -> bool { forall|c: C| call_requires(self.func, (c,)) }

    open spec fn yields(&self, input: StreamBody<(C, T)>, output: StreamBody<(D, T)>) -> bool {
        contexts_mapped_by(self.func, input.elements@, output.elements@) && output.end == input.end
    }

    fn run(self, input: StreamBody<(C, T)>) -> (output: StreamBody<(D, T)>) {
        let mut f = self.func;
        let ghost f0 = f;
        let StreamBody { elements, end, .. } = input;
        let ghost xs = elements@;
        let mut out: Vec<(D, T)> = Vec::new();
        for p in it: elements.into_iter()
            invariant
                f == f0,
                forall|c: C| call_requires(f0, (c,)),
                it.seq() == xs,
                out.len() == it.index(),
                forall|i: int| 0 <= i < out.len() ==> (#[trigger] out@[i]).1 == xs[i].1 && call_ensures(f0, (xs[i].0,), out@[i].0),
        {
            let (c, t) = p;
            let d = f(c);
            out.push((d, t));
        }
        StreamBody { elements: out, end, ticks: Vec::new() }
    }
}

/// Keeps the (context, value) pairs whose value `predicate` accepts.
pub struct FilterValueStage<F> {
    pub predicate: F,
}

/// `keep` holds, for each pair of `xs`, a possible answer of `f` on its value.
pub open spec fn values_judged_by<C, T, F: FnMut(&T) -> bool>(f: F, xs: Seq<(C, T)>, keep: Seq<bool>) -> bool {
    keep.len() == xs.len() && forall|i: int| 0 <= i < xs.len() ==> call_ensures(f, (&xs[i].1,), #[trigger] keep[i])
}

impl<C, T, F: FnMut(&T) -> bool> FlowStage<(C, T), (C, T)> for FilterValueStage<F> {
    open spec fn ready(&self) -> bool { forall|a: &T| call_requires(self.predicate, (a,)) }

    open spec fn yields(&self, input: StreamBody<(C, T)>, output: StreamBody<(C, T)>) -> bool {
        &&& exists|keep: Seq<bool>| #![auto] values_judged_by(self.predicate, input.elements@, keep)
            && output.elements@ == select(input.elements@, keep)
        &&& output.end == input.end
    }

    fn run(self, input: StreamBody<(C, T)>) -> (output: StreamBody<(C, T)>) {
        let mut f = self.predicate;
        let ghost f0 = f;
        let StreamBody { elements, end, .. } = input;
        let ghost xs = elements@;
        let ghost mut keep: Seq<bool> = Seq::empty();
        let mut out: Vec<(C, T)> = Vec::new();
        for p in it: elements.into_iter()
            invariant
                f == f0,
                forall|a: &T| call_requires(f0, (a,)),
                it.seq() == xs,
                keep.len() == it.index(),
                values_judged_by(f0, xs.take(it.index() as int), keep),
                out@ == select(xs.take(it.index() as int), keep),
        {
            let ghost i = it.index();
            let b = f(&p.1);
            proof {
                let before = xs.take(i as int);
                let after = xs.take(i + 1);
                let k0 = keep;
                assert(after.drop_last() == before);
                assert(after.last() == p);
                keep = keep.push(b);
                assert(keep.drop_last() == k0);
                assert forall|j: int| 0 <= j < after.len() implies call_ensures(f0, (&after[j].1,), #[trigger] keep[j]) by {
                    if j < i { assert(after[j] == before[j]); }
                }
            }
            if b {
                out.push(p);
            }
        }
        proof { assert(xs.take(xs.len() as int) == xs); }
        StreamBody { elements: out, end, ticks: Vec::new() }
    }
}

/// Context-preserving source over an inner source of (context, value) pairs.
pub struct SourceWithContext<Ctx, Out, Mat> {
    pub inner: Source<(Ctx, Out), Mat>,
}

impl<Ctx, Out, Mat> SourceWithContext<Ctx, Out, Mat> {
    /// Wraps a source of (context, value) pairs.
    pub fn from_source(inner: Source<(Ctx, Out), Mat>) -> (r: Self)
        ensures r.inner == inner,
    {
        SourceWithContext { inner }
    }

    /// The inner source of (context, value) pairs.
    pub fn as_source(self) -> (r: Source<(Ctx, Out), Mat>)
        ensures r == self.inner,
    {
        self.inner
    }

    /// Maps every value through `func`, keeping its context.
    pub fn map<T, F: FnMut(Out) -> T>(self, func: F) -> (r: SourceWithContext<Ctx, T, Mat>)
        requires forall|a: Out| call_requires(func, (a,)),
        ensures
            values_mapped_by(func, self.inner.body.elements@, r.inner.body.elements@),
            r.inner.body.end == self.inner.body.end,
            stage_added(self.inner, r.inner, StageKind::FlowMap),
    {
        SourceWithContext { inner: self.inner.through(StageKind::FlowMap, MapValueStage { func }) }
    }

    /// Keeps the pairs whose value `predicate` accepts.
    pub fn filter<F: FnMut(&Out) -> bool>(self, predicate: F) -> (r: SourceWithContext<Ctx, Out, Mat>)
        requires forall|a: &Out| call_requires(predicate, (a,)),
        ensures
            exists|keep: Seq<bool>| #![auto] values_judged_by(predicate, self.inner.body.elements@, keep)
                && r.inner.body.elements@ == select(self.inner.body.elements@, keep),
            r.inner.body.end == self.inner.body.end,
            stage_added(self.inner, r.inner, StageKind::FlowFilter),
    {
        SourceWithContext { inner: self.inner.through(StageKind::FlowFilter, FilterValueStage { predicate }) }
    }

    /// Maps every context through `func`, keeping its value.
    pub fn map_context<Ctx2, F: FnMut(Ctx) -> Ctx2>(self, func: F) -> (r: SourceWithContext<Ctx2, Out, Mat>)
        requires forall|c: Ctx| call_requires(func, (c,)),
        ensures
            contexts_mapped_by(func, self.inner.body.elements@, r.inner.body.elements@),
            r.inner.body.end == self.inner.body.end,
            stage_added(self.inner, r.inner, StageKind::FlowMap),
    {
        SourceWithContext { inner: self.inner.through(StageKind::FlowMap, MapContextStage { func }) }
    }

    /// Runs the pairs through a context-preserving flow.
    pub fn via<T, Mat2, S: MatStage<(Ctx, Out), (Ctx, T), Mat2>>(self, flow: FlowWithContext<Ctx, Out, T, Mat2, S>)
        -> (r: SourceWithContext<Ctx, T, Mat>)
        requires flow.inner.stage.ready_with_mat(),
        ensures
            exists|m2: Mat2| #[trigger] flow.inner.stage.runs(self.inner.body, flow.inner.mat, r.inner.body, m2),
            kinds_of(r.inner.graph.nodes@) == kinds_of(self.inner.graph.nodes@) + kinds_of(flow.inner.graph.nodes@),
            r.inner.mat == self.inner.mat,
    {
        SourceWithContext { inner: self.inner.via(flow.inner) }
    }
}

impl<Out> Source<Out, StreamNotUsed> {
    /// Attaches the unit context to every element.
    pub fn as_source_with_context(self) -> (r: SourceWithContext<(), Out, StreamNotUsed>)
        ensures
            r.inner.body.elements@.len() == self.body.elements@.len(),
            forall|i: int| 0 <= i < self.body.elements@.len()
                ==> #[trigger] r.inner.body.elements@[i] == ((), self.body.elements@[i]),
            r.inner.body.end == self.body.end,
            stage_added(self, r.inner, StageKind::FlowMap),
    {
        let r = self.through(StageKind::FlowMap, UnitContextStage);
        SourceWithContext { inner: r }
    }
}

/// Pairs every element with the unit context.
pub struct UnitContextStage;

impl<T> FlowStage<T, ((), T)> for UnitContextStage {
    open spec fn ready(&self) -> bool { true }

    open spec fn yields(&self, input: StreamBody<T>, output: StreamBody<((), T)>) -> bool {
        &&& output.elements@.len() == input.elements@.len()
        &&& forall|i: int| 0 <= i < input.elements@.len() ==> #[trigger] output.elements@[i] == ((), input.elements@[i])
        &&& output.end == input.end
    }

    fn run(self, input: StreamBody<T>) -> (output: StreamBody<((), T)>) {
        let StreamBody { elements, end, .. } = input;
        let ghost xs = elements@;
        let mut out: Vec<((), T)> = Vec::new();
        for x in it: elements.into_iter()
            invariant
                it.seq() == xs,
                out.len() == it.index(),
                forall|i: int| 0 <= i < out.len() ==> #[trigger] out@[i] == ((), xs[i]),
        {
            out.push(((), x));
        }
        StreamBody { elements: out, end, ticks: Vec::new() }
    }
}

/// Context-preserving flow over an inner flow of (context, value) pairs.
pub struct FlowWithContext<Ctx, In, Out, Mat, S> {
    pub inner: Flow<(Ctx, In), (Ctx, Out), Mat, S>,
}

impl<Ctx, In, Out, Mat, S> FlowWithContext<Ctx, In, Out, Mat, S> {
    /// Wraps a flow of (context, value) pairs.
    pub fn from_flow(inner: Flow<(Ctx, In), (Ctx, Out), Mat, S>) -> (r: Self)
        ensures r.inner == inner,
    {
        FlowWithContext { inner }
    }

    /// The inner flow of (context, value) pairs.
    pub fn as_flow(self) -> (r: Flow<(Ctx, In), (Ctx, Out), Mat, S>)
        ensures r == self.inner,
    {
        self.inner
    }

    /// Maps every value through `func`, keeping its context.
    pub fn map<T, F: FnMut(Out) -> T>(self, func: F) -> (r: FlowWithContext<Ctx, In, T, Mat, Then<S, MapValueStage<F>, (Ctx, Out)>>)
        ensures
            r.inner.stage.first == self.inner.stage,
            r.inner.stage.second == (MapValueStage { func }),
            kinds_of(r.inner.graph.nodes@) == kinds_of(self.inner.graph.nodes@).push(StageKind::FlowMap),
            r.inner.mat == self.inner.mat,
    {
        FlowWithContext { inner: self.inner.then_stage(StageKind::FlowMap, MapValueStage { func }) }
    }

    /// Keeps the pairs whose value `predicate` accepts.
    pub fn filter<F: FnMut(&Out) -> bool>(self, predicate: F) -> (r: FlowWithContext<Ctx, In, Out, Mat, Then<S, FilterValueStage<F>, (Ctx, Out)>>)
        ensures
            r.inner.stage.first == self.inner.stage,
            r.inner.stage.second == (FilterValueStage { predicate }),
            kinds_of(r.inner.graph.nodes@) == kinds_of(self.inner.graph.nodes@).push(StageKind::FlowFilter),
            r.inner.mat == self.inner.mat,
    {
        FlowWithContext { inner: self.inner.then_stage(StageKind::FlowFilter, FilterValueStage { predicate }) }
    }

    /// Maps incoming contexts through `reverse` before this flow and outgoing contexts through
    /// `forward` after it.
    pub fn map_context<Ctx2, FF: FnMut(Ctx) -> Ctx2, FR: FnMut(Ctx2) -> Ctx>(self, forward: FF, reverse: FR)
        -> (r: FlowWithContext<Ctx2, In, Out, Mat, Then<Then<MapContextStage<FR>, S, (Ctx, In)>, MapContextStage<FF>, (Ctx, Out)>>)
        ensures
            r.inner.stage.first.first == (MapContextStage { func: reverse }),
            r.inner.stage.first.second == self.inner.stage,
            r.inner.stage.second == (MapContextStage { func: forward }),
            kinds_of(r.inner.graph.nodes@) == seq![StageKind::FlowMap] + kinds_of(self.inner.graph.nodes@) + seq![StageKind::FlowMap],
            r.inner.mat == self.inner.mat,
    {
        let Flow { graph, stage, mat, _pd } = self.inner;
        let mut g = add_flow_stage(StreamGraph::new(), StageKind::FlowMap);
        g.append(graph);
        let g = add_flow_stage(g, StageKind::FlowMap);
        let st = Then::new(Then::new(MapContextStage { func: reverse }, stage), MapContextStage { func: forward });
        FlowWithContext { inner: Flow { graph: g, stage: st, mat, _pd: core::marker::PhantomData } }
    }

    /// Follows this flow with `flow`, keeping this flow's materialized value.
    pub fn via<T, Mat2, S2>(self, flow: FlowWithContext<Ctx, Out, T, Mat2, S2>) -> (r: FlowWithContext<Ctx, In, T, Mat, Then<S, S2, (Ctx, Out)>>)
        ensures
            r.inner.stage.first == self.inner.stage,
            r.inner.stage.second == flow.inner.stage,
            r.inner.mat == self.inner.mat,
    {
        FlowWithContext { inner: self.inner.via(flow.inner) }
    }
}

} // verus!
