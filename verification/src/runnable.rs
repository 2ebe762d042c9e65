//! Closed graphs: a source connected to a sink, ready to run, and their materialized value.
use vstd::prelude::*;
use crate::error::StreamError;
use crate::graph::{StreamGraph, StreamPlan, kinds_of, all_kinds_fit, role_count};
use crate::stage_kind::StageRole;
use crate::mat::{MatCombineRule, KeepLeft, KeepRight};
use crate::sink::{Sink, SinkStage};
use crate::source::Source;

verus! {

/// A source connected to a sink: the joined blueprint and the materialized value the run produced.
pub struct RunnableGraph<Mat> {
    pub graph: StreamGraph,
    pub mat: Mat,
}

impl<Mat> RunnableGraph<Mat> {
    /// Wraps a closed blueprint and its materialized value.
    pub fn new(graph: StreamGraph, mat: Mat) -> (r: Self)
        ensures r.graph == graph, r.mat == mat,
    {
        RunnableGraph { graph, mat }
    }

    /// Runs the graph and hands out its materialized value.
    pub fn run(self) -> (r: Mat)
        ensures r == self.mat,
    {
        self.mat
    }

    /// The execution plan of the blueprint, with the materialized value; the plan is refused as
    /// the blueprint's own check refuses it.
    pub fn into_parts(self) -> (r: Result<(StreamPlan, Mat), StreamError>)
        ensures
            r is Ok <==> (self.graph.nodes@.len() > 0 && all_kinds_fit(self.graph.nodes@)
                && role_count(self.graph.nodes@, StageRole::Source) == 1
                && role_count(self.graph.nodes@, StageRole::Sink) == 1),
            r matches Ok(p) ==> p.1 == self.mat,
            r is Err ==> r == Err::<(StreamPlan, Mat), StreamError>(StreamError::InvalidConnection),
    {
        let RunnableGraph { graph, mat } = self;
        match graph.into_plan() {
            Ok(plan) => Ok((plan, mat)),
            Err(e) => Err(e),
        }
    }
}

/// `r` is the run of `s` into `sink`: the sink consumed what `s` emits, and the materialized values
/// were combined by `C`.
pub open spec fn ran_into<Out, Mat, Mat2, L: SinkStage<Out, Mat2>, C: MatCombineRule<Mat, Mat2>>(
    s: Source<Out, Mat>,
    sink: Sink<Out, Mat2, L>,
    r: RunnableGraph<C::Out>,
) -> bool {
    &&& exists|m2: Mat2| #[trigger] sink.logic.settles(s.body, sink.mat, m2) && r.mat == C::spec_combine(s.mat, m2)
    &&& kinds_of(r.graph.nodes@) == kinds_of(s.graph.nodes@) + kinds_of(sink.graph.nodes@)
}

impl<Out, Mat> Source<Out, Mat> {
    /// Connects this source to `sink` and runs it; `combine` picks the materialized value.
    pub fn to_mat<Mat2, L: SinkStage<Out, Mat2>, C: MatCombineRule<Mat, Mat2>>(self, sink: Sink<Out, Mat2, L>, combine: C)
        -> (r: RunnableGraph<C::Out>)
        requires sink.logic.ready(),
        ensures ran_into::<Out, Mat, Mat2, L, C>(self, sink, r),
    {
        let Source { graph, body, mat } = self;
        let Sink { graph: sink_graph, logic, mat: sink_mat, _pd } = sink;
        let mut g = graph;
        g.append(sink_graph);
        let settled = logic.settle(body, sink_mat);
        let m = C::combine(mat, settled);
        RunnableGraph { graph: g, mat: m }
    }

    /// Connects this source to `sink` and runs it, keeping the source's materialized value.
    pub fn to<Mat2, L: SinkStage<Out, Mat2>>(self, sink: Sink<Out, Mat2, L>) -> (r: RunnableGraph<Mat>)
        requires sink.logic.ready(),
        ensures ran_into::<Out, Mat, Mat2, L, KeepLeft>(self, sink, r),
    {
        self.to_mat(sink, KeepLeft)
    }

    /// Runs this source into `sink` and hands out the sink's settled materialized value.
    pub fn run_with<Mat2, L: SinkStage<Out, Mat2>>(self, sink: Sink<Out, Mat2, L>) -> (r: Mat2)
        requires sink.logic.ready(),
        ensures sink.logic.settles(self.body, sink.mat, r),
    {
        let g = self.to_mat(sink, KeepRight);
        g.run()
    }
}

} // verus!
