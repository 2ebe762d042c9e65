//! A fluent builder that connects stages from a source outlet.
use vstd::prelude::*;
use crate::error::StreamError;
use crate::flow::Flow;
use crate::graph::{StreamGraph, Inlet, Outlet, PortId, has_edge};
use crate::mat::MatCombine;
use crate::runnable::RunnableGraph;
use crate::sink::Sink;

verus! {

/// Fluent builder for connecting stages from an outlet of a graph.
pub struct StreamBuilder<T> {
    pub graph: StreamGraph,
    pub outlet: Outlet<T>,
}

/// Whether `graph` accepts a new connection from `from` to `to`.
pub open spec fn connectable(graph: StreamGraph, from: PortId, to: Option<PortId>) -> bool {
    to matches Some(p) && graph.ports@.contains(from) && graph.ports@.contains(p) && !has_edge(graph.edges@, from, p)
}

/// The port of an optional port, or port zero.
fn port_or_zero(p: Option<PortId>) -> (r: PortId)
    ensures p matches Some(q) ==> r == q,
{
    match p {
        Some(q) => q,
        None => PortId { id: 0 },
    }
}

impl<T> StreamBuilder<T> {
    /// Starts building from `outlet` of `graph`.
    pub fn new(graph: StreamGraph, outlet: Outlet<T>) -> (r: Self)
        ensures r.graph == graph, r.outlet == outlet,
    {
        StreamBuilder { graph, outlet }
    }

    /// Connects the current outlet to the flow's first inlet and continues from the flow's last
    /// outlet; fails with `InvalidConnection` when the graph refuses the connection.
    pub fn via<Out, Mat, S>(self, flow: &Flow<T, Out, Mat, S>, combine: MatCombine) -> (r: Result<StreamBuilder<Out>, StreamError>)
        ensures
            r is Ok <==> connectable(self.graph, self.outlet.port, flow.graph.head_inlet_spec()) && flow.graph.tail_outlet_spec() is Some,
            r is Err ==> r == Err::<StreamBuilder<Out>, StreamError>(StreamError::InvalidConnection),
            r matches Ok(b) ==> b.graph.edges@ == self.graph.edges@.push(crate::graph::GraphEdge {
                    from: self.outlet.port, to: flow.graph.head_inlet_spec()->0, mat: combine })
                && b.graph.nodes@ == self.graph.nodes@
                && Some(b.outlet.port) == flow.graph.tail_outlet_spec(),
    {
        let head = flow.graph.head_inlet();
        let tail = flow.graph.tail_outlet();
        if head.is_none() || tail.is_none() {
            return Err(StreamError::InvalidConnection);
        }
        let inlet: Inlet<T> = Inlet::from_id(port_or_zero(head));
        let mut graph = self.graph;
        match graph.connect(&self.outlet, &inlet, combine) {
            Ok(()) => Ok(StreamBuilder { graph, outlet: Outlet::from_id(port_or_zero(tail)) }),
            Err(e) => Err(e),
        }
    }

    /// Connects the current outlet to the sink's inlet and yields the runnable graph, whose
    /// materialized value is the combine rule; fails with `InvalidConnection` when the graph
    /// refuses the connection.
    pub fn to<Mat, L>(self, sink: &Sink<T, Mat, L>, combine: MatCombine) -> (r: Result<RunnableGraph<MatCombine>, StreamError>)
        ensures
            r is Ok <==> connectable(self.graph, self.outlet.port, sink.graph.head_inlet_spec()),
            r is Err ==> r == Err::<RunnableGraph<MatCombine>, StreamError>(StreamError::InvalidConnection),
            r matches Ok(g) ==> g.mat == combine && g.graph.nodes@ == self.graph.nodes@
                && g.graph.edges@ == self.graph.edges@.push(crate::graph::GraphEdge {
                    from: self.outlet.port, to: sink.graph.head_inlet_spec()->0, mat: combine }),
    {
        let head = sink.graph.head_inlet();
        if head.is_none() {
            return Err(StreamError::InvalidConnection);
        }
        let inlet: Inlet<T> = Inlet::from_id(port_or_zero(head));
        let mut graph = self.graph;
        match graph.connect(&self.outlet, &inlet, combine) {
            Ok(()) => Ok(RunnableGraph::new(graph, combine)),
            Err(e) => Err(e),
        }
    }
}

} // verus!
