//! Bidirectional flows: a top flow and a bottom flow that travel together.
use vstd::prelude::*;
use crate::flow::Flow;
use crate::graph::kinds_of;
use crate::mat::StreamNotUsed;
use crate::stages::{Identity, MapStage, Then};

verus! {

/// A pair of flows, one for each direction, with a materialized value.
pub struct BidiFlow<InTop, OutTop, InBottom, OutBottom, Mat, ST = Identity, SB = Identity> {
    pub top: Flow<InTop, OutTop, StreamNotUsed, ST>,
    pub bottom: Flow<InBottom, OutBottom, StreamNotUsed, SB>,
    pub mat: Mat,
}

impl<T> BidiFlow<T, T, T, T, StreamNotUsed, Identity, Identity> {
    /// The bidirectional flow that passes elements unchanged both ways.
    pub fn identity() -> (r: Self)
        ensures
            r.top.graph.nodes@.len() == 0,
            r.bottom.graph.nodes@.len() == 0,
            r.mat == (StreamNotUsed {}),
    {
        Self::from_flows(Flow::new(), Flow::new())
    }
}

impl<InTop, OutTop, InBottom, OutBottom, ST, SB> BidiFlow<InTop, OutTop, InBottom, OutBottom, StreamNotUsed, ST, SB> {
    /// Pairs `top` and `bottom`.
    pub fn from_flows(top: Flow<InTop, OutTop, StreamNotUsed, ST>, bottom: Flow<InBottom, OutBottom, StreamNotUsed, SB>) -> (r: Self)
        ensures r.top == top, r.bottom == bottom, r.mat == (StreamNotUsed {}),
    {
        BidiFlow { top, bottom, mat: StreamNotUsed::new() }
    }
}

impl<InTop, OutTop, InBottom, OutBottom, FOut: FnMut(InTop) -> OutTop, FIn: FnMut(InBottom) -> OutBottom>
    BidiFlow<InTop, OutTop, InBottom, OutBottom, StreamNotUsed,
        Then<Identity, MapStage<FOut>, InTop>, Then<Identity, MapStage<FIn>, InBottom>> {
    /// Maps outgoing elements through `outbound` and incoming elements through `inbound`.
    pub fn from_functions(outbound: FOut, inbound: FIn) -> (r: Self)
        ensures
            r.top.stage.second == (MapStage { func: outbound }),
            r.bottom.stage.second == (MapStage { func: inbound }),
            r.mat == (StreamNotUsed {}),
    {
        Self::from_flows(Flow::from_function(outbound), Flow::from_function(inbound))
    }

    /// Alias of [`BidiFlow::from_functions`].
    pub fn from_function(outbound: FOut, inbound: FIn) -> (r: Self)
        ensures
            r.top.stage.second == (MapStage { func: outbound }),
            r.bottom.stage.second == (MapStage { func: inbound }),
            r.mat == (StreamNotUsed {}),
    {
        Self::from_functions(outbound, inbound)
    }
}

impl<InTop, OutTop, InBottom, OutBottom, Mat, ST, SB> BidiFlow<InTop, OutTop, InBottom, OutBottom, Mat, ST, SB> {
    /// Pairs `top` and `bottom` with the materialized value `mat`.
    pub fn from_flows_mat(top: Flow<InTop, OutTop, StreamNotUsed, ST>, bottom: Flow<InBottom, OutBottom, StreamNotUsed, SB>, mat: Mat)
        -> (r: Self)
        ensures r.top == top, r.bottom == bottom, r.mat == mat,
    {
        BidiFlow { top, bottom, mat }
    }

    /// The top flow, the bottom flow and the materialized value.
    pub fn split(self) -> (r: (Flow<InTop, OutTop, StreamNotUsed, ST>, Flow<InBottom, OutBottom, StreamNotUsed, SB>, Mat))
        ensures r.0 == self.top, r.1 == self.bottom, r.2 == self.mat,
    {
        (self.top, self.bottom, self.mat)
    }

    /// Swaps the two directions.
    pub fn reversed(self) -> (r: BidiFlow<InBottom, OutBottom, InTop, OutTop, Mat, SB, ST>)
        ensures r.top == self.bottom, r.bottom == self.top, r.mat == self.mat,
    {
        BidiFlow { top: self.bottom, bottom: self.top, mat: self.mat }
    }

    /// Stacks `bidi` under this one: outgoing elements go through this top then `bidi`'s top, and
    /// incoming ones through `bidi`'s bottom then this bottom. This materialized value is kept.
    pub fn atop<OutTop2, InBottom2, Mat2, ST2, SB2>(self, bidi: BidiFlow<OutTop, OutTop2, InBottom2, InBottom, Mat2, ST2, SB2>)
        -> (r: BidiFlow<InTop, OutTop2, InBottom2, OutBottom, Mat, Then<ST, ST2, OutTop>, Then<SB2, SB, InBottom>>)
        ensures
            r.top.stage.first == self.top.stage, r.top.stage.second == bidi.top.stage,
            r.bottom.stage.first == bidi.bottom.stage, r.bottom.stage.second == self.bottom.stage,
            kinds_of(r.top.graph.nodes@) == kinds_of(self.top.graph.nodes@) + kinds_of(bidi.top.graph.nodes@),
            kinds_of(r.bottom.graph.nodes@) == kinds_of(bidi.bottom.graph.nodes@) + kinds_of(self.bottom.graph.nodes@),
            r.mat == self.mat,
    {
        let BidiFlow { top, bottom, mat } = self;
        let BidiFlow { top: top2, bottom: bottom2, mat: _ } = bidi;
        BidiFlow { top: top.via(top2), bottom: bottom2.via(bottom), mat }
    }

    /// Closes the loop through `flow`: elements go through the top, then `flow`, then the bottom.
    /// This materialized value is kept.
    pub fn join<Mat2, S2>(self, flow: Flow<OutTop, InBottom, Mat2, S2>)
        -> (r: Flow<InTop, OutBottom, Mat, Then<Then<ST, S2, OutTop>, SB, InBottom>>)
        ensures
            r.stage.first.first == self.top.stage,
            r.stage.first.second == flow.stage,
            r.stage.second == self.bottom.stage,
            kinds_of(r.graph.nodes@) == kinds_of(self.top.graph.nodes@) + kinds_of(flow.graph.nodes@)
                + kinds_of(self.bottom.graph.nodes@),
            r.mat == self.mat,
    {
        let BidiFlow { top, bottom, mat } = self;
        let joined = top.via(flow).via(bottom);
        let Flow { graph, stage, mat: _, _pd } = joined;
        Flow { graph, stage, mat, _pd: core::marker::PhantomData }
    }
}

} // verus!
