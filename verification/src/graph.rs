//! The stream graph blueprint: stage definitions, their ports and the edges between them.
use vstd::prelude::*;
use crate::error::StreamError;
use crate::mat::MatCombine;
use crate::stage_kind::{StageKind, StageRole, spec_kind_fits, kind_fits};

verus! {

/// Identifier of a stage port.
#[derive(Debug, Clone, Copy, PartialEq, Eq, Structural)]
pub struct PortId {
    pub id: usize,
}

/// Typed inlet port of a stage.
pub struct Inlet<T> {
    pub port: PortId,
    pub _pd: core::marker::PhantomData<T>,
}

/// Typed outlet port of a stage.
pub struct Outlet<T> {
    pub port: PortId,
    pub _pd: core::marker::PhantomData<T>,
}

impl<T> Inlet<T> {
    /// Creates an inlet handle for a port.
    pub fn from_id(port: PortId) -> (r: Self)
        ensures r.port == port,
    {
        Inlet { port, _pd: core::marker::PhantomData }
    }

    /// The port of this inlet.
    pub fn id(&self) -> (r: PortId)
        ensures r == self.port,
    {
        self.port
    }
}

impl<T> Outlet<T> {
    /// Creates an outlet handle for a port.
    pub fn from_id(port: PortId) -> (r: Self)
        ensures r.port == port,
    {
        Outlet { port, _pd: core::marker::PhantomData }
    }

    /// The port of this outlet.
    pub fn id(&self) -> (r: PortId)
        ensures r == self.port,
    {
        self.port
    }
}

/// Metadata of one stage of a graph.
#[derive(Debug, Clone, Copy, PartialEq, Eq, Structural)]
pub struct StageDefinition {
    pub role: StageRole,
    pub kind: StageKind,
    pub inlet: Option<PortId>,
    pub outlet: Option<PortId>,
    pub mat_combine: MatCombine,
}

/// A node of the graph.
#[derive(Debug, Clone, Copy, PartialEq, Eq, Structural)]
pub struct GraphNode {
    pub id: usize,
    pub stage: StageDefinition,
}

/// A directed connection between two ports.
#[derive(Debug, Clone, Copy, PartialEq, Eq, Structural)]
pub struct GraphEdge {
    pub from: PortId,
    pub to: PortId,
    pub mat: MatCombine,
}

/// Immutable blueprint that stores stage connectivity.
pub struct StreamGraph {
    pub nodes: Vec<GraphNode>,
    pub edges: Vec<GraphEdge>,
    pub ports: Vec<PortId>,
    pub next_node_id: usize,
    pub next_port: usize,
    pub attributes: Attributes,
}

/// Named attributes attached to a graph, in the order they were added.
pub struct Attributes {
    pub names: Vec<String>,
}

impl Attributes {
    /// The attribute names, as character sequences.
    pub open spec fn spec_names(self) -> Seq<Seq<char>> {
        self.names@.map_values(|n: String| n@)
    }

    /// No attributes.
    pub fn new() -> (r: Self)
        ensures r.spec_names().len() == 0,
    {
        Attributes { names: Vec::new() }
    }

    /// A single name attribute.
    pub fn named(name: &str) -> (r: Self)
        ensures r.spec_names() == seq![name@],
    {
        let mut names: Vec<String> = Vec::new();
        names.push(name.to_owned());
        let r = Attributes { names };
        proof { assert(r.spec_names() =~= seq![name@]); }
        r
    }

    /// These attributes followed by `other`.
    pub fn and(self, other: Attributes) -> (r: Self)
        ensures r.spec_names() == self.spec_names() + other.spec_names(),
    {
        let Attributes { mut names } = self;
        let Attributes { names: mut more } = other;
        let ghost a = names@;
        let ghost b = more@;
        names.append(&mut more);
        let r = Attributes { names };
        proof { assert(r.spec_names() =~= a.map_values(|n: String| n@) + b.map_values(|n: String| n@)); }
        r
    }
}

/// A validated plan: the stages in order and the connections between their ports.
pub struct StreamPlan {
    pub stages: Vec<StageDefinition>,
    pub edges: Vec<(PortId, PortId, MatCombine)>,
}

/// Whether the graph has an edge from `from` to `to`.
pub open spec fn has_edge(edges: Seq<GraphEdge>, from: PortId, to: PortId) -> bool {
    exists|i: int| 0 <= i < edges.len() && (#[trigger] edges[i]).from == from && edges[i].to == to
}

/// The kinds of the stages, in order.
pub open spec fn kinds_of(nodes: Seq<GraphNode>) -> Seq<StageKind> {
    nodes.map_values(|n: GraphNode| n.stage.kind)
}

/// The number of stages of `role` among `nodes`.
pub open spec fn role_count(nodes: Seq<GraphNode>, role: StageRole) -> nat
    decreases nodes.len(),
{
    if nodes.len() == 0 {
        0
    } else {
        role_count(nodes.drop_last(), role) + (if nodes.last().stage.role == role { 1nat } else { 0nat })
    }
}

/// Whether every stage's kind fits its role.
pub open spec fn all_kinds_fit(nodes: Seq<GraphNode>) -> bool {
    forall|i: int| 0 <= i < nodes.len() ==> spec_kind_fits((#[trigger] nodes[i]).stage.role, nodes[i].stage.kind)
}

/// Shifts a port by `offset`.
pub open spec fn shifted(p: PortId, offset: usize) -> PortId {
    PortId { id: if p.id + offset <= usize::MAX { (p.id + offset) as usize } else { usize::MAX } }
}

/// Shifts an optional port by `offset`.
pub open spec fn shifted_opt(p: Option<PortId>, offset: usize) -> Option<PortId> {
    match p {
        Some(q) => Some(shifted(q, offset)),
        None => None,
    }
}

fn shift_port(p: PortId, offset: usize) -> (r: PortId)
    ensures r == shifted(p, offset),
{
    PortId { id: p.id.saturating_add(offset) }
}

fn shift_opt(p: Option<PortId>, offset: usize) -> (r: Option<PortId>)
    ensures r == shifted_opt(p, offset),
{
    match p {
        Some(q) => Some(shift_port(q, offset)),
        None => None,
    }
}

impl StreamGraph {
    /// Creates an empty graph.
    pub fn new() -> (r: Self)
        ensures
            r.nodes@.len() == 0,
            r.edges@.len() == 0,
            r.ports@.len() == 0,
            r.next_node_id == 0,
            r.next_port == 0,
    {
        StreamGraph { nodes: Vec::new(), edges: Vec::new(), ports: Vec::new(), next_node_id: 0, next_port: 0,
            attributes: Attributes::new() }
    }

    /// Whether `port` belongs to a stage of this graph.
    pub fn has_port(&self, port: PortId) -> (r: bool)
        ensures r == self.ports@.contains(port),
    {
        let mut i: usize = 0;
        while i < self.ports.len()
            invariant
                i <= self.ports.len(),
                forall|j: int| 0 <= j < i ==> self.ports@[j] != port,
            decreases self.ports.len() - i,
        {
            if self.ports[i] == port {
                return true;
            }
            i = i + 1;
        }
        false
    }

    /// Whether the graph already connects `from` to `to`.
    pub fn has_connection(&self, from: PortId, to: PortId) -> (r: bool)
        ensures r == has_edge(self.edges@, from, to),
    {
        let mut i: usize = 0;
        while i < self.edges.len()
            invariant
                i <= self.edges.len(),
                forall|j: int| 0 <= j < i ==> !((#[trigger] self.edges@[j]).from == from && self.edges@[j].to == to),
            decreases self.edges.len() - i,
        {
            let e = self.edges[i];
            if e.from == from && e.to == to {
                return true;
            }
            i = i + 1;
        }
        false
    }

    /// Replaces the attributes of this graph.
    pub fn set_attributes(&mut self, attributes: Attributes)
        ensures
            final(self).attributes.spec_names() == attributes.spec_names(),
            final(self).nodes@ == old(self).nodes@,
            final(self).edges@ == old(self).edges@,
            final(self).ports@ == old(self).ports@,
    {
        self.attributes = attributes;
    }

    /// Appends attributes after those of this graph.
    pub fn add_attributes(&mut self, attributes: Attributes)
        ensures
            final(self).attributes.spec_names() == old(self).attributes.spec_names() + attributes.spec_names(),
            final(self).nodes@ == old(self).nodes@,
            final(self).edges@ == old(self).edges@,
            final(self).ports@ == old(self).ports@,
    {
        let mut current = Attributes::new();
        core::mem::swap(&mut current, &mut self.attributes);
        self.attributes = current.and(attributes);
    }

    /// Connects two ports of this graph.
    ///
    /// Fails with `InvalidConnection` when a port is unknown or the two ports are already connected.
    pub fn connect<T>(&mut self, upstream: &Outlet<T>, downstream: &Inlet<T>, combine: MatCombine) -> (r: Result<(), StreamError>)
        ensures
            final(self).nodes@ == old(self).nodes@,
            final(self).ports@ == old(self).ports@,
            final(self).next_node_id == old(self).next_node_id,
            final(self).next_port == old(self).next_port,
            r is Ok <==> (old(self).ports@.contains(upstream.port) && old(self).ports@.contains(downstream.port)
                && !has_edge(old(self).edges@, upstream.port, downstream.port)),
            r is Ok ==> final(self).edges@ == old(self).edges@.push(GraphEdge { from: upstream.port, to: downstream.port, mat: combine }),
            r is Err ==> r == Err::<(), StreamError>(StreamError::InvalidConnection) && final(self).edges@ == old(self).edges@,
    {
        let from = upstream.id();
        let to = downstream.id();
        if !self.has_port(from) || !self.has_port(to) {
            return Err(StreamError::InvalidConnection);
        }
        if self.has_connection(from, to) {
            return Err(StreamError::InvalidConnection);
        }
        self.edges.push(GraphEdge { from, to, mat: combine });
        Ok(())
    }

    fn fresh_port(&mut self) -> (r: PortId)
        ensures
            r.id == old(self).next_port,
            final(self).next_port == (if old(self).next_port < usize::MAX { old(self).next_port + 1 } else { old(self).next_port as int }),
            final(self).nodes@ == old(self).nodes@,
            final(self).edges@ == old(self).edges@,
            final(self).ports@ == old(self).ports@.push(r),
            final(self).next_node_id == old(self).next_node_id,
    {
        let p = PortId { id: self.next_port };
        self.next_port = self.next_port.saturating_add(1);
        self.ports.push(p);
        p
    }

    /// Adds a stage of `role` and `kind` with fresh ports, and returns its definition.
    pub fn push_stage(&mut self, role: StageRole, kind: StageKind, mat_combine: MatCombine) -> (r: StageDefinition)
        ensures
            final(self).nodes@ == old(self).nodes@.push(GraphNode { id: old(self).next_node_id, stage: r }),
            final(self).edges@ == old(self).edges@,
            r.role == role,
            r.kind == kind,
            r.mat_combine == mat_combine,
            (role == StageRole::Source) == (r.inlet is None),
            (role == StageRole::Sink) == (r.outlet is None),
            r.inlet matches Some(p) ==> final(self).ports@.contains(p),
            r.outlet matches Some(p) ==> final(self).ports@.contains(p),
            forall|p: PortId| old(self).ports@.contains(p) ==> final(self).ports@.contains(p),
            final(self).next_node_id == (if old(self).next_node_id < usize::MAX { old(self).next_node_id + 1 } else { old(self).next_node_id as int }),
    {
        let ghost p0 = self.ports@;
        let inlet = match role {
            StageRole::Source => None,
            _ => Some(self.fresh_port()),
        };
        let ghost p1 = self.ports@;
        let outlet = match role {
            StageRole::Sink => None,
            _ => Some(self.fresh_port()),
        };
        proof {
            if let Some(p) = inlet { assert(self.ports@.contains(p)) by {
                if role != StageRole::Sink { assert(self.ports@.drop_last() == p1); assert(p1[p1.len() - 1] == p); assert(self.ports@[p1.len() - 1] == p); }
                else { assert(p1[p1.len() - 1] == p); }
            } }
            if let Some(p) = outlet { assert(self.ports@[self.ports@.len() - 1] == p); }
            assert forall|p: PortId| p0.contains(p) implies self.ports@.contains(p) by {
                let i = choose|i: int| 0 <= i < p0.len() && p0[i] == p;
                assert(self.ports@[i] == p);
            }
        }
        let stage = StageDefinition { role, kind, inlet, outlet, mat_combine };
        self.nodes.push(GraphNode { id: self.next_node_id, stage });
        self.next_node_id = self.next_node_id.saturating_add(1);
        stage
    }

    /// The inlet of the first stage, if any.
    pub open spec fn head_inlet_spec(self) -> Option<PortId> {
        if self.nodes@.len() == 0 { None } else { self.nodes@[0].stage.inlet }
    }

    /// The outlet of the last stage, if any.
    pub open spec fn tail_outlet_spec(self) -> Option<PortId> {
        if self.nodes@.len() == 0 { None } else { self.nodes@.last().stage.outlet }
    }

    /// The inlet of the first stage, if any.
    pub fn head_inlet(&self) -> (r: Option<PortId>)
        ensures
            r == self.head_inlet_spec(),
            self.nodes@.len() == 0 ==> r is None,
            self.nodes@.len() > 0 ==> r == self.nodes@[0].stage.inlet,
    {
        if self.nodes.len() == 0 { None } else { self.nodes[0].stage.inlet }
    }

    /// The outlet of the last stage, if any.
    pub fn tail_outlet(&self) -> (r: Option<PortId>)
        ensures
            r == self.tail_outlet_spec(),
            self.nodes@.len() == 0 ==> r is None,
            self.nodes@.len() > 0 ==> r == self.nodes@.last().stage.outlet,
    {
        if self.nodes.len() == 0 { None } else { self.nodes[self.nodes.len() - 1].stage.outlet }
    }

    /// Appends `other` after this graph, connecting this graph's last outlet to `other`'s first inlet.
    ///
    /// The ports and node identifiers of `other` are shifted past those of this graph.
    pub fn append(&mut self, other: StreamGraph)
        ensures
            old(self).nodes@.len() == 0 ==> final(self).nodes@ == other.nodes@ && final(self).edges@ == other.edges@,
            old(self).nodes@.len() > 0 && other.nodes@.len() == 0 ==> final(self).nodes@ == old(self).nodes@ && final(self).edges@ == old(self).edges@,
            final(self).nodes@.len() == old(self).nodes@.len() + other.nodes@.len(),
            kinds_of(final(self).nodes@) == kinds_of(old(self).nodes@) + kinds_of(other.nodes@),
            old(self).nodes@.len() > 0 && other.nodes@.len() > 0 ==>
                final(self).edges@.len() == old(self).edges@.len() + other.edges@.len()
                    + (if old(self).nodes@.last().stage.outlet is Some && other.nodes@[0].stage.inlet is Some { 1int } else { 0int }),
    {
        if self.nodes.len() == 0 {
            self.nodes = other.nodes;
            self.edges = other.edges;
            self.ports = other.ports;
            self.next_node_id = other.next_node_id;
            self.next_port = other.next_port;
            return;
        }
        if other.nodes.len() == 0 {
            return;
        }
        let offset = self.next_port;
        let node_offset = self.next_node_id;
        let StreamGraph { nodes: o_nodes, edges: o_edges, ports: o_ports, next_node_id: o_next_node, next_port: o_next_port,
            attributes: _ } = other;
        let tail = self.tail_outlet();
        let head = o_nodes[0].stage.inlet;
        let ghost e0 = self.edges@.len();
        match (tail, head) {
            (Some(from), Some(to)) => {
                self.edges.push(GraphEdge { from, to: shift_port(to, offset), mat: MatCombine::KeepLeft });
            },
            _ => {},
        }
        let ghost n0 = self.nodes@;
        let ghost e1 = self.edges@.len();
        let ghost on = o_nodes@;
        let ghost o_edges_len = o_edges@.len();
        for node in it: o_nodes.into_iter()
            invariant
                it.seq() == on,
                self.nodes@.len() == n0.len() + it.index(),
                kinds_of(self.nodes@) == kinds_of(n0) + kinds_of(it.seq().take(it.index() as int)),
                self.edges@.len() == e1,
        {
            let ghost i = it.index();
            let ghost k0 = kinds_of(self.nodes@);
            let stage = StageDefinition {
                role: node.stage.role,
                kind: node.stage.kind,
                inlet: shift_opt(node.stage.inlet, offset),
                outlet: shift_opt(node.stage.outlet, offset),
                mat_combine: node.stage.mat_combine,
            };
            self.nodes.push(GraphNode { id: node.id.saturating_add(node_offset), stage });
            proof {
                assert(kinds_of(self.nodes@) == k0.push(node.stage.kind));
                assert(kinds_of(it.seq().take(i + 1)) == kinds_of(it.seq().take(i as int)).push(node.stage.kind));
            }
        }
        proof { assert(on.take(on.len() as int) == on); }
        let ghost nodes_done = self.nodes@;
        for e in it: o_edges.into_iter()
            invariant
                self.edges@.len() == e1 + it.index(),
                self.nodes@ == nodes_done,
        {
            self.edges.push(GraphEdge { from: shift_port(e.from, offset), to: shift_port(e.to, offset), mat: e.mat });
        }
        for p in it: o_ports.into_iter()
            invariant
                self.nodes@ == nodes_done,
                self.edges@.len() == e1 + o_edges_len,
        {
            self.ports.push(shift_port(p, offset));
        }
        self.next_node_id = self.next_node_id.saturating_add(o_next_node);
        self.next_port = self.next_port.saturating_add(o_next_port);
    }

    /// Counts the stages of `role`.
    pub fn count_role(&self, role: StageRole) -> (r: usize)
        ensures r == role_count(self.nodes@, role),
    {
        let mut count: usize = 0;
        let mut i: usize = 0;
        while i < self.nodes.len()
            invariant
                i <= self.nodes.len(),
                count == role_count(self.nodes@.take(i as int), role),
                count <= i,
            decreases self.nodes.len() - i,
        {
            proof { assert(self.nodes@.take(i + 1).drop_last() == self.nodes@.take(i as int)); }
            if self.nodes[i].stage.role == role {
                count = count + 1;
            }
            i = i + 1;
        }
        proof { assert(self.nodes@.take(self.nodes@.len() as int) == self.nodes@); }
        count
    }

    /// Whether every stage's kind fits its role.
    pub fn kinds_fit(&self) -> (r: bool)
        ensures r == all_kinds_fit(self.nodes@),
    {
        let mut i: usize = 0;
        while i < self.nodes.len()
            invariant
                i <= self.nodes.len(),
                forall|j: int| 0 <= j < i ==> spec_kind_fits((#[trigger] self.nodes@[j]).stage.role, self.nodes@[j].stage.kind),
            decreases self.nodes.len() - i,
        {
            if !kind_fits(self.nodes[i].stage.role, self.nodes[i].stage.kind) {
                return false;
            }
            i = i + 1;
        }
        true
    }

    /// Splits a source-side graph into its source stage and its flow stages, in order.
    ///
    /// Fails with `InvalidConnection` unless the graph is non-empty, starts with a source, holds
    /// only flows after it, and every stage's kind fits its role.
    pub fn into_source_parts(self) -> (r: Result<(StageDefinition, Vec<StageDefinition>), StreamError>)
        ensures
            r is Ok <==> (self.nodes@.len() > 0 && all_kinds_fit(self.nodes@)
                && self.nodes@[0].stage.role == StageRole::Source
                && forall|i: int| 1 <= i < self.nodes@.len() ==> (#[trigger] self.nodes@[i]).stage.role == StageRole::Flow),
            r matches Ok(parts) ==> parts.0 == self.nodes@[0].stage
                && parts.1@ == self.nodes@.skip(1).map_values(|n: GraphNode| n.stage),
            r is Err ==> r == Err::<(StageDefinition, Vec<StageDefinition>), StreamError>(StreamError::InvalidConnection),
    {
        if self.nodes.len() == 0 || !self.kinds_fit() {
            return Err(StreamError::InvalidConnection);
        }
        let source = self.nodes[0].stage;
        if !matches!(source.role, StageRole::Source) {
            return Err(StreamError::InvalidConnection);
        }
        let ghost nodes = self.nodes@;
        let mut flows: Vec<StageDefinition> = Vec::new();
        let mut i: usize = 1;
        while i < self.nodes.len()
            invariant
                1 <= i <= self.nodes.len(),
                self.nodes@ == nodes,
                forall|j: int| 1 <= j < i ==> (#[trigger] nodes[j]).stage.role == StageRole::Flow,
                flows@ == nodes.subrange(1, i as int).map_values(|n: GraphNode| n.stage),
            decreases self.nodes.len() - i,
        {
            let stage = self.nodes[i].stage;
            if !matches!(stage.role, StageRole::Flow) {
                return Err(StreamError::InvalidConnection);
            }
            flows.push(stage);
            proof {
                assert(nodes.subrange(1, i + 1).map_values(|n: GraphNode| n.stage)
                    == nodes.subrange(1, i as int).map_values(|n: GraphNode| n.stage).push(nodes[i as int].stage));
            }
            i = i + 1;
        }
        proof { assert(nodes.subrange(1, nodes.len() as int) == nodes.skip(1)); }
        Ok((source, flows))
    }

    /// Converts this graph into a runnable plan.
    ///
    /// Fails with `InvalidConnection` unless the graph is non-empty, every stage's kind fits its
    /// role, and there is exactly one source and exactly one sink.
    pub fn into_plan(self) -> (r: Result<StreamPlan, StreamError>)
        ensures
            r is Ok <==> (self.nodes@.len() > 0 && all_kinds_fit(self.nodes@)
                && role_count(self.nodes@, StageRole::Source) == 1 && role_count(self.nodes@, StageRole::Sink) == 1),
            r matches Ok(plan) ==> plan.stages@ == self.nodes@.map_values(|n: GraphNode| n.stage)
                && plan.edges@.len() == self.edges@.len(),
            r is Err ==> r == Err::<StreamPlan, StreamError>(StreamError::InvalidConnection),
    {
        if self.nodes.len() == 0 || !self.kinds_fit() {
            return Err(StreamError::InvalidConnection);
        }
        if self.count_role(StageRole::Source) != 1 || self.count_role(StageRole::Sink) != 1 {
            return Err(StreamError::InvalidConnection);
        }
        let ghost nodes = self.nodes@;
        let mut stages: Vec<StageDefinition> = Vec::new();
        let mut i: usize = 0;
        while i < self.nodes.len()
            invariant
                i <= self.nodes.len(),
                self.nodes@ == nodes,
                stages@ == nodes.take(i as int).map_values(|n: GraphNode| n.stage),
            decreases self.nodes.len() - i,
        {
            stages.push(self.nodes[i].stage);
            proof { assert(nodes.take(i + 1).map_values(|n: GraphNode| n.stage) == nodes.take(i as int).map_values(|n: GraphNode| n.stage).push(nodes[i as int].stage)); }
            i = i + 1;
        }
        proof { assert(nodes.take(nodes.len() as int) == nodes); }
        let mut edges: Vec<(PortId, PortId, MatCombine)> = Vec::new();
        let mut j: usize = 0;
        while j < self.edges.len()
            invariant
                j <= self.edges.len(),
                edges.len() == j,
            decreases self.edges.len() - j,
        {
            let e = self.edges[j];
            edges.push((e.from, e.to, e.mat));
            j = j + 1;
        }
        Ok(StreamPlan { stages, edges })
    }

    /// The kinds of the stages, in order.
    pub fn stage_kinds(&self) -> (r: Vec<StageKind>)
        ensures r@ == kinds_of(self.nodes@),
    {
        let mut out: Vec<StageKind> = Vec::new();
        let mut i: usize = 0;
        while i < self.nodes.len()
            invariant
                i <= self.nodes.len(),
                out@ == kinds_of(self.nodes@.take(i as int)),
            decreases self.nodes.len() - i,
        {
            out.push(self.nodes[i].stage.kind);
            proof { assert(kinds_of(self.nodes@.take(i + 1)) == kinds_of(self.nodes@.take(i as int)).push(self.nodes@[i as int].stage.kind)); }
            i = i + 1;
        }
        proof { assert(self.nodes@.take(self.nodes@.len() as int) == self.nodes@); }
        out
    }

    /// The materialized-value rules of the stages, in order.
    pub fn stage_mat_combines(&self) -> (r: Vec<MatCombine>)
        ensures r@ == self.nodes@.map_values(|n: GraphNode| n.stage.mat_combine),
    {
        let mut out: Vec<MatCombine> = Vec::new();
        let mut i: usize = 0;
        while i < self.nodes.len()
            invariant
                i <= self.nodes.len(),
                out@ == self.nodes@.take(i as int).map_values(|n: GraphNode| n.stage.mat_combine),
            decreases self.nodes.len() - i,
        {
            out.push(self.nodes[i].stage.mat_combine);
            proof { assert(self.nodes@.take(i + 1).map_values(|n: GraphNode| n.stage.mat_combine) == self.nodes@.take(i as int).map_values(|n: GraphNode| n.stage.mat_combine).push(self.nodes@[i as int].stage.mat_combine)); }
            i = i + 1;
        }
        proof { assert(self.nodes@.take(self.nodes@.len() as int) == self.nodes@); }
        out
    }

    /// The number of connections.
    pub fn connection_count(&self) -> (r: usize)
        ensures r == self.edges@.len(),
    {
        self.edges.len()
    }

    /// The number of stages.
    pub fn stage_count(&self) -> (r: usize)
        ensures r == self.nodes@.len(),
    {
        self.nodes.len()
    }
}


} // verus!
