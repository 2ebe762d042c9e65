//! Sources: stream stages with one output, modelled by the elements they emit.
use vstd::prelude::*;
use vstd::string::StrSliceExecFns;
use vstd::string::StringSliceAdditionalSpecFns;
use crate::body::{StreamBody, StreamEnd, arrivals, spec_collected, spec_take, spec_drop, mapped_by, filtered_by, rejected_by,
    accepted_prefix, spec_groups, flatten};
use crate::error::{StreamError, StreamDslError, validate_positive_argument, spec_zero_argument};
use crate::graph::{StreamGraph, Inlet, Outlet, kinds_of};
use crate::logic::{SourceLogic, RepeatSourceLogic, CycleSourceLogic, PullStep, pulled_steps, pull_run, pull_ticks, pull_answers, IDLE_PULL_LIMIT, lemma_pulled_push};
use crate::mat::{MatCombine, StreamNotUsed};
use crate::ops;
use crate::stage_kind::{StageKind, StageRole};

verus! {

/// Source stage definition: a blueprint graph, the elements the source emits, and its materialized value.
pub struct Source<Out, Mat> {
    pub graph: StreamGraph,
    pub body: StreamBody<Out>,
    pub mat: Mat,
}

/// `r` is `s` with one more flow stage of `kind` and the same materialized value.
pub open spec fn stage_added<A, B, M>(s: Source<A, M>, r: Source<B, M>, kind: StageKind) -> bool {
    &&& kinds_of(r.graph.nodes@) == kinds_of(s.graph.nodes@).push(kind)
    &&& r.mat == s.mat
}

/// `r` emits what `s` emits, in the same way, with one more stage of `kind`.
pub open spec fn passes_through<A, M>(s: Source<A, M>, r: Source<A, M>, kind: StageKind) -> bool {
    &&& stage_added(s, r, kind)
    &&& r.body.elements@ == s.body.elements@
    &&& r.body.end == s.body.end
}

/// `r` is `s` with a new graph and the same emitted elements, ending and materialized value.
pub open spec fn same_stream<A, M>(s: Source<A, M>, r: Source<A, M>) -> bool {
    &&& r.body.elements@ == s.body.elements@
    &&& r.body.end == s.body.end
    &&& r.mat == s.mat
    &&& kinds_of(r.graph.nodes@) == kinds_of(s.graph.nodes@)
}

/// Whether `s` is a fresh source of `kind` that emits `xs` and ends with `end`.
pub open spec fn fresh_source<A>(s: Source<A, StreamNotUsed>, kind: StageKind, xs: Seq<A>, end: StreamEnd) -> bool {
    &&& kinds_of(s.graph.nodes@) == seq![kind]
    &&& s.body.elements@ == xs
    &&& s.body.end == end
    &&& arrivals(s.body) == Seq::new(xs.len(), |i: int| i)
    &&& s.mat == StreamNotUsed {}
}

/// Adds a flow stage of `kind` after the last stage of `graph` and connects the two.
pub fn add_flow_stage(graph: StreamGraph, kind: StageKind) -> (r: StreamGraph)
    ensures kinds_of(r.nodes@) == kinds_of(graph.nodes@).push(kind),
{
    let mut g = graph;
    let from = g.tail_outlet();
    let ghost k0 = kinds_of(g.nodes@);
    let stage = g.push_stage(StageRole::Flow, kind, MatCombine::KeepLeft);
    proof { assert(kinds_of(g.nodes@) == k0.push(kind)); }
    match (from, stage.inlet) {
        (Some(f), Some(t)) => {
            let _ = g.connect(&Outlet::<()>::from_id(f), &Inlet::<()>::from_id(t), MatCombine::KeepLeft);
        },
        _ => {},
    }
    g
}

/// A graph with a single source stage of `kind`.
pub fn source_graph(kind: StageKind) -> (r: StreamGraph)
    ensures kinds_of(r.nodes@) == seq![kind],
{
    let mut g = StreamGraph::new();
    let _ = g.push_stage(StageRole::Source, kind, MatCombine::KeepRight);
    proof { assert(kinds_of(g.nodes@) =~= seq![kind]); }
    g
}

/// Moves the elements of an array into a vector, in order (std's `From<[T; N]>` for `Vec<T>`).
#[verifier::external_body]
fn array_into_vec<T, const N: usize>(values: [T; N]) -> (r: Vec<T>)
    ensures r@ == values@,
{
    Vec::from(values)
}

/// `s` is a source of one stage of `kind` that emits what pulling `logic` over and over gave: the
/// elements up to its end, and the end as `pull_run` reads it from the answers; a logic that never
/// ends stalls the source after `u64::MAX` pulls.
pub open spec fn pulled_source<Out, L: SourceLogic<Out>>(s: Source<Out, StreamNotUsed>, kind: StageKind, logic: L) -> bool {
    &&& kinds_of(s.graph.nodes@) == seq![kind]
    &&& s.mat == (StreamNotUsed {})
    &&& exists|steps: Seq<PullStep<L, Out>>| #[trigger] pulled_steps(logic, steps) && {
        let run = pull_run(pull_answers(steps));
        &&& s.body.elements@ == run.0
        &&& arrivals(s.body) == pull_ticks(pull_answers(steps))
        &&& match run.2 {
            Some(end) => s.body.end == end,
            None => steps.len() == u64::MAX && s.body.end == StreamEnd::Stalled,
        }
    }
}

impl<Out> Source<Out, StreamNotUsed> {
    /// Creates a source of `kind` from its elements and ending.
    pub fn from_body(kind: StageKind, elements: Vec<Out>, end: StreamEnd) -> (r: Self)
        ensures fresh_source(r, kind, elements@, end),
    {
        let body = StreamBody { elements, end, ticks: Vec::new() };
        proof {
            if body.elements@.len() == 0 {
                assert(arrivals(body) =~= Seq::new(body.elements@.len(), |i: int| i));
            }
        }
        Source { graph: source_graph(kind), body, mat: StreamNotUsed {} }
    }

    /// Creates a source that emits no elements and completes immediately.
    pub fn empty() -> (r: Self)
        ensures fresh_source(r, StageKind::Custom, Seq::empty(), StreamEnd::Completed),
    {
        Self::from_body(StageKind::Custom, Vec::new(), StreamEnd::Completed)
    }

    /// Creates a source that emits a single element.
    pub fn single(value: Out) -> (r: Self)
        ensures fresh_source(r, StageKind::SourceSingle, seq![value], StreamEnd::Completed),
    {
        let mut v: Vec<Out> = Vec::new();
        v.push(value);
        proof { assert(v@ =~= seq![value]); }
        Self::from_body(StageKind::SourceSingle, v, StreamEnd::Completed)
    }

    /// Creates a source from an optional element: one element when present, none otherwise.
    pub fn from_option(value: Option<Out>) -> (r: Self)
        ensures
            value matches Some(v) ==> fresh_source(r, StageKind::SourceSingle, seq![v], StreamEnd::Completed),
            value is None ==> fresh_source(r, StageKind::Custom, Seq::empty(), StreamEnd::Completed),
    {
        match value {
            Some(v) => Self::single(v),
            None => Self::empty(),
        }
    }

    /// Alias of [`Source::from_option`].
    pub fn maybe(value: Option<Out>) -> (r: Self)
        ensures
            value matches Some(v) ==> fresh_source(r, StageKind::SourceSingle, seq![v], StreamEnd::Completed),
            value is None ==> fresh_source(r, StageKind::Custom, Seq::empty(), StreamEnd::Completed),
    {
        Self::from_option(value)
    }

    /// Creates a source that emits the elements of a vector in order.
    pub fn from_vec(values: Vec<Out>) -> (r: Self)
        ensures fresh_source(r, StageKind::Custom, values@, StreamEnd::Completed),
    {
        Self::from_body(StageKind::Custom, values, StreamEnd::Completed)
    }

    /// Creates a source that emits the elements of an array in order.
    pub fn from_array<const N: usize>(values: [Out; N]) -> (r: Self)
        ensures fresh_source(r, StageKind::Custom, values@, StreamEnd::Completed),
    {
        Self::from_vec(array_into_vec(values))
    }

    /// Creates a source that emits the collected elements of an iteration, in order, and completes.
    pub fn from_iterator(values: Vec<Out>) -> (r: Self)
        ensures fresh_source(r, StageKind::Custom, values@, StreamEnd::Completed),
    {
        Self::from_vec(values)
    }

    /// Alias of [`Source::from_iterator`].
    pub fn from(values: Vec<Out>) -> (r: Self)
        ensures fresh_source(r, StageKind::Custom, values@, StreamEnd::Completed),
    {
        Self::from_iterator(values)
    }

    /// Alias of [`Source::from_iterator`] for actor-style pushed values.
    pub fn actor_ref(values: Vec<Out>) -> (r: Self)
        ensures fresh_source(r, StageKind::Custom, values@, StreamEnd::Completed),
    {
        Self::from_iterator(values)
    }

    /// Alias of [`Source::actor_ref`].
    pub fn actor_ref_with_backpressure(values: Vec<Out>) -> (r: Self)
        ensures fresh_source(r, StageKind::Custom, values@, StreamEnd::Completed),
    {
        Self::actor_ref(values)
    }

    /// Alias of [`Source::from_iterator`].
    pub fn from_java_stream(values: Vec<Out>) -> (r: Self)
        ensures fresh_source(r, StageKind::Custom, values@, StreamEnd::Completed),
    {
        Self::from_iterator(values)
    }

    /// Alias of [`Source::from_iterator`].
    pub fn from_publisher(values: Vec<Out>) -> (r: Self)
        ensures fresh_source(r, StageKind::Custom, values@, StreamEnd::Completed),
    {
        Self::from_iterator(values)
    }

    /// Alias of [`Source::from_iterator`].
    pub fn from_input_stream(values: Vec<Out>) -> (r: Self)
        ensures fresh_source(r, StageKind::Custom, values@, StreamEnd::Completed),
    {
        Self::from_iterator(values)
    }

    /// Alias of [`Source::from_iterator`].
    pub fn from_output_stream(values: Vec<Out>) -> (r: Self)
        ensures fresh_source(r, StageKind::Custom, values@, StreamEnd::Completed),
    {
        Self::from_iterator(values)
    }

    /// Alias of [`Source::from_iterator`] for queue-style pushed values.
    pub fn queue(values: Vec<Out>) -> (r: Self)
        ensures fresh_source(r, StageKind::Custom, values@, StreamEnd::Completed),
    {
        Self::from_iterator(values)
    }

    /// Creates a source that fails with `error` without emitting elements.
    pub fn failed(error: StreamError) -> (r: Self)
        ensures fresh_source(r, StageKind::Custom, Seq::empty(), StreamEnd::Failed(error)),
    {
        Self::from_body(StageKind::Custom, Vec::new(), StreamEnd::Failed(error))
    }

    /// Creates a source that never emits and never completes.
    pub fn never() -> (r: Self)
        ensures fresh_source(r, StageKind::Custom, Seq::empty(), StreamEnd::Stalled),
    {
        Self::from_body(StageKind::Custom, Vec::new(), StreamEnd::Stalled)
    }

    /// Creates a source that emits one element produced by `factory`.
    pub fn lazy_single<F: FnOnce() -> Out>(factory: F) -> (r: Self)
        requires call_requires(factory, ()),
        ensures
            kinds_of(r.graph.nodes@) == seq![StageKind::SourceSingle],
            r.body.elements@.len() == 1,
            call_ensures(factory, (), r.body.elements@[0]),
            r.body.end == StreamEnd::Completed,
    {
        let value = factory();
        let r = Self::single(value);
        r
    }

    /// Creates a source whose elements are those of the source built by `factory`.
    pub fn lazy_source<F: FnOnce() -> Source<Out, StreamNotUsed>>(factory: F) -> (r: Self)
        requires call_requires(factory, ()),
        ensures
            kinds_of(r.graph.nodes@) == seq![StageKind::Custom],
            exists|inner: Source<Out, StreamNotUsed>| call_ensures(factory, (), inner)
                && r.body.elements@ == inner.body.elements@ && r.body.end == inner.body.end,
    {
        let inner = factory();
        let Source { graph: _, body, mat: _ } = inner;
        let ghost b = body;
        let r = Self::from_body(StageKind::Custom, body.elements, body.end);
        r
    }

    /// Creates a source that pulls elements from `logic` until it finishes or fails.
    ///
    /// `WouldBlock` answers are retried; after `IDLE_PULL_LIMIT` consecutive ones the source
    /// stalls. The logic is pulled when the source is built, so a logic that never finishes makes
    /// this call run until its pull budget of `u64::MAX` pulls is spent, and the source stalls.
    pub fn from_logic<L: SourceLogic<Out>>(kind: StageKind, logic: L) -> (r: Self)
        requires logic.ready(),
        ensures pulled_source(r, kind, logic),
    {
        let ghost l0 = logic;
        let mut logic = logic;
        let mut out: Vec<Out> = Vec::new();
        let mut ticks: Vec<u64> = Vec::new();
        let mut idle: usize = 0;
        let mut fuel: u64 = u64::MAX;
        let mut end = StreamEnd::Stalled;
        let mut done = false;
        let ghost mut steps: Seq<PullStep<L, Out>> = Seq::empty();
        while fuel > 0 && !done
            invariant
                logic.ready(),
                pulled_steps(l0, steps),
                steps.len() == u64::MAX - fuel,
                logic == if steps.len() == 0 { l0 } else { steps.last().2 },
                pull_run(pull_answers(steps)).0 == out@,
                pull_ticks(pull_answers(steps)) == ticks@.map_values(|t: u64| t as int),
                ticks@.len() == out@.len(),
                pull_run(pull_answers(steps)).1 == idle,
                idle <= IDLE_PULL_LIMIT,
                done ==> pull_run(pull_answers(steps)).2 == Some(end),
                !done ==> pull_run(pull_answers(steps)).2 is None && end == StreamEnd::Stalled,
            decreases fuel,
        {
            let tick: u64 = u64::MAX - fuel;
            fuel = fuel - 1;
            let ghost before = logic;
            let ghost ticks0 = ticks@;
            let answer = logic.pull();
            let ghost step = (before, answer, logic);
            proof {
                let prior = steps;
                lemma_pulled_push(l0, steps, step);
                steps = steps.push(step);
                assert(pull_answers(steps) =~= pull_answers(prior).push(answer));
                assert(pull_answers(steps).drop_last() =~= pull_answers(prior));
            }
            match answer {
                Ok(Some(v)) => {
                    out.push(v);
                    ticks.push(tick);
                    idle = 0;
                    proof {
                        assert(ticks@.map_values(|t: u64| t as int) =~= ticks0.map_values(|t: u64| t as int).push(tick as int));
                    }
                },
                Ok(None) => {
                    end = StreamEnd::Completed;
                    done = true;
                },
                Err(StreamError::WouldBlock) => {
                    if idle >= IDLE_PULL_LIMIT {
                        end = StreamEnd::Stalled;
                        done = true;
                    } else {
                        idle = idle + 1;
                    }
                },
                Err(e) => {
                    end = StreamEnd::Failed(e);
                    done = true;
                },
            }
        }
        let mut r = Self::from_body(kind, out, end);
        r.body.ticks = ticks;
        r
    }

    /// A source that cycles over `values` forever; without values it completes at once. The
    /// elements are pulled when the source is built, so a cycle over some values stalls only after
    /// its pull budget of `u64::MAX` pulls is spent.
    pub fn cycle(values: Vec<Out>) -> (r: Self)
        where Out: Clone,
        ensures
            values@.len() == 0 ==> fresh_source(r, StageKind::Custom, Seq::empty(), StreamEnd::Completed),
            values@.len() > 0 ==> pulled_source(r, StageKind::Custom, CycleSourceLogic { values, index: 0 }),
    {
        if values.len() == 0 {
            return Self::empty();
        }
        Self::from_logic(StageKind::Custom, CycleSourceLogic { values, index: 0 })
    }

    /// A source that emits `value` again and again, every `interval_ticks` drive steps after a
    /// delay of `initial_delay_ticks`; fails when `interval_ticks` is zero. The elements are pulled
    /// when the source is built, so it stalls only after its pull budget of `u64::MAX` pulls.
    pub fn tick(initial_delay_ticks: usize, interval_ticks: usize, value: Out) -> (r: Result<Self, StreamDslError>)
        where Out: Clone,
        ensures
            interval_ticks == 0 <==> r is Err,
            r matches Err(e) ==> e == spec_zero_argument("interval_ticks"),
            r matches Ok(s) ==> exists|src: Self| #[trigger] pulled_source(src, StageKind::Custom, RepeatSourceLogic { value })
                && (initial_delay_ticks == 0 ==> s == src)
                && (initial_delay_ticks > 0 ==> passes_through(src, s, StageKind::FlowInitialDelay)),
    {
        let _ = validate_positive_argument("interval_ticks", interval_ticks)?;
        let src = Self::from_logic(StageKind::Custom, RepeatSourceLogic { value });
        if initial_delay_ticks > 0 {
            Ok(src.pass(StageKind::FlowInitialDelay))
        } else {
            Ok(src)
        }
    }

    /// Combines sources by selecting the first one; no sources give an empty source.
    pub fn combine(sources: Vec<Source<Out, StreamNotUsed>>) -> (r: Self)
        ensures
            sources@.len() > 0 ==> r == sources@[0],
            sources@.len() == 0 ==> fresh_source(r, StageKind::Custom, Seq::empty(), StreamEnd::Completed),
    {
        let mut sources = sources;
        if sources.len() == 0 {
            Self::empty()
        } else {
            sources.remove(0)
        }
    }
}

/// `states` are the states that unfolding `init` with `f` went through while it produced `xs`.
pub open spec fn unfold_trace<S, T, F: FnMut(S) -> Option<(S, T)>>(f: F, init: S, xs: Seq<T>, states: Seq<S>) -> bool {
    &&& states.len() == xs.len() + 1
    &&& states[0] == init
    &&& forall|i: int| 0 <= i < xs.len() ==> call_ensures(f, (#[trigger] states[i],), Some((states[i + 1], xs[i])))
}

impl<Out> Source<Out, StreamNotUsed> {
    /// Creates a source by unfolding `initial` with `func` until it returns `None`; the source then
    /// completes. A source that `func` keeps unfolding for 2^64 steps stalls.
    pub fn unfold<S, F: FnMut(S) -> Option<(S, Out)>>(initial: S, func: F) -> (r: Self)
        requires forall|s: S| call_requires(func, (s,)),
        ensures
            kinds_of(r.graph.nodes@) == seq![StageKind::Custom],
            r.mat == (StreamNotUsed {}),
            exists|states: Seq<S>| #[trigger] unfold_trace(func, initial, r.body.elements@, states)
                && (r.body.end == StreamEnd::Completed ==> call_ensures(func, (states.last(),), None))
                && (r.body.end == StreamEnd::Completed || r.body.end == StreamEnd::Stalled)
                && (r.body.end == StreamEnd::Stalled ==> r.body.elements@.len() == u64::MAX),
    {
        let mut f = func;
        let ghost f0 = f;
        let mut state = initial;
        let ghost mut states: Seq<S> = seq![initial];
        let mut out: Vec<Out> = Vec::new();
        let mut fuel: u64 = u64::MAX;
        let mut end = StreamEnd::Stalled;
        while fuel > 0
            invariant_except_break
                end == StreamEnd::Stalled,
                out@.len() == u64::MAX - fuel,
            invariant
                f == f0,
                forall|s: S| call_requires(f0, (s,)),
                states.len() == out.len() + 1,
                states[0] == initial,
                end == StreamEnd::Stalled ==> states.last() == state,
                forall|i: int| 0 <= i < out.len() ==> call_ensures(f0, (#[trigger] states[i],), Some((states[i + 1], out@[i]))),
                end == StreamEnd::Completed ==> call_ensures(f0, (states.last(),), None),
                end == StreamEnd::Completed || end == StreamEnd::Stalled,
            ensures
                end == StreamEnd::Stalled ==> out@.len() == u64::MAX,
            decreases fuel,
        {
            fuel = fuel - 1;
            let ghost before = state;
            match f(state) {
                Some((next, value)) => {
                    proof { states = states.push(next); }
                    out.push(value);
                    state = next;
                },
                None => {
                    end = StreamEnd::Completed;
                    break;
                },
            }
        }
        proof { assert(unfold_trace(f0, initial, out@, states)); }
        Self::from_body(StageKind::Custom, out, end)
    }

    /// Alias of [`Source::unfold`].
    pub fn unfold_resource<S, F: FnMut(S) -> Option<(S, Out)>>(initial: S, func: F) -> (r: Self)
        requires forall|s: S| call_requires(func, (s,)),
        ensures
            kinds_of(r.graph.nodes@) == seq![StageKind::Custom],
            r.mat == (StreamNotUsed {}),
            exists|states: Seq<S>| #[trigger] unfold_trace(func, initial, r.body.elements@, states)
                && (r.body.end == StreamEnd::Completed ==> call_ensures(func, (states.last(),), None))
                && (r.body.end == StreamEnd::Completed || r.body.end == StreamEnd::Stalled)
                && (r.body.end == StreamEnd::Stalled ==> r.body.elements@.len() == u64::MAX),
    {
        Self::unfold(initial, func)
    }
}

impl Source<i32, StreamNotUsed> {
    /// Creates a source that emits all integers between `start` and `end`, inclusive, in order from `start`.
    pub fn range(start: i32, end: i32) -> (r: Self)
        ensures
            r.body.end == StreamEnd::Completed,
            kinds_of(r.graph.nodes@) == seq![StageKind::Custom],
            start <= end ==> r.body.elements@.len() == end - start + 1
                && forall|i: int| 0 <= i < r.body.elements@.len() ==> #[trigger] r.body.elements@[i] == start + i,
            start > end ==> r.body.elements@.len() == start - end + 1
                && forall|i: int| 0 <= i < r.body.elements@.len() ==> #[trigger] r.body.elements@[i] == start - i,
    {
        let mut out: Vec<i32> = Vec::new();
        if start <= end {
            let mut x = start;
            loop
                invariant_except_break
                    start <= x <= end,
                    out.len() == x - start,
                invariant
                    forall|i: int| 0 <= i < out.len() ==> #[trigger] out@[i] == start + i,
                ensures
                    out.len() == end - start + 1,
                decreases end - x,
            {
                out.push(x);
                if x == end {
                    break;
                }
                x = x + 1;
            }
        } else {
            let mut x = start;
            loop
                invariant_except_break
                    end <= x <= start,
                    out.len() == start - x,
                invariant
                    forall|i: int| 0 <= i < out.len() ==> #[trigger] out@[i] == start - i,
                ensures
                    out.len() == start - end + 1,
                decreases x - end,
            {
                out.push(x);
                if x == end {
                    break;
                }
                x = x - 1;
            }
        }
        Self::from_body(StageKind::Custom, out, StreamEnd::Completed)
    }
}

impl Source<u8, StreamNotUsed> {
    /// Creates a source that emits the bytes of `path`.
    pub fn from_path(path: &str) -> (r: Self)
        ensures fresh_source(r, StageKind::Custom, path.spec_bytes(), StreamEnd::Completed),
    {
        Self::from_vec(path.as_bytes_vec())
    }
}

} // verus!
