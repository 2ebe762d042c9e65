# fraktor_streams

A typed stream-processing DSL — sources, flows, sinks, bidirectional flows and the stage
logics a stream runtime drives — written in Verus. Every operator states in its contract
what it does to the elements and to the ending of the stream it is given.

## Model

A stream is modelled by the finite sequence of elements it emits, the way it ends
(`StreamEnd`: completed, failed with an error, or stalled) and, where it is known, the drive step
at which each element arrived (`arrivals`). One pull of a source logic is one drive step, so the
idle answers of a logic (`WouldBlock`) leave gaps between arrivals, and the outputs one element
expands to (`map_concat`) arrive together as a burst. The stages that depend on time read these
steps: `conflate` merges a burst, `grouped_within` closes a group when its window of steps has
passed, `take_within` closes the stream at a step. `map`, `filter`, `take` and `drop` keep the
steps of the elements they pass on; the other stages do not record them, so their elements
count as arriving one step apart.

Sources are evaluated eagerly: a source built from a pull logic (`Source::from_logic`) pulls it
when it is built, until it ends, fails, or stays idle for `IDLE_PULL_LIMIT` pulls. A logic that
keeps producing elements is pulled up to `u64::MAX` times, which in practice never returns: of
the endless sources, only the cases that end at once return here (`Source::cycle` over no
values, `Source::tick` with a zero interval, which is refused). A `Source` carries its blueprint
graph, its elements and its materialized value; a `Flow` carries the stages it will run; a
`Sink` carries the logic that settles its materialized value from a stream. The relation
between a stage's input and output is the `FlowStage::yields` predicate.

The logics a user plugs in (`SourceLogic`, `Pollable`, `DelayStrategy`, `FlowLogic`) describe a
call by a relation between the state before it, its answer and the state after it (`pulls`,
`polls`, `delays`, `applies`); the operators that drive them state their results over records
of such calls. A logic that says nothing of its calls admits every answer.

## Layout

- `src/body.rs`, `src/ops.rs`, `src/keyed.rs`: the element model and the sequence operators.
- `src/stages.rs`, `src/timed.rs`: the flow stages and their element semantics; the second
  holds those that depend on arrival steps.
- `src/source.rs`, `src/source_ops.rs`, `src/flow.rs`, `src/sink.rs`, `src/runnable.rs`,
  `src/bidi.rs`, `src/sub_flow.rs`, `src/with_context.rs`, `src/restart.rs`: the DSL.
- `src/error.rs`: errors and their messages.
- `src/graph.rs`, `src/stage_kind.rs`, `src/stage_id.rs`, `src/builder.rs`: blueprints.
- `src/logic.rs`, `src/flow_logic.rs`, `src/merge.rs`, `src/retry.rs`, `src/secondary.rs`,
  `src/polling.rs`: the element-at-a-time logics a runtime drives.
- `src/buffer.rs`, `src/mat.rs`, `src/tail.rs`, `src/drive.rs`, `src/operator.rs`: buffers,
  materialized values, the drive actor's decisions and the operator catalog.
- `src/laws.rs`: properties of the operators that hold for every stream.
- `app/`: process-wide stage identifiers, futures as pollable computations, and printable
  copies of the error types.
