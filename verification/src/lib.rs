//! A verified model of a typed stream-processing DSL: sources, flows and sinks
//! whose element semantics are stated over finite sequences.
pub mod error;
pub mod body;
pub mod ops;
pub mod keyed;
pub mod stages;
pub mod timed;
pub mod stage_kind;
pub mod stage_id;
pub mod mat;
pub mod graph;
pub mod logic;
pub mod source;
pub mod source_ops;
pub mod sub_flow;
pub mod sink;
pub mod runnable;
pub mod restart;
pub mod flow;
pub mod with_context;
pub mod bidi;
pub mod merge;
pub mod operator;
pub mod flow_logic;
pub mod retry;
pub mod buffer;
pub mod secondary;
pub mod tail;
pub mod drive;
pub mod builder;
pub mod laws;
pub mod polling;
