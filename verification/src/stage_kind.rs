//! Kinds of the stages a stream graph is built from.
use vstd::prelude::*;

verus! {

/// The kind of a stage in a stream graph.
#[derive(Debug, Clone, Copy, PartialEq, Eq, Structural)]
pub enum StageKind {
    SourceSingle,
    FlowMap,
    FlowMapAsync,
    FlowStatefulMap,
    FlowStatefulMapConcat,
    FlowMapConcat,
    FlowMapOption,
    FlowFilter,
    FlowDrop,
    FlowTake,
    FlowDropWhile,
    FlowTakeWhile,
    FlowTakeUntil,
    FlowGrouped,
    FlowSliding,
    FlowScan,
    FlowIntersperse,
    FlowFlatMapConcat,
    FlowFlatMapMerge,
    FlowBuffer,
    FlowThrottle,
    FlowDelay,
    FlowInitialDelay,
    FlowTakeWithin,
    FlowAsyncBoundary,
    FlowBatch,
    FlowGroupBy,
    FlowRecover,
    FlowRecoverWithRetries,
    FlowSplitWhen,
    FlowSplitAfter,
    FlowMergeSubstreams,
    FlowMergeSubstreamsWithParallelism,
    FlowConcatSubstreams,
    FlowPartition,
    FlowUnzip,
    FlowUnzipWith,
    FlowBroadcast,
    FlowBalance,
    FlowMerge,
    FlowInterleave,
    FlowPrepend,
    FlowZip,
    FlowZipAll,
    FlowZipWithIndex,
    FlowConcat,
    FlowDebounce,
    FlowSample,
    FlowGroupedWithin,
    FlowConflateWithSeed,
    FlowExpand,
    FlowBackpressureTimeout,
    FlowCompletionTimeout,
    FlowIdleTimeout,
    FlowInitialTimeout,
    FlowMergeLatest,
    FlowMergePreferred,
    FlowMergePrioritized,
    FlowMergeSorted,
    FlowWatchTermination,
    SinkIgnore,
    SinkFold,
    SinkHead,
    SinkLast,
    SinkForeach,
    Custom,
}

/// The role a stage plays in a graph.
#[derive(Debug, Clone, Copy, PartialEq, Eq, Structural)]
pub enum StageRole {
    Source,
    Flow,
    Sink,
}

/// Whether a stage of `role` may have kind `kind` in a runnable plan.
pub open spec fn spec_kind_fits(role: StageRole, kind: StageKind) -> bool {
    match role {
        StageRole::Source => kind == StageKind::SourceSingle || kind == StageKind::Custom,
        StageRole::Flow => !(kind == StageKind::SourceSingle || kind == StageKind::SinkIgnore
            || kind == StageKind::SinkFold || kind == StageKind::SinkHead || kind == StageKind::SinkLast
            || kind == StageKind::SinkForeach),
        StageRole::Sink => kind == StageKind::SinkIgnore || kind == StageKind::SinkFold
            || kind == StageKind::SinkHead || kind == StageKind::SinkLast || kind == StageKind::SinkForeach
            || kind == StageKind::Custom,
    }
}

/// Checks that a stage's kind fits its role.
pub fn kind_fits(role: StageRole, kind: StageKind) -> (r: bool)
    ensures r == spec_kind_fits(role, kind),
{
    match role {
        StageRole::Source => matches!(kind, StageKind::SourceSingle | StageKind::Custom),
        StageRole::Flow => !matches!(kind, StageKind::SourceSingle | StageKind::SinkIgnore | StageKind::SinkFold
            | StageKind::SinkHead | StageKind::SinkLast | StageKind::SinkForeach),
        StageRole::Sink => matches!(kind, StageKind::SinkIgnore | StageKind::SinkFold | StageKind::SinkHead
            | StageKind::SinkLast | StageKind::SinkForeach | StageKind::Custom),
    }
}

} // verus!
