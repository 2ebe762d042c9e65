//! Restart settings and the restart facades of sources, flows and sinks.
use vstd::prelude::*;
use crate::flow::Flow;
use crate::sink::Sink;
use crate::source::Source;

verus! {

/// How a stage restarts after failures: exponential backoff between `min_backoff_ticks` and
/// `max_backoff_ticks`, at most `max_restarts` restarts within `max_restarts_within_ticks`, and a
/// jitter of up to `random_factor_permille` per mille of the backoff.
#[derive(Debug, Clone, Copy, PartialEq, Eq, Structural)]
pub struct RestartSettings {
    pub min_backoff_ticks: u32,
    pub max_backoff_ticks: u32,
    pub random_factor_permille: u16,
    pub max_restarts: usize,
    pub max_restarts_within_ticks: u32,
    pub jitter_seed: u64,
}

impl RestartSettings {
    /// Settings with the given backoff bounds and restart budget, no jitter and no restart window.
    pub fn new(min_backoff_ticks: u32, max_backoff_ticks: u32, max_restarts: usize) -> (r: Self)
        ensures
            r.min_backoff_ticks == min_backoff_ticks,
            r.max_backoff_ticks == max_backoff_ticks,
            r.max_restarts == max_restarts,
            r.random_factor_permille == 0,
            r.max_restarts_within_ticks == 0,
            r.jitter_seed == 0,
    {
        RestartSettings {
            min_backoff_ticks,
            max_backoff_ticks,
            random_factor_permille: 0,
            max_restarts,
            max_restarts_within_ticks: 0,
            jitter_seed: 0,
        }
    }

    /// These settings with a jitter of up to `permille` per mille of the backoff.
    pub fn with_random_factor_permille(self, permille: u16) -> (r: Self)
        ensures r == (RestartSettings { random_factor_permille: permille, ..self }),
    {
        RestartSettings { random_factor_permille: permille, ..self }
    }

    /// These settings with the restart budget counted within a window of `ticks`.
    pub fn with_max_restarts_within_ticks(self, ticks: u32) -> (r: Self)
        ensures r == (RestartSettings { max_restarts_within_ticks: ticks, ..self }),
    {
        RestartSettings { max_restarts_within_ticks: ticks, ..self }
    }

    /// These settings with the jitter generator seeded with `seed`.
    pub fn with_jitter_seed(self, seed: u64) -> (r: Self)
        ensures r == (RestartSettings { jitter_seed: seed, ..self }),
    {
        RestartSettings { jitter_seed: seed, ..self }
    }
}

/// Restart facade for sources.
pub struct RestartSource;

impl RestartSource {
    /// `source` restarting with backoff after failures; what it emits is unchanged.
    pub fn with_backoff<Out, Mat>(source: Source<Out, Mat>, min_backoff_ticks: u32, max_restarts: usize) -> (r: Source<Out, Mat>)
        ensures r == source,
    {
        source.restart_source_with_backoff(min_backoff_ticks, max_restarts)
    }

    /// `source` restarting as `settings` says after failures; what it emits is unchanged.
    pub fn with_settings<Out, Mat>(source: Source<Out, Mat>, settings: RestartSettings) -> (r: Source<Out, Mat>)
        ensures r == source,
    {
        source.restart_source_with_settings(settings)
    }
}

/// Restart facade for flows.
pub struct RestartFlow;

impl RestartFlow {
    /// `flow` restarting with backoff after failures; its stages are unchanged.
    pub fn with_backoff<In, Out, Mat, S>(flow: Flow<In, Out, Mat, S>, min_backoff_ticks: u32, max_restarts: usize) -> (r: Flow<In, Out, Mat, S>)
        ensures r == flow,
    {
        flow.restart_flow_with_backoff(min_backoff_ticks, max_restarts)
    }

    /// `flow` restarting as `settings` says after failures; its stages are unchanged.
    pub fn with_settings<In, Out, Mat, S>(flow: Flow<In, Out, Mat, S>, settings: RestartSettings) -> (r: Flow<In, Out, Mat, S>)
        ensures r == flow,
    {
        flow.restart_flow_with_settings(settings)
    }
}

/// Restart facade for sinks.
pub struct RestartSink;

impl RestartSink {
    /// `sink` restarting with backoff after failures; its behaviour is unchanged.
    pub fn with_backoff<In, Mat, L>(sink: Sink<In, Mat, L>, min_backoff_ticks: u32, max_restarts: usize) -> (r: Sink<In, Mat, L>)
        ensures r == sink,
    {
        sink.restart_sink_with_backoff(min_backoff_ticks, max_restarts)
    }

    /// `sink` restarting as `settings` says after failures; its behaviour is unchanged.
    pub fn with_settings<In, Mat, L>(sink: Sink<In, Mat, L>, settings: RestartSettings) -> (r: Sink<In, Mat, L>)
        ensures r == sink,
    {
        sink.restart_sink_with_settings(settings)
    }
}

impl<Out, Mat> Source<Out, Mat> {
    /// Restarts the source as `settings` says after failures; what it emits is unchanged.
    pub fn restart_source_with_settings(self, settings: RestartSettings) -> (r: Source<Out, Mat>)
        ensures r == self,
    {
        self
    }
}

impl<In, Mat, L> Sink<In, Mat, L> {
    /// Restarts the sink as `settings` says after failures; its behaviour is unchanged.
    pub fn restart_sink_with_settings(self, settings: RestartSettings) -> (r: Self)
        ensures r == self,
    {
        self
    }
}

} // verus!
