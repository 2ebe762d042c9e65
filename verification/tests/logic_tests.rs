use fraktor_streams::buffer::{OfferOutcome, OverflowPolicy, StreamBuffer, StreamBufferConfig};
use fraktor_streams::builder::StreamBuilder;
use fraktor_streams::drive::{DriveAction, StreamDriveActor, StreamDriveCommand};
use fraktor_streams::error::StreamError;
use fraktor_streams::flow::Flow;
use fraktor_streams::flow_logic::{
  BufferLogic, ChainLogic, DelayStrategy, FailureAction, FlattenSubstreamsWithParallelismLogic, FlowLogic, LimitWeightedLogic,
  LogLogic, LogObservation, LogObservationHandle, MapConcatLogic, PartitionLogic, RecoverLogic, RecoverWithRetriesLogic, SampleLogic,
  ScanLogic, SlidingLogic, SplitAfterLogic, StrategyDelayLogic, TakeWhileLogic, TakeWithinLogic, WatchTerminationLogic,
};
use fraktor_streams::graph::{Inlet, Outlet, PortId, StreamGraph};
use fraktor_streams::mat::{Completion, MatCombine, StreamCompletion, StreamNotUsed};
use fraktor_streams::retry::{saturating_mul_u32, RetryFlowLogic, JITTER_SEED};
use fraktor_streams::secondary::{ConcatSourceLogic, OrElseSourceLogic, PrependSourceLogic, SecondarySourceBridge};
use fraktor_streams::sink::Sink;
use fraktor_streams::source::Source;
use fraktor_streams::stage_kind::StageKind;
use fraktor_streams::tail::TailSource;

#[test]
fn log_logic_records_elements_completion_and_failures() {
  let observation = LogObservationHandle::new();
  let mut logic = LogLogic::new(observation);

  let outputs = FlowLogic::<u32, u32>::apply(&mut logic, 11_u32).expect("apply");
  assert_eq!(outputs, vec![11_u32]);
  assert_eq!(logic.observation.snapshot(), LogObservation { element_count: 1, completed: false, failure_count: 0 });

  logic.on_source_done();
  assert_eq!(logic.observation.snapshot(), LogObservation { element_count: 1, completed: true, failure_count: 0 });

  let result = logic.on_failure(StreamError::Failed);
  assert!(matches!(result, Ok(FailureAction::Propagate(StreamError::Failed))));
  assert_eq!(logic.observation.snapshot(), LogObservation { element_count: 1, completed: true, failure_count: 1 });
}

#[test]
fn completion_starts_pending() {
  let completion = StreamCompletion::<u32>::new();
  assert_eq!(completion.poll(), Completion::Pending);
}

#[test]
fn completion_reports_ready_result() {
  let mut completion: StreamCompletion<u32> = StreamCompletion::new();
  completion.complete(Ok(7));
  assert_eq!(completion.poll(), Completion::Ready(Ok(7)));
}

#[test]
fn completion_try_take_consumes_result() {
  let mut completion: StreamCompletion<u32> = StreamCompletion::new();
  completion.complete(Err(StreamError::Failed));
  assert_eq!(completion.try_take(), Some(Err(StreamError::Failed)));
  assert_eq!(completion.poll(), Completion::Pending);
}

#[test]
fn completion_keeps_first_result() {
  let mut completion: StreamCompletion<u32> = StreamCompletion::new();
  completion.complete(Ok(1));
  completion.complete(Ok(2));
  assert_eq!(completion.poll(), Completion::Ready(Ok(1)));
}

#[test]
fn graph_tracks_stage_metadata() {
  let source = Source::single(1_u32).map(|value| value + 1);
  let (graph, _mat) = source.into_parts();
  assert_eq!(graph.stage_kinds(), vec![StageKind::SourceSingle, StageKind::FlowMap]);
  assert_eq!(graph.stage_mat_combines(), vec![MatCombine::KeepRight, MatCombine::KeepLeft]);
  assert_eq!(graph.connection_count(), 1);
}

#[test]
fn connect_rejects_unknown_ports() {
  let mut graph = StreamGraph::new();
  let result = graph.connect(&Outlet::<u32>::from_id(PortId { id: 0 }), &Inlet::<u32>::from_id(PortId { id: 1 }), MatCombine::KeepLeft);
  assert_eq!(result, Err(StreamError::InvalidConnection));
}

#[test]
fn buffer_rejects_overflow_when_blocking() {
  let config = StreamBufferConfig::new(1, OverflowPolicy::Block);
  let mut buffer = StreamBuffer::new(config);
  buffer.offer(1_u32).expect("offer");
  let result = buffer.offer(2_u32);
  assert!(result.is_err());
}

#[test]
fn buffer_poll_returns_items_in_order() {
  let config = StreamBufferConfig::new(4, OverflowPolicy::Block);
  let mut buffer = StreamBuffer::new(config);
  buffer.offer(10_u32).expect("offer");
  buffer.offer(11_u32).expect("offer");
  assert_eq!(buffer.poll().expect("poll"), 10);
  assert_eq!(buffer.poll().expect("poll"), 11);
}

#[test]
fn buffer_overflow_policies_apply_when_full() {
  let mut newest = StreamBuffer::new(StreamBufferConfig::new(1, OverflowPolicy::DropNewest));
  assert_eq!(newest.offer(1_u32), Ok(OfferOutcome::Enqueued));
  assert_eq!(newest.offer(2_u32), Ok(OfferOutcome::DroppedNewest));
  assert_eq!(newest.poll(), Ok(1));

  let mut oldest = StreamBuffer::new(StreamBufferConfig::new(1, OverflowPolicy::DropOldest));
  oldest.offer(1_u32).expect("offer");
  assert_eq!(oldest.offer(2_u32), Ok(OfferOutcome::DroppedOldest));
  assert_eq!(oldest.poll(), Ok(2));

  let mut grow = StreamBuffer::new(StreamBufferConfig::new(1, OverflowPolicy::Grow));
  grow.offer(1_u32).expect("offer");
  assert_eq!(grow.offer(2_u32), Ok(OfferOutcome::GrewTo { len: 2 }));
  assert_eq!(grow.len(), 2);
  assert_eq!(grow.poll(), Ok(1));
  assert_eq!(grow.poll(), Ok(2));
  assert_eq!(grow.poll(), Err(StreamError::Failed));
}

#[test]
fn buffer_config_defaults_to_sixteen_blocking() {
  let config = StreamBufferConfig::default();
  assert_eq!(config.capacity(), 16);
  assert_eq!(config.overflow_policy(), OverflowPolicy::Block);
  let changed = config.with_capacity(3).with_overflow_policy(OverflowPolicy::Grow);
  assert_eq!(changed.capacity(), 3);
  assert_eq!(changed.overflow_policy(), OverflowPolicy::Grow);
}

#[test]
fn sliding_logic_emits_full_windows_and_rejects_zero_size() {
  let mut logic = SlidingLogic::<u32>::new(2);
  assert_eq!(logic.apply(1).expect("1"), Vec::<Vec<u32>>::new());
  assert_eq!(logic.apply(2).expect("2"), vec![vec![1, 2]]);
  assert_eq!(logic.apply(3).expect("3"), vec![vec![2, 3]]);
  logic.on_restart().expect("restart");
  assert_eq!(logic.apply(4).expect("4"), Vec::<Vec<u32>>::new());

  let mut zero = SlidingLogic::<u32>::new(0);
  assert_eq!(zero.apply(1), Err(StreamError::InvalidConnection));
}

#[test]
fn scan_logic_emits_initial_then_running_values() {
  let mut logic =
    ScanLogic { initial: 0_u32, current: 0_u32, func: |acc: u32, x: u32| acc + x, initial_emitted: false, source_done: false };
  assert_eq!(logic.apply(1_u32).expect("1"), vec![0, 1]);
  assert_eq!(logic.apply(2_u32).expect("2"), vec![3]);
  logic.on_restart().expect("restart");
  logic.on_source_done();
  assert_eq!(logic.drain_pending(), vec![0]);
  assert_eq!(logic.drain_pending(), Vec::<u32>::new());
}

#[test]
fn take_while_logic_stops_at_first_rejection() {
  let mut logic = TakeWhileLogic { predicate: |v: &u32| *v < 3, taking: true };
  assert_eq!(logic.apply(1_u32).expect("1"), vec![1]);
  assert_eq!(logic.apply(5_u32).expect("5"), Vec::<u32>::new());
  assert_eq!(logic.apply(2_u32).expect("2"), Vec::<u32>::new());
  logic.on_restart().expect("restart");
  assert_eq!(logic.apply(2_u32).expect("2 again"), vec![2]);
}

#[test]
fn partition_logic_records_output_edges() {
  let mut logic = PartitionLogic { predicate: |v: &u32| v % 2 == 0, output_slots: Vec::new() };
  assert_eq!(logic.apply(2_u32).expect("2"), vec![2]);
  assert_eq!(logic.apply(3_u32).expect("3"), vec![3]);
  assert_eq!(logic.take_next_output_edge_slot(), Some(0));
  assert_eq!(logic.take_next_output_edge_slot(), Some(1));
  assert_eq!(logic.take_next_output_edge_slot(), None);
}

#[test]
fn split_after_logic_emits_segments_after_matches() {
  let mut logic = SplitAfterLogic { predicate: |v: &u32| v % 2 == 0, current: Vec::new(), source_done: false };
  assert_eq!(logic.apply(1_u32).expect("1"), Vec::<Vec<u32>>::new());
  assert_eq!(logic.apply(2_u32).expect("2"), vec![vec![1, 2]]);
  assert_eq!(logic.apply(3_u32).expect("3"), Vec::<Vec<u32>>::new());
  assert_eq!(logic.drain_pending(), Vec::<Vec<u32>>::new());
  logic.on_source_done();
  assert_eq!(logic.drain_pending(), vec![vec![3]]);
}

#[test]
fn limit_weighted_logic_closes_on_first_overweight_element() {
  let mut logic = LimitWeightedLogic { remaining: 5, weight_fn: |v: &u32| *v as usize };
  assert_eq!(logic.apply(2_u32).expect("2"), vec![2]);
  assert_eq!(logic.apply(4_u32).expect("4"), Vec::<u32>::new());
  assert_eq!(logic.apply(1_u32).expect("1"), Vec::<u32>::new());
  assert_eq!(logic.remaining, 0);
}

#[test]
fn recover_with_retries_logic_spends_budget_then_fails() {
  let mut logic = RecoverWithRetriesLogic { max_retries: 1, retries_left: 1, fallback: 9_u32 };
  assert_eq!(logic.apply(Ok(1)).expect("ok"), vec![1]);
  assert_eq!(logic.apply(Err(StreamError::Failed)).expect("first error"), vec![9]);
  assert_eq!(logic.apply(Err(StreamError::Failed)), Err(StreamError::Failed));
  logic.on_restart().expect("restart");
  assert_eq!(logic.retries_left, 1);
}

#[test]
fn flatten_substreams_logic_rejects_zero_parallelism() {
  let mut logic = FlattenSubstreamsWithParallelismLogic { parallelism: 2 };
  assert_eq!(logic.apply(vec![1_u32, 2]).expect("flatten"), vec![1, 2]);
  let mut zero = FlattenSubstreamsWithParallelismLogic { parallelism: 0 };
  assert_eq!(FlowLogic::<Vec<u32>, u32>::apply(&mut zero, vec![1_u32]), Err(StreamError::InvalidConnection));
}

#[test]
fn buffer_logic_releases_after_source_done() {
  let mut logic = BufferLogic::<u32>::new(2, OverflowPolicy::DropOldest);
  assert_eq!(logic.apply(1).expect("1"), Vec::<u32>::new());
  assert_eq!(logic.apply(2).expect("2"), Vec::<u32>::new());
  assert_eq!(logic.apply(3).expect("3"), Vec::<u32>::new());
  assert_eq!(logic.drain_pending(), Vec::<u32>::new());
  logic.on_source_done();
  assert_eq!(logic.drain_pending(), vec![2]);
  assert_eq!(logic.drain_pending(), vec![3]);
  assert!(!logic.has_pending_output());

  let mut blocking = BufferLogic::<u32>::new(1, OverflowPolicy::Block);
  blocking.apply(1).expect("1");
  assert_eq!(blocking.apply(2), Err(StreamError::BufferOverflow));
  let mut zero = BufferLogic::<u32>::new(0, OverflowPolicy::Grow);
  assert_eq!(zero.apply(1), Err(StreamError::InvalidConnection));
}

#[test]
fn sample_logic_emits_latest_once_per_interval() {
  let mut logic = SampleLogic::<u32>::new(2);
  logic.apply(1);
  logic.apply(2);
  logic.on_tick(1);
  assert_eq!(logic.drain_pending(), Vec::<u32>::new());
  logic.on_tick(2);
  assert_eq!(logic.drain_pending(), vec![2]);
  logic.apply(3);
  logic.on_tick(3);
  assert_eq!(logic.drain_pending(), Vec::<u32>::new());
  assert!(logic.has_pending_output());
}

#[test]
fn take_within_logic_expires_after_duration() {
  let mut logic = TakeWithinLogic::new(2);
  assert_eq!(FlowLogic::<u32, u32>::apply(&mut logic, 1).expect("1"), vec![1]);
  logic.on_tick(3);
  assert!(logic.take_shutdown_request());
  assert!(!logic.take_shutdown_request());
  assert_eq!(FlowLogic::<u32, u32>::apply(&mut logic, 2).expect("2"), Vec::<u32>::new());
}

#[test]
fn recover_logic_completes_with_recovered_element() {
  let mut logic = RecoverLogic { recover: |_e: StreamError| Some(5_u32), pending: None };
  assert!(logic.handles_failures());
  assert_eq!(logic.on_failure(StreamError::Failed), Ok(FailureAction::Complete));
  assert_eq!(logic.drain_pending(), vec![5]);
  assert_eq!(logic.drain_pending(), Vec::<u32>::new());

  let mut refusing = RecoverLogic { recover: |_e: StreamError| None::<u32>, pending: None };
  assert_eq!(refusing.on_failure(StreamError::WouldBlock), Ok(FailureAction::Propagate(StreamError::WouldBlock)));
}

#[test]
fn watch_termination_logic_completes_handle_on_source_done() {
  let mut logic = WatchTerminationLogic { completion: StreamCompletion::new() };
  assert_eq!(FlowLogic::<u32, u32>::apply(&mut logic, 4).expect("4"), vec![4]);
  assert_eq!(logic.completion.poll(), Completion::Pending);
  logic.on_source_done();
  assert_eq!(logic.completion.poll(), Completion::Ready(Ok(())));
}

struct LinearDelay {
  step: u64,
}

impl DelayStrategy<u32> for LinearDelay {
  fn next_delay(&mut self, _element: &u32) -> u64 {
    self.step += 1;
    self.step
  }
}

#[test]
fn strategy_delay_logic_releases_in_order_when_due() {
  let mut logic = StrategyDelayLogic::new(LinearDelay { step: 0 });
  logic.apply(10_u32);
  logic.apply(20_u32);
  assert_eq!(logic.drain_pending(), Vec::<u32>::new());
  logic.on_tick(1);
  assert_eq!(logic.drain_pending(), vec![10]);
  assert_eq!(logic.drain_pending(), Vec::<u32>::new());
  logic.on_tick(2);
  assert_eq!(logic.drain_pending(), vec![20]);
  assert!(!logic.has_pending_output());
}

fn doubling_retry() -> RetryFlowLogic<u32, u32, MapConcatLogic<fn(u32) -> Vec<u32>>, fn(&u32, &u32) -> Option<u32>> {
  fn double(x: u32) -> Vec<u32> {
    vec![x * 2]
  }
  fn retry_small(_input: &u32, output: &u32) -> Option<u32> {
    if *output < 10 { Some(*output) } else { None }
  }
  RetryFlowLogic::new(
    MapConcatLogic { func: double as fn(u32) -> Vec<u32> },
    retry_small as fn(&u32, &u32) -> Option<u32>,
    3,
    1,
    4,
    0,
  )
}

#[test]
fn retry_flow_logic_retries_until_output_is_accepted() {
  let mut logic = doubling_retry();
  assert_eq!(logic.apply(3).expect("apply"), Vec::<u32>::new());
  assert!(logic.has_pending_output());
  assert!(!logic.can_accept_input());
  assert_eq!(logic.pending_retries[0].retry_count, 1);
  assert_eq!(logic.pending_retries[0].ready_at, 1);
  assert_eq!(logic.drain_pending().expect("not yet due"), Vec::<u32>::new());
  logic.on_tick(1);
  assert_eq!(logic.drain_pending().expect("second try"), vec![12]);
  assert!(!logic.has_pending_output());
}

#[test]
fn retry_flow_logic_emits_output_once_budget_is_spent() {
  let mut logic = doubling_retry();
  assert_eq!(logic.apply(1).expect("apply"), Vec::<u32>::new());
  let mut tick = 0_u64;
  let mut emitted = Vec::new();
  while logic.has_pending_output() {
    tick += 4;
    logic.on_tick(tick);
    emitted.extend(logic.drain_pending().expect("drain"));
  }
  // 1 -> 2 -> 4 -> 8 -> 16: the third retry's output is accepted.
  assert_eq!(emitted, vec![16]);

  let mut tight = RetryFlowLogic::new(
    MapConcatLogic { func: (|x: u32| vec![x]) as fn(u32) -> Vec<u32> },
    (|_i: &u32, _o: &u32| Some(0_u32)) as fn(&u32, &u32) -> Option<u32>,
    0,
    1,
    4,
    0,
  );
  assert_eq!(tight.apply(7).expect("no budget"), vec![7]);
}

#[test]
fn retry_flow_logic_backoff_doubles_and_is_capped() {
  let mut logic = doubling_retry();
  assert_eq!(logic.next_cooldown_ticks(), 1);
  assert_eq!(logic.active_backoff_ticks, 2);
  assert_eq!(logic.next_cooldown_ticks(), 2);
  assert_eq!(logic.next_cooldown_ticks(), 4);
  assert_eq!(logic.next_cooldown_ticks(), 4);
  assert_eq!(logic.active_backoff_ticks, 4);
  assert_eq!(logic.jitter_state, JITTER_SEED);
}

#[test]
fn retry_flow_logic_jitter_moves_generator_and_stays_bounded() {
  let mut logic = doubling_retry();
  logic.random_factor_permille = 500;
  let jitter = logic.compute_jitter_ticks(1000);
  assert!(jitter <= 500);
  assert_ne!(logic.jitter_state, JITTER_SEED);
  let expected_state = JITTER_SEED.wrapping_mul(6_364_136_223_846_793_005).wrapping_add(1);
  assert_eq!(logic.jitter_state, expected_state);
  let ratio = ((expected_state >> 32) as u32) % 1001;
  assert_eq!(jitter, 1000 * 500 * ratio / 1_000_000);
  assert_eq!(saturating_mul_u32(u32::MAX, 2), u32::MAX);
}

#[test]
fn retry_flow_logic_restart_clears_retries() {
  let mut logic = doubling_retry();
  logic.apply(3).expect("apply");
  logic.restart().expect("restart");
  assert!(!logic.has_pending_output());
  assert_eq!(logic.active_backoff_ticks, 1);
  assert_eq!(logic.tick_count, 0);
}

#[test]
fn secondary_bridge_delivers_elements_then_end() {
  let mut bridge = SecondarySourceBridge::new(Source::from_vec(vec![1_u32, 2]));
  assert!(bridge.has_pending_output());
  assert_eq!(bridge.poll_next(), Ok(Some(1)));
  assert_eq!(bridge.poll_next(), Ok(Some(2)));
  assert_eq!(bridge.poll_next(), Ok(None));
  assert!(!bridge.has_pending_output());

  let mut failing = SecondarySourceBridge::new(Source::<u32, StreamNotUsed>::failed(StreamError::WouldBlock));
  assert_eq!(failing.poll_next(), Err(StreamError::WouldBlock));
  assert_eq!(failing.poll_next(), Err(StreamError::WouldBlock));
}

#[test]
fn concat_source_logic_emits_secondary_after_primary() {
  let mut logic = ConcatSourceLogic::new(Source::from_vec(vec![7_u32, 8]));
  assert_eq!(logic.apply(1), vec![1]);
  assert_eq!(logic.drain_pending(), Ok(Vec::new()));
  logic.on_source_done();
  assert!(logic.has_pending_output());
  assert_eq!(logic.drain_pending(), Ok(vec![7]));
  assert_eq!(logic.drain_pending(), Ok(vec![8]));
  assert_eq!(logic.drain_pending(), Ok(Vec::new()));
  assert!(!logic.has_pending_output());
}

#[test]
fn prepend_source_logic_emits_secondary_first() {
  let mut logic = PrependSourceLogic::new(Source::from_vec(vec![7_u32, 8]));
  assert_eq!(logic.apply(1), Ok(vec![7]));
  assert!(!logic.can_accept_input());
  assert_eq!(logic.drain_pending(), Ok(vec![8]));
  assert_eq!(logic.drain_pending(), Ok(vec![1]));
  assert_eq!(logic.drain_pending(), Ok(Vec::new()));
}

#[test]
fn or_else_source_logic_uses_secondary_only_when_primary_is_empty() {
  let mut used = OrElseSourceLogic::new(Source::from_vec(vec![7_u32]));
  used.on_source_done();
  assert_eq!(used.drain_pending(), Ok(vec![7]));

  let mut unused = OrElseSourceLogic::new(Source::from_vec(vec![7_u32]));
  assert_eq!(unused.apply(1), vec![1]);
  unused.on_source_done();
  assert_eq!(unused.drain_pending(), Ok(Vec::new()));
  assert!(!unused.has_pending_output());
}

#[test]
fn drive_actor_registers_ticks_and_shuts_down() {
  let mut actor = StreamDriveActor::new();
  assert_eq!(actor.receive(StreamDriveCommand::Register { id: 5 }), DriveAction::Idle);
  assert_eq!(actor.receive(StreamDriveCommand::Register { id: 2 }), DriveAction::Idle);
  assert_eq!(actor.receive(StreamDriveCommand::Tick), DriveAction::Drive(vec![2, 5]));
  actor.remove_finished(&vec![5]);
  assert_eq!(actor.tick_targets(), vec![2]);
  assert!(!actor.should_stop());
  assert_eq!(actor.receive(StreamDriveCommand::Shutdown), DriveAction::Cancel(vec![2]));
  assert!(actor.should_stop());
  assert_eq!(actor.receive(StreamDriveCommand::Register { id: 9 }), DriveAction::Cancel(vec![9]));
}

#[test]
fn tail_source_hands_out_its_source_once() {
  let tail = TailSource::new(Source::from_vec(vec![1_u32, 2]));
  assert_eq!(tail.collect_values(), Ok(vec![1, 2]));
  let tail = TailSource::new(Source::<u32, StreamNotUsed>::failed(StreamError::Failed));
  assert_eq!(tail.into_source().expect("source").collect_values(), Err(StreamError::Failed));
}

#[test]
fn stream_builder_connects_to_sink_inlet() {
  let sink = Sink::<u32, _, _>::ignore();
  let mut graph = StreamGraph::new();
  let def = graph.push_stage(fraktor_streams::stage_kind::StageRole::Source, StageKind::SourceSingle, MatCombine::KeepRight);
  let builder = StreamBuilder::new(graph, Outlet::<u32>::from_id(def.outlet.expect("outlet")));
  let runnable = builder.to(&sink, MatCombine::KeepRight).expect("to");
  assert_eq!(runnable.graph.connection_count(), 1);
  assert_eq!(runnable.mat, MatCombine::KeepRight);

  let flow = Flow::<u32, u32, StreamNotUsed>::new();
  let empty = StreamBuilder::new(StreamGraph::new(), Outlet::<u32>::from_id(PortId { id: 3 }));
  assert!(empty.via(&flow, MatCombine::KeepLeft).is_err());
}

#[test]
fn take_and_drop_split_the_stream() {
  let xs = vec![1_u32, 2, 3, 4, 5];
  let mut taken = Source::from_vec(xs.clone()).take(2).collect_values().expect("take");
  let dropped = Source::from_vec(xs.clone()).drop(2).collect_values().expect("drop");
  taken.extend(dropped);
  assert_eq!(taken, xs);
}

#[test]
fn grouped_chunks_flatten_back_to_the_stream() {
  let xs = vec![1_u32, 2, 3, 4, 5];
  let groups = Source::from_vec(xs.clone()).grouped(2).expect("grouped").collect_values().expect("collect");
  assert_eq!(groups, vec![vec![1, 2], vec![3, 4], vec![5]]);
  assert_eq!(groups.concat(), xs);
}

#[test]
fn split_segments_flatten_back_to_the_stream() {
  let xs = vec![1_u32, 2, 3, 4, 5];
  let after = Source::from_vec(xs.clone()).split_after(|v: &u32| v % 2 == 0).merge_substreams().collect_values().expect("after");
  assert_eq!(after, xs);
  let when = Source::from_vec(xs.clone()).split_when(|v: &u32| v % 2 == 0).concat_substreams().collect_values().expect("when");
  assert_eq!(when, xs);
}

#[test]
fn filter_and_filter_not_share_out_the_elements() {
  let xs = vec![1_u32, 2, 3, 4, 5, 6, 7];
  let kept = Source::from_vec(xs.clone()).filter(|v: &u32| v % 3 == 0).collect_values().expect("kept");
  let rejected = Source::from_vec(xs.clone()).filter_not(|v: &u32| v % 3 == 0).collect_values().expect("rejected");
  assert_eq!(kept, vec![3, 6]);
  assert_eq!(rejected, vec![1, 2, 4, 5, 7]);
  assert_eq!(kept.len() + rejected.len(), xs.len());
}

#[test]
fn composing_flows_is_associative() {
  let xs = vec![1_u32, 2, 3];
  let left = Source::from_vec(xs.clone())
    .via(Flow::<u32, u32, StreamNotUsed>::new().map(|v: u32| v + 1).via(Flow::new().map(|v: u32| v * 2)))
    .via(Flow::<u32, u32, StreamNotUsed>::new().map(|v: u32| v + 3))
    .collect_values()
    .expect("left");
  let right = Source::from_vec(xs)
    .via(Flow::<u32, u32, StreamNotUsed>::new().map(|v: u32| v + 1))
    .via(Flow::<u32, u32, StreamNotUsed>::new().map(|v: u32| v * 2).via(Flow::new().map(|v: u32| v + 3)))
    .collect_values()
    .expect("right");
  assert_eq!(left, right);
  assert_eq!(left, vec![7, 9, 11]);
}

#[test]
fn into_source_parts_splits_source_and_flows() {
  let (graph, _mat) = Source::single(1_u32).map(|v: u32| v + 1).filter(|v: &u32| *v > 0).into_parts();
  let (source, flows) = graph.into_source_parts().expect("parts");
  assert_eq!(source.kind, StageKind::SourceSingle);
  assert_eq!(flows.iter().map(|d| d.kind).collect::<Vec<_>>(), vec![StageKind::FlowMap, StageKind::FlowFilter]);
  assert_eq!(StreamGraph::new().into_source_parts().err(), Some(StreamError::InvalidConnection));
  let (sink_graph, _m) = Sink::<u32, _, _>::ignore().into_parts();
  assert_eq!(sink_graph.into_source_parts().err(), Some(StreamError::InvalidConnection));
}

#[test]
fn chain_logic_feeds_every_output_of_the_first_logic_to_the_second() {
  let first = MapConcatLogic { func: |x: u32| vec![x, x * 10] };
  let second = SlidingLogic::<u32>::new(2);
  let mut chain = ChainLogic::new(first, second);
  assert_eq!(chain.apply(1).expect("apply"), vec![vec![1_u32, 10]]);
  assert_eq!(chain.apply(2).expect("apply"), vec![vec![10_u32, 2], vec![2, 20]]);
  chain.on_restart().expect("restart");
  assert_eq!(chain.apply(3).expect("apply"), vec![vec![3_u32, 30]]);
}

#[test]
fn chain_logic_stops_at_the_first_error_of_the_second_logic() {
  let first = MapConcatLogic { func: |x: u32| vec![x, x + 1] };
  let second = SlidingLogic::<u32>::new(0);
  let mut chain = ChainLogic::new(first, second);
  assert_eq!(chain.apply(1), Err(StreamError::InvalidConnection));
}

#[test]
fn retry_flow_logic_runs_a_chain_of_inner_logics() {
  fn increment(x: u32) -> Vec<u32> {
    vec![x + 1]
  }
  fn double(x: u32) -> Vec<u32> {
    vec![x * 2]
  }
  fn retry_small(_input: &u32, output: &u32) -> Option<u32> {
    if *output < 10 { Some(*output) } else { None }
  }
  let inner = ChainLogic::new(
    MapConcatLogic { func: increment as fn(u32) -> Vec<u32> },
    MapConcatLogic { func: double as fn(u32) -> Vec<u32> },
  );
  let mut logic = RetryFlowLogic::new(inner, retry_small as fn(&u32, &u32) -> Option<u32>, 3, 1, 4, 0);
  // 1 -> (1 + 1) * 2 = 4, retried: (4 + 1) * 2 = 10.
  assert_eq!(logic.apply(1).expect("apply"), Vec::<u32>::new());
  logic.on_tick(1);
  assert_eq!(logic.drain_pending().expect("retry"), vec![10]);
}
