use fraktor_streams::error::{StreamDslError, StreamError};
use fraktor_streams::flow::Flow;
use fraktor_streams::logic::SourceLogic;
use fraktor_streams::mat::StreamNotUsed;
use fraktor_streams::polling::{FutureSourceLogic, Pollable, Ready};
use fraktor_streams::source::Source;

struct YieldThenOutputFuture<T> {
  value:       Option<T>,
  poll_count:  u8,
  ready_after: u8,
}

impl<T> YieldThenOutputFuture<T> {
  fn new(value: T) -> Self {
    Self { value: Some(value), poll_count: 0, ready_after: 1 }
  }

  fn new_with_poll_count(value: T, poll_count: u8) -> Self {
    Self { value: Some(value), poll_count: 0, ready_after: poll_count }
  }
}

impl<T> Pollable<T> for YieldThenOutputFuture<T> {
  fn poll_once(&mut self) -> Option<T> {
    if self.poll_count < self.ready_after {
      self.poll_count = self.poll_count.saturating_add(1);
      None
    } else {
      Some(self.value.take().expect("future value"))
    }
  }
}

struct NeverReady;

impl Pollable<u32> for NeverReady {
  fn poll_once(&mut self) -> Option<u32> {
    None
  }
}

#[test]
fn map_async_keeps_single_path_behavior() {
  let values = Source::single(7_u32)
    .via(Flow::new().map_async(2, |value: u32| Ready::new(value.saturating_add(1))).expect("map_async"))
    .collect_values()
    .expect("collect_values");
  assert_eq!(values, vec![8_u32]);
}

#[test]
fn map_async_rejects_zero_parallelism() {
  let flow = Flow::<u32, u32, StreamNotUsed>::new();
  let result = flow.map_async(0, |value: u32| Ready::new(value));
  assert!(matches!(
    result,
    Err(StreamDslError::InvalidArgument { name: "parallelism", value: 0, reason: "must be greater than zero" })
  ));
}

#[test]
fn map_async_preserves_order_with_parallelism() {
  let values = Source::from_array([1_u32, 2_u32, 3_u32])
    .via(
      Flow::new()
        .map_async(2, |value: u32| match value {
          | 1 => YieldThenOutputFuture::new_with_poll_count(value.saturating_add(1), 2),
          | 2 => YieldThenOutputFuture::new(value.saturating_add(1)),
          | _ => YieldThenOutputFuture::new_with_poll_count(value.saturating_add(1), 3),
        })
        .expect("map_async"),
    )
    .collect_values()
    .expect("collect_values");
  assert_eq!(values, vec![2_u32, 3_u32, 4_u32]);
}

#[test]
fn map_async_stalls_on_a_computation_that_never_finishes() {
  let result = Source::from_array([1_u32, 2])
    .via(Flow::new().map_async(1, |_value: u32| NeverReady).expect("map_async"))
    .collect_values();
  assert_eq!(result, Err(StreamError::WouldBlock));
}

#[test]
fn map_async_aliases_behave_like_map_async() {
  let unordered = Flow::<u32, u32, StreamNotUsed>::new().map_async_unordered(1, |v: u32| Ready::new(v + 1)).expect("unordered");
  assert_eq!(Source::from_array([1_u32]).via(unordered).collect_values(), Ok(vec![2]));
  let partitioned =
    Flow::<u32, u32, StreamNotUsed>::new().map_async_partitioned(1, 4, |v: u32| Ready::new(v + 2)).expect("partitioned");
  assert_eq!(Source::from_array([1_u32]).via(partitioned).collect_values(), Ok(vec![3]));
  let both = Flow::<u32, u32, StreamNotUsed>::new()
    .map_async_partitioned_unordered(1, 4, |v: u32| Ready::new(v + 3))
    .expect("partitioned unordered");
  assert_eq!(Source::from_array([1_u32]).via(both).collect_values(), Ok(vec![4]));
  assert!(Flow::<u32, u32, StreamNotUsed>::new().map_async_partitioned(0, 4, |v: u32| Ready::new(v)).is_err());
}

#[test]
fn fold_async_emits_running_accumulation_when_future_is_ready() {
  let values = Source::from_array([1_u32, 2, 3])
    .via(Flow::new().fold_async(0_u32, |acc, value| Ready::new(acc + value)))
    .collect_values()
    .expect("collect_values");
  assert_eq!(values, vec![1_u32, 3_u32, 6_u32]);
}

#[test]
fn scan_async_emits_initial_and_keeps_accumulator_while_pending() {
  let values = Source::from_array([1_u32, 2, 3])
    .via(Flow::new().scan_async(10_u32, |acc, value: u32| {
      if value == 2 { YieldThenOutputFuture::new(acc + value) } else { YieldThenOutputFuture::new_with_poll_count(acc + value, 0) }
    }))
    .collect_values()
    .expect("collect_values");
  assert_eq!(values, vec![10_u32, 11, 11, 14]);
}

#[test]
fn ask_alias_maps_values_asynchronously() {
  let flow = Flow::new().ask(1, |value: u32| Ready::new(value + 1)).expect("ask");
  let values = Source::from_array([1_u32, 2_u32]).via(flow).collect_values().expect("collect_values");
  assert_eq!(values, vec![2_u32, 3_u32]);
}

#[test]
fn ask_with_status_alias_maps_values_asynchronously() {
  let flow = Flow::new().ask_with_status(1, |value: u32| Ready::new(value + 2)).expect("ask_with_status");
  let values = Source::from_array([1_u32, 2_u32]).via(flow).collect_values().expect("collect_values");
  assert_eq!(values, vec![3_u32, 4_u32]);
}

#[test]
fn ask_with_context_preserves_context_and_maps_value() {
  let flow = Flow::<(u32, u32), (u32, u32), StreamNotUsed>::new()
    .ask_with_context(1, |value: u32| Ready::new(value + 10))
    .expect("ask_with_context");
  let values = Source::from_array([(7_u32, 1_u32), (8_u32, 2_u32)]).via(flow).collect_values().expect("collect_values");
  assert_eq!(values, vec![(7_u32, 11_u32), (8_u32, 12_u32)]);
}

#[test]
fn ask_with_status_and_context_preserves_context_and_maps_value() {
  let flow = Flow::<(u32, u32), (u32, u32), StreamNotUsed>::new()
    .ask_with_status_and_context(1, |value: u32| Ready::new(value + 20))
    .expect("ask_with_status_and_context");
  let values = Source::from_array([(7_u32, 1_u32), (8_u32, 2_u32)]).via(flow).collect_values().expect("collect_values");
  assert_eq!(values, vec![(7_u32, 21_u32), (8_u32, 22_u32)]);
}

#[test]
fn source_future_alias_emits_when_ready() {
  let values = Source::future(Ready::new(7_u32)).collect_values().expect("collect_values");
  assert_eq!(values, vec![7_u32]);
}

#[test]
fn source_completion_stage_alias_emits_when_ready() {
  let values = Source::completion_stage(Ready::new(8_u32)).collect_values().expect("collect_values");
  assert_eq!(values, vec![8_u32]);
}

#[test]
fn source_lazy_future_alias_emits_when_ready() {
  let values = Source::lazy_future(|| Ready::new(9_u32)).collect_values().expect("collect_values");
  assert_eq!(values, vec![9_u32]);
}

#[test]
fn source_future_waits_through_pending_polls_and_stalls_when_never_ready() {
  let values = Source::future_source(YieldThenOutputFuture::new_with_poll_count(5_u32, 3)).collect_values();
  assert_eq!(values, Ok(vec![5_u32]));
  let stalled = Source::completion_stage_source(NeverReady).collect_values();
  assert_eq!(stalled, Err(StreamError::WouldBlock));
  let lazy = Source::lazy_future_source(|| Ready::new(1_u32)).collect_values();
  assert_eq!(lazy, Ok(vec![1]));
  assert_eq!(Source::lazy_completion_stage(|| Ready::new(2_u32)).collect_values(), Ok(vec![2]));
  assert_eq!(Source::lazy_completion_stage_source(|| Ready::new(3_u32)).collect_values(), Ok(vec![3]));
}

#[test]
fn source_unfold_async_emits_state_progression() {
  let values = Source::unfold_async(0_u32, |state: u32| {
    Ready::new(if state >= 3 { None } else { Some((state + 1, state)) })
  })
  .collect_values()
  .expect("collect_values");
  assert_eq!(values, vec![0_u32, 1_u32, 2_u32]);
}

#[test]
fn source_unfold_resource_async_waits_on_pending_steps() {
  let values = Source::unfold_resource_async(0_u32, |state: u32| {
    YieldThenOutputFuture::new(if state >= 2 { None } else { Some((state + 1, state * 10)) })
  })
  .collect_values()
  .expect("collect_values");
  assert_eq!(values, vec![0_u32, 10]);
}

#[test]
fn source_map_async_keeps_single_path_behavior() {
  let values = Source::single(7_u32)
    .map_async(2, |value: u32| Ready::new(value.saturating_add(1)))
    .expect("map_async")
    .collect_values()
    .expect("collect_values");
  assert_eq!(values, vec![8_u32]);
}

#[test]
fn source_map_async_rejects_zero_parallelism() {
  let source = Source::single(7_u32);
  let result = source.map_async(0, |value: u32| Ready::new(value));
  assert!(matches!(
    result,
    Err(StreamDslError::InvalidArgument { name: "parallelism", value: 0, reason: "must be greater than zero" })
  ));
}

#[test]
fn future_source_logic_reports_pending_then_value_once() {
  let mut logic = FutureSourceLogic { future: Some(YieldThenOutputFuture::new(4_u32)), done: false };
  assert_eq!(logic.pull(), Err(StreamError::WouldBlock));
  assert_eq!(logic.pull(), Ok(Some(4)));
  assert_eq!(logic.pull(), Ok(None));
}
