use fraktor_streams::buffer::OverflowPolicy;
use std::sync::atomic::{AtomicU32, Ordering};
use std::sync::Arc;
use fraktor_streams::error::{OperatorKey, StreamDslError, StreamError};
use fraktor_streams::flow::{Flow, FlowMonitor};
use fraktor_streams::graph::Attributes;
use fraktor_streams::logic::SourceLogic;
use fraktor_streams::mat::{Completion, KeepBoth, KeepLeft, KeepRight, StreamNotUsed};
use fraktor_streams::merge::{MergePreferredLogic, MergePrioritizedLogic};
use fraktor_streams::operator::{DefaultOperatorCatalog, OperatorCatalog};
use fraktor_streams::restart::RestartSettings;
use fraktor_streams::sink::Sink;
use fraktor_streams::source::Source;
use fraktor_streams::stage_kind::StageKind;

struct SequenceSourceLogic {
  values: Vec<u32>,
}

impl SequenceSourceLogic {
  fn new(values: &[u32]) -> Self {
    Self { values: values.to_vec() }
  }
}

impl SourceLogic<u32> for SequenceSourceLogic {
  fn pull(&mut self) -> Result<Option<u32>, StreamError> {
    if self.values.is_empty() {
      Ok(None)
    } else {
      Ok(Some(self.values.remove(0)))
    }
  }
}

struct PulsedSourceLogic {
  schedule: Vec<Option<u32>>,
}

impl PulsedSourceLogic {
  fn new(schedule: &[Option<u32>]) -> Self {
    Self { schedule: schedule.to_vec() }
  }
}

impl SourceLogic<u32> for PulsedSourceLogic {
  fn pull(&mut self) -> Result<Option<u32>, StreamError> {
    if self.schedule.is_empty() {
      return Ok(None);
    }
    match self.schedule.remove(0) {
      Some(value) => Ok(Some(value)),
      None => Err(StreamError::WouldBlock),
    }
  }
}

#[test]
fn broadcast_duplicates_each_element() {
  let values = Source::single(7_u32).via(Flow::new().broadcast(2)).collect_values().expect("collect_values");
  assert_eq!(values, vec![7_u32, 7_u32]);
}

#[test]
fn balance_keeps_single_path_behavior() {
  let values = Source::single(7_u32).via(Flow::new().balance(1)).collect_values().expect("collect_values");
  assert_eq!(values, vec![7_u32]);
}

#[test]
fn merge_keeps_single_path_behavior() {
  let values = Source::single(7_u32).via(Flow::new().merge(1)).collect_values().expect("collect_values");
  assert_eq!(values, vec![7_u32]);
}

#[test]
fn zip_wraps_value_when_single_path() {
  let values = Source::single(7_u32).via(Flow::new().zip(1)).collect_values().expect("collect_values");
  assert_eq!(values, vec![vec![7_u32]]);
}

#[test]
fn concat_keeps_single_path_behavior() {
  let values = Source::single(7_u32).via(Flow::new().concat(1)).collect_values().expect("collect_values");
  assert_eq!(values, vec![7_u32]);
}

#[test]
fn partition_keeps_single_path_behavior() {
  let values = Source::<u32, _>::from_logic(StageKind::Custom, SequenceSourceLogic::new(&[1, 2, 3, 4]))
    .via(Flow::new().partition(|value| *value % 2 == 0))
    .collect_values()
    .expect("collect_values");
  assert_eq!(values, vec![1_u32, 2_u32, 3_u32, 4_u32]);
}

#[test]
fn unzip_emits_tuple_components() {
  let values = Source::single((7_u32, 8_u32)).via(Flow::new().unzip()).collect_values().expect("collect_values");
  assert_eq!(values, vec![7_u32, 8_u32]);
}

#[test]
fn unzip_with_emits_mapped_tuple_components() {
  let values = Source::single(7_u32)
    .via(Flow::new().unzip_with(|value: u32| (value, value.saturating_add(1))))
    .collect_values()
    .expect("collect_values");
  assert_eq!(values, vec![7_u32, 8_u32]);
}

#[test]
fn interleave_keeps_single_path_behavior() {
  let values = Source::single(7_u32).via(Flow::new().interleave(1)).collect_values().expect("collect_values");
  assert_eq!(values, vec![7_u32]);
}

#[test]
fn prepend_keeps_single_path_behavior() {
  let values = Source::single(7_u32).via(Flow::new().prepend(1)).collect_values().expect("collect_values");
  assert_eq!(values, vec![7_u32]);
}

#[test]
fn zip_all_wraps_value_when_single_path() {
  let values = Source::single(7_u32).via(Flow::new().zip_all(1, 0_u32)).collect_values().expect("collect_values");
  assert_eq!(values, vec![vec![7_u32]]);
}

#[test]
fn flat_map_merge_keeps_single_path_behavior() {
  let values = Source::single(7_u32)
    .via(Flow::new().flat_map_merge(2, Source::single).expect("flat_map_merge"))
    .collect_values()
    .expect("collect_values");
  assert_eq!(values, vec![7_u32]);
}

#[test]
fn flat_map_merge_rejects_zero_breadth() {
  let flow = Flow::<u32, u32, StreamNotUsed>::new();
  let result = flow.flat_map_merge(0, Source::single);
  assert!(matches!(
    result,
    Err(StreamDslError::InvalidArgument { name: "breadth", value: 0, reason: "must be greater than zero" })
  ));
}

#[test]
fn async_boundary_keeps_single_path_behavior() {
  let values = Source::single(7_u32).via(Flow::new().async_boundary()).collect_values().expect("collect_values");
  assert_eq!(values, vec![7_u32]);
}

#[test]
fn throttle_keeps_single_path_behavior() {
  let values =
    Source::single(7_u32).via(Flow::new().throttle(2).expect("throttle")).collect_values().expect("collect_values");
  assert_eq!(values, vec![7_u32]);
}

#[test]
fn throttle_rejects_zero_capacity() {
  let flow = Flow::<u32, u32, StreamNotUsed>::new();
  let result = flow.throttle(0);
  assert!(matches!(
    result,
    Err(StreamDslError::InvalidArgument { name: "capacity", value: 0, reason: "must be greater than zero" })
  ));
}

#[test]
fn delay_keeps_single_path_behavior() {
  let values =
    Source::single(7_u32).via(Flow::new().delay(2).expect("delay")).collect_values().expect("collect_values");
  assert_eq!(values, vec![7_u32]);
}

#[test]
fn delay_rejects_zero_ticks() {
  let flow = Flow::<u32, u32, StreamNotUsed>::new();
  let result = flow.delay(0);
  assert!(matches!(
    result,
    Err(StreamDslError::InvalidArgument { name: "ticks", value: 0, reason: "must be greater than zero" })
  ));
}

#[test]
fn initial_delay_keeps_single_path_behavior() {
  let values = Source::single(7_u32)
    .via(Flow::new().initial_delay(2).expect("initial_delay"))
    .collect_values()
    .expect("collect_values");
  assert_eq!(values, vec![7_u32]);
}

#[test]
fn initial_delay_rejects_zero_ticks() {
  let flow = Flow::<u32, u32, StreamNotUsed>::new();
  let result = flow.initial_delay(0);
  assert!(matches!(
    result,
    Err(StreamDslError::InvalidArgument { name: "ticks", value: 0, reason: "must be greater than zero" })
  ));
}

#[test]
fn take_within_limits_output_window() {
  let values = Source::<u32, _>::from_logic(StageKind::Custom, SequenceSourceLogic::new(&[1, 2, 3]))
    .via(Flow::new().take_within(1).expect("take_within"))
    .collect_values()
    .expect("collect_values");
  assert_eq!(values, vec![1_u32]);
}

#[test]
fn take_within_rejects_zero_ticks() {
  let flow = Flow::<u32, u32, StreamNotUsed>::new();
  let result = flow.take_within(0);
  assert!(matches!(
    result,
    Err(StreamDslError::InvalidArgument { name: "ticks", value: 0, reason: "must be greater than zero" })
  ));
}

#[test]
fn batch_emits_fixed_size_chunks() {
  let values = Source::<u32, _>::from_logic(StageKind::Custom, SequenceSourceLogic::new(&[1, 2, 3, 4, 5]))
    .via(Flow::new().batch(2).expect("batch"))
    .collect_values()
    .expect("collect_values");
  assert_eq!(values, vec![vec![1_u32, 2_u32], vec![3_u32, 4_u32], vec![5_u32]]);
}

#[test]
fn batch_rejects_zero_size() {
  let flow = Flow::<u32, u32, StreamNotUsed>::new();
  let result = flow.batch(0);
  assert!(matches!(
    result,
    Err(StreamDslError::InvalidArgument { name: "size", value: 0, reason: "must be greater than zero" })
  ));
}

#[test]
fn filter_keeps_matching_elements() {
  let values =
    Source::single(7_u32).via(Flow::new().filter(|value| *value % 2 == 1)).collect_values().expect("collect_values");
  assert_eq!(values, vec![7_u32]);
}

#[test]
fn filter_discards_non_matching_elements() {
  let values =
    Source::single(8_u32).via(Flow::new().filter(|value| *value % 2 == 1)).collect_values().expect("collect_values");
  assert_eq!(values, Vec::<u32>::new());
}

#[test]
fn filter_not_discards_matching_elements() {
  let values = Source::<u32, _>::from_logic(StageKind::Custom, SequenceSourceLogic::new(&[1, 2, 3, 4]))
    .via(Flow::new().filter_not(|value| *value % 2 == 0))
    .collect_values()
    .expect("collect_values");
  assert_eq!(values, vec![1_u32, 3_u32]);
}

#[test]
fn flatten_optional_emits_present_value() {
  let values =
    Source::single(Some(7_u32)).via(Flow::new().flatten_optional()).collect_values().expect("collect_values");
  assert_eq!(values, vec![7_u32]);
}

#[test]
fn flatten_optional_skips_none() {
  let values =
    Source::single(None::<u32>).via(Flow::new().flatten_optional()).collect_values().expect("collect_values");
  assert_eq!(values, Vec::<u32>::new());
}

#[test]
fn map_concat_expands_each_element() {
  let values = Source::<u32, _>::from_logic(StageKind::Custom, SequenceSourceLogic::new(&[1, 2, 3]))
    .via(Flow::new().map_concat(|value: u32| vec![value, value.saturating_add(10)]))
    .collect_values()
    .expect("collect_values");
  assert_eq!(values, vec![1_u32, 11_u32, 2_u32, 12_u32, 3_u32, 13_u32]);
}

#[test]
fn map_option_emits_only_present_elements() {
  let values = Source::<u32, _>::from_logic(StageKind::Custom, SequenceSourceLogic::new(&[1, 2, 3, 4]))
    .via(Flow::new().map_option(|value| if value % 2 == 0 { Some(value) } else { None }))
    .collect_values()
    .expect("collect_values");
  assert_eq!(values, vec![2_u32, 4_u32]);
}

#[test]
fn stateful_map_emits_stateful_results() {
  let values = Source::<u32, _>::from_logic(StageKind::Custom, SequenceSourceLogic::new(&[1, 2, 3]))
    .via(Flow::new().stateful_map(|| {
      let mut sum = 0_u32;
      move |value| {
        sum = sum.saturating_add(value);
        sum
      }
    }))
    .collect_values()
    .expect("collect_values");
  assert_eq!(values, vec![1_u32, 3_u32, 6_u32]);
}

#[test]
fn stateful_map_concat_expands_with_stateful_mapper() {
  let values = Source::<u32, _>::from_logic(StageKind::Custom, SequenceSourceLogic::new(&[1, 2, 3]))
    .via(Flow::new().stateful_map_concat(|| {
      let mut sum = 0_u32;
      move |value| {
        sum = sum.saturating_add(value);
        vec![sum, sum.saturating_add(100)]
      }
    }))
    .collect_values()
    .expect("collect_values");
  assert_eq!(values, vec![1_u32, 101_u32, 3_u32, 103_u32, 6_u32, 106_u32]);
}

#[test]
fn drop_skips_first_elements() {
  let values = Source::<u32, _>::from_logic(StageKind::Custom, SequenceSourceLogic::new(&[1, 2, 3, 4]))
    .via(Flow::new().drop(2))
    .collect_values()
    .expect("collect_values");
  assert_eq!(values, vec![3_u32, 4_u32]);
}

#[test]
fn take_limits_emitted_elements() {
  let values = Source::<u32, _>::from_logic(StageKind::Custom, SequenceSourceLogic::new(&[1, 2, 3, 4]))
    .via(Flow::new().take(2))
    .collect_values()
    .expect("collect_values");
  assert_eq!(values, vec![1_u32, 2_u32]);
}

#[test]
fn drop_while_skips_matching_prefix() {
  let values = Source::<u32, _>::from_logic(StageKind::Custom, SequenceSourceLogic::new(&[1, 2, 3, 4]))
    .via(Flow::new().drop_while(|value| *value < 3))
    .collect_values()
    .expect("collect_values");
  assert_eq!(values, vec![3_u32, 4_u32]);
}

#[test]
fn take_while_keeps_matching_prefix() {
  let values = Source::<u32, _>::from_logic(StageKind::Custom, SequenceSourceLogic::new(&[1, 2, 3, 4]))
    .via(Flow::new().take_while(|value| *value < 3))
    .collect_values()
    .expect("collect_values");
  assert_eq!(values, vec![1_u32, 2_u32]);
}

#[test]
fn take_until_includes_first_matching_element() {
  let values = Source::<u32, _>::from_logic(StageKind::Custom, SequenceSourceLogic::new(&[1, 2, 3, 4]))
    .via(Flow::new().take_until(|value| *value >= 3))
    .collect_values()
    .expect("collect_values");
  assert_eq!(values, vec![1_u32, 2_u32, 3_u32]);
}

#[test]
fn grouped_emits_fixed_size_chunks() {
  let values = Source::<u32, _>::from_logic(StageKind::Custom, SequenceSourceLogic::new(&[1, 2, 3, 4, 5]))
    .via(Flow::new().grouped(2).expect("grouped"))
    .collect_values()
    .expect("collect_values");
  assert_eq!(values, vec![vec![1_u32, 2_u32], vec![3_u32, 4_u32], vec![5_u32]]);
}

#[test]
fn grouped_rejects_zero_size() {
  let flow = Flow::<u32, u32, StreamNotUsed>::new();
  let result = flow.grouped(0);
  assert!(matches!(
    result,
    Err(StreamDslError::InvalidArgument { name: "size", value: 0, reason: "must be greater than zero" })
  ));
}

#[test]
fn sliding_emits_overlapping_windows() {
  let values = Source::<u32, _>::from_logic(StageKind::Custom, SequenceSourceLogic::new(&[1, 2, 3, 4]))
    .via(Flow::new().sliding(3).expect("sliding"))
    .collect_values()
    .expect("collect_values");
  assert_eq!(values, vec![vec![1_u32, 2_u32, 3_u32], vec![2_u32, 3_u32, 4_u32]]);
}

#[test]
fn sliding_rejects_zero_size() {
  let flow = Flow::<u32, u32, StreamNotUsed>::new();
  let result = flow.sliding(0);
  assert!(matches!(
    result,
    Err(StreamDslError::InvalidArgument { name: "size", value: 0, reason: "must be greater than zero" })
  ));
}

#[test]
fn scan_emits_initial_and_running_accumulation() {
  let values = Source::<u32, _>::from_logic(StageKind::Custom, SequenceSourceLogic::new(&[1, 2, 3]))
    .via(Flow::new().scan(0_u32, |acc, value| acc + value))
    .collect_values()
    .expect("collect_values");
  assert_eq!(values, vec![0_u32, 1_u32, 3_u32, 6_u32]);
}

#[test]
fn intersperse_injects_markers() {
  let values = Source::<u32, _>::from_logic(StageKind::Custom, SequenceSourceLogic::new(&[1, 2, 3]))
    .via(Flow::new().intersperse(10_u32, 99_u32, 11_u32))
    .collect_values()
    .expect("collect_values");
  assert_eq!(values, vec![10_u32, 1_u32, 99_u32, 2_u32, 99_u32, 3_u32, 11_u32]);
}

#[test]
fn intersperse_on_empty_stream_emits_start_and_end() {
  let values = Source::<u32, _>::from_logic(StageKind::Custom, SequenceSourceLogic::new(&[]))
    .via(Flow::new().intersperse(10_u32, 99_u32, 11_u32))
    .collect_values()
    .expect("collect_values");
  assert_eq!(values, vec![10_u32, 11_u32]);
}

#[test]
fn zip_with_index_pairs_each_element_with_index() {
  let values = Source::<u32, _>::from_logic(StageKind::Custom, SequenceSourceLogic::new(&[7, 8, 9]))
    .via(Flow::new().zip_with_index())
    .collect_values()
    .expect("collect_values");
  assert_eq!(values, vec![(7_u32, 0_u64), (8_u32, 1_u64), (9_u32, 2_u64)]);
}

#[test]
fn group_by_keeps_single_path_behavior() {
  let values = Source::single(7_u32)
    .via(Flow::new().group_by(4, |value: &u32| value % 2).expect("group_by").merge_substreams())
    .collect_values()
    .expect("collect_values");
  assert_eq!(values, vec![7_u32]);
}

#[test]
fn group_by_rejects_zero_max_substreams() {
  let flow = Flow::<u32, u32, StreamNotUsed>::new();
  let result = flow.group_by(0, |value: &u32| *value);
  assert!(matches!(
    result,
    Err(StreamDslError::InvalidArgument { name: "max_substreams", value: 0, reason: "must be greater than zero" })
  ));
}

#[test]
fn split_when_emits_single_segment_for_single_element() {
  let values = Source::single(7_u32)
    .via(Flow::<u32, u32, StreamNotUsed>::new().split_when(|_| false).into_flow())
    .collect_values()
    .expect("collect_values");
  assert_eq!(values, vec![vec![7_u32]]);
}

#[test]
fn split_after_emits_single_segment_for_single_element() {
  let values = Source::single(7_u32)
    .via(Flow::<u32, u32, StreamNotUsed>::new().split_after(|_| false).into_flow())
    .collect_values()
    .expect("collect_values");
  assert_eq!(values, vec![vec![7_u32]]);
}

#[test]
fn merge_substreams_flattens_single_segment() {
  let values = Source::single(7_u32)
    .via(Flow::<u32, u32, StreamNotUsed>::new().split_after(|_| true).merge_substreams())
    .collect_values()
    .expect("collect_values");
  assert_eq!(values, vec![7_u32]);
}

#[test]
fn concat_substreams_flattens_single_segment() {
  let values = Source::single(7_u32)
    .via(Flow::<u32, u32, StreamNotUsed>::new().split_after(|_| true).concat_substreams())
    .collect_values()
    .expect("collect_values");
  assert_eq!(values, vec![7_u32]);
}

#[test]
fn merge_substreams_with_parallelism_flattens_single_segment() {
  let values = Source::single(7_u32)
    .via(
      Flow::<u32, u32, StreamNotUsed>::new()
        .split_after(|_| true)
        .merge_substreams_with_parallelism(2)
        .expect("merge_substreams_with_parallelism"),
    )
    .collect_values()
    .expect("collect_values");
  assert_eq!(values, vec![7_u32]);
}

#[test]
fn merge_substreams_with_parallelism_rejects_zero_parallelism() {
  let flow = Flow::<u32, u32, StreamNotUsed>::new().split_after(|_| true);
  let result = flow.merge_substreams_with_parallelism(0);
  assert!(matches!(
    result,
    Err(StreamDslError::InvalidArgument { name: "parallelism", value: 0, reason: "must be greater than zero" })
  ));
}

#[test]
fn map_error_maps_error_payload() {
  let values = Source::single(Err::<u32, StreamError>(StreamError::Failed))
    .via(Flow::new().map_error(|_| StreamError::WouldBlock))
    .collect_values()
    .expect("collect_values");
  assert_eq!(values, vec![Err(StreamError::WouldBlock)]);
}

#[test]
fn on_error_continue_drops_error_payloads() {
  let values = Source::from_array([
    Ok::<u32, StreamError>(1_u32),
    Err::<u32, StreamError>(StreamError::Failed),
    Ok::<u32, StreamError>(2_u32),
  ])
  .via(Flow::new().on_error_continue())
  .collect_values()
  .expect("collect_values");
  assert_eq!(values, vec![1_u32, 2_u32]);
}

#[test]
fn on_error_resume_alias_drops_error_payloads() {
  let values = Source::from_array([
    Ok::<u32, StreamError>(1_u32),
    Err::<u32, StreamError>(StreamError::Failed),
    Ok::<u32, StreamError>(2_u32),
  ])
  .via(Flow::new().on_error_resume())
  .collect_values()
  .expect("collect_values");
  assert_eq!(values, vec![1_u32, 2_u32]);
}

#[test]
fn on_error_complete_stops_emitting_after_first_error_payload() {
  let values = Source::from_array([
    Ok::<u32, StreamError>(1_u32),
    Err::<u32, StreamError>(StreamError::Failed),
    Ok::<u32, StreamError>(2_u32),
  ])
  .via(Flow::new().on_error_complete())
  .collect_values()
  .expect("collect_values");
  assert_eq!(values, vec![1_u32]);
}

#[test]
fn recover_replaces_error_payload_with_fallback() {
  let values = Source::single(Err::<u32, StreamError>(StreamError::Failed))
    .via(Flow::new().recover(9_u32))
    .collect_values()
    .expect("collect_values");
  assert_eq!(values, vec![9_u32]);
}

#[test]
fn recover_preserves_ok_values_and_replaces_error_payloads() {
  let values = Source::from_array([
    Ok::<u32, StreamError>(1_u32),
    Err::<u32, StreamError>(StreamError::Failed),
    Ok::<u32, StreamError>(2_u32),
  ])
  .via(Flow::new().recover(9_u32))
  .collect_values()
  .expect("collect_values");
  assert_eq!(values, vec![1_u32, 9_u32, 2_u32]);
}

#[test]
fn recover_with_alias_replaces_error_payload_with_fallback() {
  let values = Source::single(Err::<u32, StreamError>(StreamError::Failed))
    .via(Flow::new().recover_with(8_u32))
    .collect_values()
    .expect("collect_values");
  assert_eq!(values, vec![8_u32]);
}

#[test]
fn recover_with_retries_fails_when_retry_budget_is_exhausted() {
  let result = Source::single(Err::<u32, StreamError>(StreamError::Failed))
    .via(Flow::new().recover_with_retries(0, 9_u32))
    .collect_values();
  assert_eq!(result, Err(StreamError::Failed));
}

#[test]
fn recover_with_retries_emits_fallback_until_budget_exhausts() {
  let values = Source::from_array([
    Err::<u32, StreamError>(StreamError::Failed),
    Ok::<u32, StreamError>(5_u32),
    Err::<u32, StreamError>(StreamError::Failed),
  ])
  .via(Flow::new().recover_with_retries(2, 9_u32))
  .collect_values()
  .expect("collect_values");
  assert_eq!(values, vec![9_u32, 5_u32, 9_u32]);
}

#[test]
fn recover_with_retries_fails_after_consuming_retry_budget() {
  let result =
    Source::from_array([Err::<u32, StreamError>(StreamError::Failed), Err::<u32, StreamError>(StreamError::Failed)])
      .via(Flow::new().recover_with_retries(1, 9_u32))
      .collect_values();
  assert_eq!(result, Err(StreamError::Failed));
}

#[test]
fn restart_flow_with_backoff_keeps_single_path_behavior() {
  let values =
    Source::single(7_u32).via(Flow::new().restart_flow_with_backoff(1, 3)).collect_values().expect("collect_values");
  assert_eq!(values, vec![7_u32]);
}

#[test]
fn on_failures_with_backoff_alias_keeps_single_path_behavior() {
  let values =
    Source::single(7_u32).via(Flow::new().on_failures_with_backoff(1, 3)).collect_values().expect("collect_values");
  assert_eq!(values, vec![7_u32]);
}

#[test]
fn with_backoff_alias_keeps_single_path_behavior() {
  let values = Source::single(7_u32).via(Flow::new().with_backoff(1, 3)).collect_values().expect("collect_values");
  assert_eq!(values, vec![7_u32]);
}

#[test]
fn with_backoff_and_context_alias_keeps_single_path_behavior() {
  let values = Source::single(7_u32)
    .via(Flow::new().with_backoff_and_context(1, 3, "compat"))
    .collect_values()
    .expect("collect_values");
  assert_eq!(values, vec![7_u32]);
}

#[test]
fn restart_flow_with_settings_keeps_single_path_behavior() {
  let settings = RestartSettings::new(1, 4, 3)
    .with_random_factor_permille(250)
    .with_max_restarts_within_ticks(16)
    .with_jitter_seed(17);
  let values = Source::single(7_u32)
    .via(Flow::new().restart_flow_with_settings(settings))
    .collect_values()
    .expect("collect_values");
  assert_eq!(values, vec![7_u32]);
}

#[test]
fn supervision_variants_keep_single_path_behavior() {
  let values = Source::single(7_u32)
    .via(Flow::new().supervision_stop().supervision_resume().supervision_restart())
    .collect_values()
    .expect("collect_values");
  assert_eq!(values, vec![7_u32]);
}

#[test]
fn watch_alias_keeps_single_path_behavior() {
  let values = Source::from_array([1_u32, 2_u32]).via(Flow::new().watch()).collect_values().expect("collect_values");
  assert_eq!(values, vec![1_u32, 2_u32]);
}

#[test]
fn operator_catalog_lookup_returns_contract_for_supported_operator() {
  let catalog = DefaultOperatorCatalog::new();
  let contract = catalog.lookup(OperatorKey::group_by()).expect("lookup");
  assert_eq!(contract.key, OperatorKey::group_by());
  assert_eq!(contract.requirement_ids, ["1.1", "1.3", "2.1", "2.2"]);
}

#[test]
fn operator_catalog_lookup_returns_filter_contract() {
  let catalog = DefaultOperatorCatalog::new();
  let contract = catalog.lookup(OperatorKey::filter()).expect("lookup");
  assert_eq!(contract.key, OperatorKey::filter());
  assert_eq!(contract.requirement_ids, ["1.1", "1.3"]);
}

#[test]
fn operator_catalog_lookup_returns_filter_not_contract() {
  let catalog = DefaultOperatorCatalog::new();
  let contract = catalog.lookup(OperatorKey::filter_not()).expect("lookup");
  assert_eq!(contract.key, OperatorKey::filter_not());
  assert_eq!(contract.requirement_ids, ["1.1", "1.3"]);
}

#[test]
fn operator_catalog_lookup_returns_empty_contract() {
  let catalog = DefaultOperatorCatalog::new();
  let contract = catalog.lookup(OperatorKey::empty()).expect("lookup");
  assert_eq!(contract.key, OperatorKey::empty());
  assert_eq!(contract.requirement_ids, ["1.1", "1.3"]);
}

#[test]
fn operator_catalog_lookup_returns_from_option_contract() {
  let catalog = DefaultOperatorCatalog::new();
  let contract = catalog.lookup(OperatorKey::from_option()).expect("lookup");
  assert_eq!(contract.key, OperatorKey::from_option());
  assert_eq!(contract.requirement_ids, ["1.1", "1.3"]);
}

#[test]
fn operator_catalog_lookup_returns_from_array_contract() {
  let catalog = DefaultOperatorCatalog::new();
  let contract = catalog.lookup(OperatorKey::from_array()).expect("lookup");
  assert_eq!(contract.key, OperatorKey::from_array());
  assert_eq!(contract.requirement_ids, ["1.1", "1.3"]);
}

#[test]
fn operator_catalog_lookup_returns_from_iterator_contract() {
  let catalog = DefaultOperatorCatalog::new();
  let contract = catalog.lookup(OperatorKey::from_iterator()).expect("lookup");
  assert_eq!(contract.key, OperatorKey::from_iterator());
  assert_eq!(contract.requirement_ids, ["1.1", "1.3"]);
}

#[test]
fn operator_catalog_lookup_returns_flatten_optional_contract() {
  let catalog = DefaultOperatorCatalog::new();
  let contract = catalog.lookup(OperatorKey::flatten_optional()).expect("lookup");
  assert_eq!(contract.key, OperatorKey::flatten_optional());
  assert_eq!(contract.requirement_ids, ["1.1", "1.3"]);
}

#[test]
fn operator_catalog_lookup_returns_stateful_map_contract() {
  let catalog = DefaultOperatorCatalog::new();
  let contract = catalog.lookup(OperatorKey::stateful_map()).expect("lookup");
  assert_eq!(contract.key, OperatorKey::stateful_map());
  assert_eq!(contract.requirement_ids, ["1.1", "1.3"]);
}

#[test]
fn operator_catalog_lookup_returns_map_async_contract() {
  let catalog = DefaultOperatorCatalog::new();
  let contract = catalog.lookup(OperatorKey::map_async()).expect("lookup");
  assert_eq!(contract.key, OperatorKey::map_async());
  assert_eq!(contract.requirement_ids, ["1.1", "1.3", "7.1", "7.2", "7.3", "7.4"]);
}

#[test]
fn operator_catalog_lookup_returns_stateful_map_concat_contract() {
  let catalog = DefaultOperatorCatalog::new();
  let contract = catalog.lookup(OperatorKey::stateful_map_concat()).expect("lookup");
  assert_eq!(contract.key, OperatorKey::stateful_map_concat());
  assert_eq!(contract.requirement_ids, ["1.1", "1.3"]);
}

#[test]
fn operator_catalog_lookup_rejects_unknown_operator() {
  let catalog = DefaultOperatorCatalog::new();
  let result = catalog.lookup(OperatorKey::new("unsupported_operator"));
  assert_eq!(result, Err(StreamDslError::UnsupportedOperator { key: OperatorKey::new("unsupported_operator") }));
}

#[test]
fn detach_preserves_elements_and_order() {
  let values = Source::<u32, _>::from_logic(StageKind::Custom, SequenceSourceLogic::new(&[1, 2, 3]))
    .via(Flow::new().detach())
    .collect_values()
    .expect("collect_values");
  assert_eq!(values, vec![1_u32, 2_u32, 3_u32]);
}

#[test]
fn log_passes_elements_through_unchanged() {
  let values = Source::<u32, _>::from_logic(StageKind::Custom, SequenceSourceLogic::new(&[1, 2, 3]))
    .via(Flow::new().log("test"))
    .collect_values()
    .expect("collect_values");
  assert_eq!(values, vec![1_u32, 2_u32, 3_u32]);
}

#[test]
fn log_with_marker_passes_elements_through_unchanged() {
  let values = Source::<u32, _>::from_logic(StageKind::Custom, SequenceSourceLogic::new(&[1, 2, 3]))
    .via(Flow::new().log_with_marker("test", "marker"))
    .collect_values()
    .expect("collect_values");
  assert_eq!(values, vec![1_u32, 2_u32, 3_u32]);
}

#[test]
fn conflate_preserves_elements_when_upstream_is_not_bursty() {
  let values = Source::<u32, _>::from_logic(StageKind::Custom, SequenceSourceLogic::new(&[1, 2, 3]))
    .via(Flow::new().conflate(|acc, value| acc + value))
    .collect_values()
    .expect("collect_values");
  assert_eq!(values, vec![1_u32, 2_u32, 3_u32]);
}

#[test]
fn conflate_with_seed_applies_seed_and_aggregate() {
  let values = Source::<u32, _>::from_logic(StageKind::Custom, SequenceSourceLogic::new(&[1, 2, 3]))
    .via(Flow::new().conflate_with_seed(|value| value + 10, |acc, value| acc + value))
    .collect_values()
    .expect("collect_values");
  assert_eq!(values, vec![11_u32, 12_u32, 13_u32]);
}

#[test]
fn conflate_accepts_non_clone_output_type() {
  #[derive(Debug, PartialEq, Eq)]
  struct NonClone(u32);

  let values = Source::<u32, _>::from_logic(StageKind::Custom, SequenceSourceLogic::new(&[1, 2, 3]))
    .via(Flow::new().map(NonClone))
    .via(Flow::new().conflate(|acc: NonClone, value: NonClone| NonClone(acc.0 + value.0)))
    .collect_values()
    .expect("collect_values");

  assert_eq!(values, vec![NonClone(1), NonClone(2), NonClone(3)]);
}

#[test]
fn expand_and_extrapolate_share_expand_behavior() {
  let expand_values = Source::<u32, _>::from_logic(StageKind::Custom, SequenceSourceLogic::new(&[1, 2]))
    .via(Flow::new().expand(|value: &u32| vec![*value, value.saturating_mul(10)]))
    .collect_values()
    .expect("collect_values");
  let extrapolate_values = Source::<u32, _>::from_logic(StageKind::Custom, SequenceSourceLogic::new(&[1, 2]))
    .via(Flow::new().extrapolate(|value: &u32| vec![*value, value.saturating_mul(10)]))
    .collect_values()
    .expect("collect_values");
  assert_eq!(expand_values, vec![1_u32, 2_u32]);
  assert_eq!(expand_values, extrapolate_values);
}

#[test]
fn grouped_within_preserves_size_grouping_behavior() {
  let values = Source::<u32, _>::from_logic(StageKind::Custom, SequenceSourceLogic::new(&[1, 2, 3, 4, 5]))
    .via(Flow::new().grouped_within(2, 10).expect("grouped_within"))
    .collect_values()
    .expect("collect_values");
  assert_eq!(values, vec![vec![1_u32, 2_u32], vec![3_u32, 4_u32], vec![5_u32]]);
}

#[test]
fn grouped_within_rejects_zero_ticks() {
  let flow = Flow::<u32, u32, StreamNotUsed>::new();
  let result = flow.grouped_within(2, 0);
  assert!(matches!(
    result,
    Err(StreamDslError::InvalidArgument { name: "ticks", value: 0, reason: "must be greater than zero" })
  ));
}

#[test]
fn fold_emits_running_accumulation_without_initial() {
  let values = Source::<u32, _>::from_logic(StageKind::Custom, SequenceSourceLogic::new(&[1, 2, 3]))
    .via(Flow::new().fold(0_u32, |acc, value| acc + value))
    .collect_values()
    .expect("collect_values");
  assert_eq!(values, vec![1_u32, 3_u32, 6_u32]);
}

#[test]
fn reduce_folds_with_first_element_as_seed() {
  let values = Source::<u32, _>::from_logic(StageKind::Custom, SequenceSourceLogic::new(&[1, 2, 3]))
    .via(Flow::new().reduce(|acc, value| acc + value))
    .collect_values()
    .expect("collect_values");
  assert_eq!(values, vec![1_u32, 3_u32, 6_u32]);
}

#[test]
fn reduce_single_element_emits_that_element() {
  let values =
    Source::single(42_u32).via(Flow::new().reduce(|acc, value| acc + value)).collect_values().expect("collect_values");
  assert_eq!(values, vec![42_u32]);
}

#[test]
fn from_function_transforms_elements() {
  let values = Source::<u32, _>::from_logic(StageKind::Custom, SequenceSourceLogic::new(&[1, 2, 3]))
    .via(Flow::from_function(|x: u32| x + 1))
    .collect_values()
    .expect("collect_values");
  assert_eq!(values, vec![2_u32, 3_u32, 4_u32]);
}

#[test]
fn named_passes_elements_through_unchanged() {
  let values = Source::<u32, _>::from_logic(StageKind::Custom, SequenceSourceLogic::new(&[1, 2, 3]))
    .via(Flow::new().named("test-stage"))
    .collect_values()
    .expect("collect_values");
  assert_eq!(values, vec![1_u32, 2_u32, 3_u32]);
}

#[test]
fn also_to_mat_keeps_data_path_behavior() {
  let values = Source::single(1_u32)
    .via(Flow::new().map(|value: u32| value + 1).also_to_mat(Sink::ignore(), KeepBoth))
    .collect_values()
    .expect("collect_values");
  assert_eq!(values, vec![2_u32]);
}

#[test]
fn monitor_mat_combines_materialized_values_and_keeps_data_path_behavior() {
  let (graph, _unused) = Flow::<u32, u32, StreamNotUsed>::new().into_parts();
  let flow: Flow<u32, u32, u32> = Flow::from_graph(graph, 21_u32);
  let (_graph, (left_mat, right_mat)) = flow.monitor_mat(KeepBoth).into_parts();
  assert_eq!(left_mat, 21_u32);
  assert_eq!(right_mat, FlowMonitor::<u32>::new());

  let values = Source::single(4_u32)
    .via(Flow::new().map(|value: u32| value + 1).monitor_mat(KeepLeft))
    .collect_values()
    .expect("collect_values");
  assert_eq!(values, vec![5_u32]);
}

#[test]
fn flow_map_materialized_value_transforms_materialized_value_and_keeps_data_path_behavior() {
  let (graph, _unused) = Flow::<u32, u32, StreamNotUsed>::new().map(|value: u32| value + 1).into_parts();
  let flow: Flow<u32, u32, u32> = Flow::from_graph(graph, 10_u32);
  let (_graph, materialized) = flow.map_materialized_value(|value| value + 5).into_parts();
  assert_eq!(materialized, 15_u32);

  let values = Source::single(4_u32)
    .via(Flow::new().map(|value: u32| value + 1).map_materialized_value(|_| 1_u32))
    .collect_values()
    .expect("collect_values");
  assert_eq!(values, vec![5_u32]);
}

#[test]
fn merge_preferred_keeps_single_path_behavior() {
  let values = Source::single(7_u32).via(Flow::new().merge_preferred(1)).collect_values().expect("collect_values");
  assert_eq!(values, vec![7_u32]);
}

#[test]
fn merge_preferred_logic_prefers_slot_zero_with_simultaneous_data() {
  let mut logic = MergePreferredLogic::<u32> {
    fan_in:      2,
    edge_slots:  vec![0, 1],
    pending:     vec![vec![10, 20, 30], vec![100, 200, 300]],
    source_done: false,
  };
  let v1 = logic.pop_preferred().expect("pop 1");
  assert_eq!(v1, 10_u32);
  let v2 = logic.pop_preferred().expect("pop 2");
  assert_eq!(v2, 20_u32);
  let v3 = logic.pop_preferred().expect("pop 3");
  assert_eq!(v3, 30_u32);
  let v4 = logic.pop_preferred().expect("pop 4");
  assert_eq!(v4, 100_u32);
  let v5 = logic.pop_preferred().expect("pop 5");
  assert_eq!(v5, 200_u32);
  let v6 = logic.pop_preferred().expect("pop 6");
  assert_eq!(v6, 300_u32);
  assert!(logic.pop_preferred().is_none());
}

#[test]
fn merge_preferred_logic_falls_back_to_secondary() {
  let mut logic = MergePreferredLogic::<u32> {
    fan_in:      2,
    edge_slots:  vec![0, 1],
    pending:     vec![Vec::new(), vec![100, 200]],
    source_done: false,
  };
  let v1 = logic.pop_preferred().expect("pop 1");
  assert_eq!(v1, 100_u32);
  let v2 = logic.pop_preferred().expect("pop 2");
  assert_eq!(v2, 200_u32);

  assert!(logic.pop_preferred().is_none());
}

#[test]
fn merge_prioritized_keeps_single_path_behavior() {
  let values = Source::single(7_u32).via(Flow::new().merge_prioritized(1)).collect_values().expect("collect_values");
  assert_eq!(values, vec![7_u32]);
}

#[test]
fn merge_prioritized_n_keeps_single_path_behavior() {
  let values =
    Source::single(7_u32).via(Flow::new().merge_prioritized_n(1, &[1])).collect_values().expect("collect_values");
  assert_eq!(values, vec![7_u32]);
}

#[test]
fn merge_prioritized_logic_respects_weight_ratio() {
  let mut logic = MergePrioritizedLogic::<u32> {
    fan_in:      2,
    priorities:  vec![3, 1],
    edge_slots:  vec![0, 1],
    pending:     vec![vec![10, 20, 30, 40, 50, 60], vec![100, 200, 300, 400, 500, 600]],
    credits:     vec![3, 1],
    current:     0,
    source_done: false,
  };

  let mut results = Vec::new();
  for _ in 0..8 {
    if let Some(v) = logic.pop_prioritized() {
      results.push(v);
    }
  }
  assert_eq!(results, vec![10, 20, 30, 100, 40, 50, 60, 200]);
}

#[test]
fn merge_prioritized_logic_equal_weights_alternates() {
  let mut logic = MergePrioritizedLogic::<u32> {
    fan_in:      2,
    priorities:  vec![1, 1],
    edge_slots:  vec![0, 1],
    pending:     vec![vec![10, 20, 30], vec![100, 200, 300]],
    credits:     vec![1, 1],
    current:     0,
    source_done: false,
  };

  let mut results = Vec::new();
  for _ in 0..6 {
    if let Some(v) = logic.pop_prioritized() {
      results.push(v);
    }
  }
  assert_eq!(results, vec![10, 100, 20, 200, 30, 300]);
}

#[test]
fn merge_sorted_keeps_single_path_behavior() {
  let values = Source::single(7_u32).via(Flow::new().merge_sorted(1)).collect_values().expect("collect_values");
  assert_eq!(values, vec![7_u32]);
}

#[test]
fn fold_on_empty_stream_emits_nothing() {
  let values = Source::<u32, _>::from_logic(StageKind::Custom, SequenceSourceLogic::new(&[]))
    .via(Flow::new().fold(0_u32, |acc, value| acc + value))
    .collect_values()
    .expect("collect_values");
  assert!(values.is_empty());
}

#[test]
fn reduce_on_empty_stream_emits_nothing() {
  let values = Source::<u32, _>::from_logic(StageKind::Custom, SequenceSourceLogic::new(&[]))
    .via(Flow::new().reduce(|acc, value| acc + value))
    .collect_values()
    .expect("collect_values");
  assert!(values.is_empty());
}

#[test]
fn also_to_mat_combines_materialized_values() {
  let (graph, (left_mat, right_mat)) =
    Flow::<u32, u32, StreamNotUsed>::new().also_to_mat(Sink::head(), KeepBoth).into_parts();
  let _ = graph;
  assert_eq!(left_mat, StreamNotUsed::new());
  assert_eq!(right_mat.poll(), Completion::Pending);
}

#[test]
fn wire_tap_mat_combines_materialized_values_and_keeps_data_path_behavior() {
  let (graph, materialized) = Flow::<u32, u32, StreamNotUsed>::new().wire_tap_mat(Sink::head(), KeepRight).into_parts();
  let _ = graph;
  assert_eq!(materialized.poll(), Completion::Pending);

  let values = Source::single(4_u32)
    .via(Flow::new().map(|value: u32| value + 1).wire_tap_mat(Sink::ignore(), KeepRight))
    .collect_values()
    .expect("collect_values");
  assert_eq!(values, vec![5_u32]);
}

#[test]
fn collect_type_collects_convertible_values() {
  let values = Source::from_array([1_i32, -1_i32, 2_i32])
    .via(Flow::new().collect_type::<u32>())
    .collect_values()
    .expect("collect_values");
  assert_eq!(values, vec![1_u32, 2_u32]);
}

#[test]
fn attributes_are_replaced_and_appended_without_changing_elements() {
  let flow = Flow::<u32, u32, StreamNotUsed>::new()
    .map(|v: u32| v + 1)
    .named("first")
    .add_attributes(Attributes::named("second"));
  assert_eq!(flow.graph.attributes.names, vec!["first".to_string(), "second".to_string()]);
  let flow = flow.with_attributes(Attributes::named("only").and(Attributes::new()));
  assert_eq!(flow.graph.attributes.names, vec!["only".to_string()]);
  let values = Source::single(1_u32).via(flow).collect_values().expect("collect_values");
  assert_eq!(values, vec![2_u32]);
  assert_eq!(OperatorKey::new("map").as_str(), "map");
}

#[test]
fn buffer_keeps_single_path_behavior() {
  let values = Source::single(7_u32)
    .via(Flow::new().buffer(2, OverflowPolicy::Block).expect("buffer"))
    .collect_values()
    .expect("collect_values");
  assert_eq!(values, vec![7_u32]);
}

#[test]
fn buffer_rejects_zero_capacity() {
  let flow = Flow::<u32, u32, StreamNotUsed>::new();
  let result = flow.buffer(0, OverflowPolicy::Block);
  assert!(matches!(
    result,
    Err(StreamDslError::InvalidArgument { name: "capacity", value: 0, reason: "must be greater than zero" })
  ));
}

#[test]
fn do_on_first_invokes_callback_on_first_element_only() {
  let counter = Arc::new(AtomicU32::new(0));
  let counter_clone = counter.clone();
  let values = Source::<u32, _>::from_logic(StageKind::Custom, SequenceSourceLogic::new(&[10, 20, 30]))
    .via(Flow::new().do_on_first(move |_value| {
      counter_clone.fetch_add(1, Ordering::Relaxed);
    }))
    .collect_values()
    .expect("collect_values");
  assert_eq!(values, vec![10_u32, 20_u32, 30_u32]);
  assert_eq!(counter.load(Ordering::Relaxed), 1);
}

#[test]
fn do_on_first_does_not_fire_on_empty_stream() {
  let counter = Arc::new(AtomicU32::new(0));
  let counter_clone = counter.clone();
  let values = Source::<u32, _>::from_logic(StageKind::Custom, SequenceSourceLogic::new(&[]))
    .via(Flow::new().do_on_first(move |_value| {
      counter_clone.fetch_add(1, Ordering::Relaxed);
    }))
    .collect_values()
    .expect("collect_values");
  assert!(values.is_empty());
  assert_eq!(counter.load(Ordering::Relaxed), 0);
}

#[test]
fn flow_to_mat_runs_the_flow_before_the_sink_and_settles_the_kept_value() {
  let sink = Flow::new().map(|value: u32| value + 1).to_mat(Sink::head(), KeepRight);
  let completion = Source::single(7_u32).to_mat(sink, KeepRight).run();
  assert_eq!(completion.poll(), Completion::Ready(Ok(8_u32)));
}

#[test]
fn flow_to_mat_keep_both_settles_only_the_sink_part() {
  let (graph, _) = Flow::<u32, u32, StreamNotUsed>::new().into_parts();
  let flow: Flow<u32, u32, u32> = Flow::from_graph(graph, 21_u32);
  let sink = flow.map(|value: u32| value * 2).to_mat(Sink::last(), KeepBoth);
  let (left, completion) = Source::from_array([1_u32, 2, 3]).to_mat(sink, KeepRight).run();
  assert_eq!(left, 21_u32);
  assert_eq!(completion.poll(), Completion::Ready(Ok(6_u32)));
}

#[test]
fn flow_to_keeps_the_flow_value() {
  let (graph, _) = Flow::<u32, u32, StreamNotUsed>::new().into_parts();
  let flow: Flow<u32, u32, u32> = Flow::from_graph(graph, 5_u32);
  let sink = flow.to(Sink::ignore());
  assert_eq!(Source::single(1_u32).to_mat(sink, KeepRight).run(), 5_u32);
}

#[test]
fn lazy_flow_builds_its_stages_only_when_an_element_arrives() {
  let calls = Arc::new(AtomicU32::new(0));
  let seen = calls.clone();
  let flow = Flow::<u32, u32, StreamNotUsed, _>::lazy_flow(move || {
    seen.fetch_add(1, Ordering::Relaxed);
    Flow::new().map(|value: u32| value + 1)
  });
  let values = Source::<u32, _>::empty().via(flow).collect_values().expect("collect_values");
  assert!(values.is_empty());
  assert_eq!(calls.load(Ordering::Relaxed), 0);

  let seen = calls.clone();
  let flow = Flow::<u32, u32, StreamNotUsed, _>::lazy_flow(move || {
    seen.fetch_add(1, Ordering::Relaxed);
    Flow::new().map(|value: u32| value + 1)
  });
  let values = Source::from_array([1_u32, 2]).via(flow).collect_values().expect("collect_values");
  assert_eq!(values, vec![2_u32, 3]);
  assert_eq!(calls.load(Ordering::Relaxed), 1);
}

#[test]
fn lazy_flow_materializes_the_default_value() {
  let flow = Flow::<u32, u32, u32, _>::lazy_flow(|| {
    let (graph, _) = Flow::<u32, u32, StreamNotUsed>::new().into_parts();
    Flow::<u32, u32, u32>::from_graph(graph, 9_u32)
  });
  let (_graph, mat) = flow.into_parts();
  assert_eq!(mat, 0_u32);
}

#[test]
fn also_to_mat_routes_elements_to_side_sink() {
  let (_graph, side_completion) =
    Source::single(9_u32).via_mat(Flow::new().also_to_mat(Sink::head(), KeepRight), KeepRight).into_parts();
  assert_eq!(side_completion.poll(), Completion::Ready(Ok(9_u32)));
}

#[test]
fn wire_tap_mat_routes_elements_to_side_sink() {
  let (_graph, side_completion) =
    Source::single(4_u32).via_mat(Flow::new().wire_tap_mat(Sink::head(), KeepRight), KeepRight).into_parts();
  assert_eq!(side_completion.poll(), Completion::Ready(Ok(4_u32)));
}

#[test]
fn also_to_mat_side_sink_sees_the_transformed_elements() {
  let flow = Flow::new().map(|value: u32| value * 10).also_to_mat(Sink::last(), KeepBoth);
  let (_graph, (left, side_completion)) = Source::from_array([1_u32, 2, 3]).via_mat(flow, KeepRight).into_parts();
  assert_eq!(left, StreamNotUsed::new());
  assert_eq!(side_completion.poll(), Completion::Ready(Ok(30_u32)));
}

#[test]
fn conflate_aggregates_bursty_upstream_values() {
  let values = Source::<u32, _>::from_logic(StageKind::Custom, SequenceSourceLogic::new(&[1, 2]))
    .via(Flow::new().map_concat(|value: u32| vec![value, value.saturating_mul(10)]))
    .via(Flow::new().conflate(|acc, value| acc + value))
    .collect_values()
    .expect("collect_values");
  assert_eq!(values, vec![11_u32, 22_u32]);
}

#[test]
fn conflate_with_seed_aggregates_bursty_upstream_values() {
  let values = Source::<u32, _>::from_logic(StageKind::Custom, SequenceSourceLogic::new(&[1, 2]))
    .via(Flow::new().map_concat(|value: u32| vec![value, value.saturating_mul(10)]))
    .via(Flow::new().conflate_with_seed(|value| value + 100, |acc, value| acc + value))
    .collect_values()
    .expect("collect_values");
  assert_eq!(values, vec![111_u32, 122_u32]);
}

#[test]
fn grouped_within_flushes_when_tick_window_expires() {
  let schedule = [Some(1_u32), None, None, Some(2_u32), Some(3_u32)];
  let values = Source::<u32, _>::from_logic(StageKind::Custom, PulsedSourceLogic::new(&schedule))
    .via(Flow::new().grouped_within(10, 2).expect("grouped_within"))
    .collect_values()
    .expect("collect_values");
  assert_eq!(values, vec![vec![1_u32], vec![2_u32, 3_u32]]);
}

#[test]
fn grouped_within_expires_window_at_tick_boundary() {
  let schedule = [Some(1_u32), Some(2_u32)];
  let values = Source::<u32, _>::from_logic(StageKind::Custom, PulsedSourceLogic::new(&schedule))
    .via(Flow::new().grouped_within(10, 1).expect("grouped_within"))
    .collect_values()
    .expect("collect_values");
  assert_eq!(values, vec![vec![1_u32], vec![2_u32]]);
}

#[test]
fn take_within_counts_idle_steps_of_the_upstream() {
  let schedule = [Some(1_u32), None, Some(2_u32), Some(3_u32)];
  let values = Source::<u32, _>::from_logic(StageKind::Custom, PulsedSourceLogic::new(&schedule))
    .via(Flow::new().take_within(2).expect("take_within"))
    .collect_values()
    .expect("collect_values");
  assert_eq!(values, vec![1_u32]);
}

#[test]
fn conflate_merges_a_burst_and_leaves_later_elements_alone() {
  let values = Source::<u32, _>::from_logic(StageKind::Custom, SequenceSourceLogic::new(&[1, 2]))
    .via(Flow::new().map_concat(|value: u32| if value == 1 { vec![1, 2, 3] } else { vec![value] }))
    .via(Flow::new().conflate_with_seed(|value: u32| value * 100, |acc, value| acc + value))
    .collect_values()
    .expect("collect_values");
  assert_eq!(values, vec![105_u32, 200_u32]);
}

#[test]
fn filter_keeps_the_arrival_steps_of_the_elements_it_keeps() {
  let schedule = [Some(1_u32), Some(2_u32), None, None, Some(3_u32)];
  let values = Source::<u32, _>::from_logic(StageKind::Custom, PulsedSourceLogic::new(&schedule))
    .via(Flow::new().filter(|value: &u32| value % 2 == 1))
    .via(Flow::new().grouped_within(10, 2).expect("grouped_within"))
    .collect_values()
    .expect("collect_values");
  assert_eq!(values, vec![vec![1_u32], vec![3_u32]]);
}

#[test]
fn drop_keeps_the_arrival_steps_of_the_remaining_elements() {
  let schedule = [Some(1_u32), Some(2_u32), None, None, Some(3_u32), Some(4_u32)];
  let values = Source::<u32, _>::from_logic(StageKind::Custom, PulsedSourceLogic::new(&schedule))
    .via(Flow::new().drop(1))
    .via(Flow::new().grouped_within(10, 2).expect("grouped_within"))
    .collect_values()
    .expect("collect_values");
  assert_eq!(values, vec![vec![2_u32], vec![3_u32, 4_u32]]);
}
