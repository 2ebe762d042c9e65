use fraktor_streams::buffer::OverflowPolicy;
use fraktor_streams::error::{StreamDslError, StreamError};
use fraktor_streams::flow::ThrottleMode;
use fraktor_streams::logic::{CycleSourceLogic, IterateSourceLogic, LazySourceLogic, RepeatSourceLogic, SourceLogic};
use fraktor_streams::mat::{KeepLeft, StreamNotUsed};
use fraktor_streams::restart::RestartSettings;
use fraktor_streams::sink::Sink;
use fraktor_streams::source::Source;
use fraktor_streams::stage_kind::StageKind;
use std::marker::PhantomData;

struct SequenceSourceLogic {
  values: Vec<u32>,
}

impl SequenceSourceLogic {
  fn new(values: &[u32]) -> Self {
    Self { values: values.to_vec() }
  }
}

impl SourceLogic<u32> for SequenceSourceLogic {
  fn pull(&mut self) -> Result<Option<u32>, StreamError> {
    if self.values.is_empty() {
      Ok(None)
    } else {
      Ok(Some(self.values.remove(0)))
    }
  }
}

#[test]
fn source_map_materialized_value_transforms_materialized_value_and_keeps_data_path_behavior() {
  let (_graph, materialized) = Source::single(1_u32).map_materialized_value(|_| 99_u32).into_parts();
  assert_eq!(materialized, 99_u32);

  let values = Source::from_array([1_u32, 2_u32, 3_u32])
    .map_materialized_value(|_| 42_u32)
    .collect_values()
    .expect("collect_values");
  assert_eq!(values, vec![1_u32, 2_u32, 3_u32]);

  let graph = Source::single(7_u32).map_materialized_value(|_| 55_u32).to_mat(Sink::ignore(), KeepLeft);
  let materialized = graph.run();
  assert_eq!(materialized, 55_u32);
}

#[test]
fn source_broadcast_duplicates_each_element() {
  let values = Source::single(5_u32).broadcast(2).expect("broadcast").collect_values().expect("collect_values");
  assert_eq!(values, vec![5_u32, 5_u32]);
}

#[test]
fn source_empty_completes_without_elements() {
  let values = Source::<u32, _>::empty().collect_values().expect("collect_values");
  assert_eq!(values, Vec::<u32>::new());
}

#[test]
fn source_from_option_emits_present_value() {
  let values = Source::from_option(Some(7_u32)).collect_values().expect("collect_values");
  assert_eq!(values, vec![7_u32]);
}

#[test]
fn source_from_option_none_completes_without_elements() {
  let values = Source::<u32, _>::from_option(None).collect_values().expect("collect_values");
  assert_eq!(values, Vec::<u32>::new());
}

#[test]
fn source_from_iterator_emits_values_in_order() {
  let values = Source::from_iterator(vec![1_u32, 2, 3, 4]).collect_values().expect("collect_values");
  assert_eq!(values, vec![1_u32, 2, 3, 4]);
}

#[test]
fn source_from_iterator_empty_iterator_completes_without_elements() {
  let values = Source::from_iterator(Vec::<u32>::new()).collect_values().expect("collect_values");
  assert_eq!(values, Vec::<u32>::new());
}

#[test]
fn source_from_array_emits_values_in_order() {
  let values = Source::from_array([1_u32, 2, 3, 4]).collect_values().expect("collect_values");
  assert_eq!(values, vec![1_u32, 2, 3, 4]);
}

#[test]
fn source_from_array_empty_array_completes_without_elements() {
  let values = Source::<u32, _>::from_array([]).collect_values().expect("collect_values");
  assert_eq!(values, Vec::<u32>::new());
}

#[test]
fn source_from_alias_emits_values_in_order() {
  let values = Source::from(vec![4_u32, 5, 6]).collect_values().expect("collect_values");
  assert_eq!(values, vec![4_u32, 5, 6]);
}

#[test]
fn source_failed_returns_error_on_collection() {
  let values = Source::<u32, _>::failed(StreamError::Failed).collect_values();
  assert_eq!(values, Err(StreamError::Failed));
}

#[test]
fn source_never_with_take_returns_would_block() {
  let values = Source::<u32, _>::never().take(1).collect_values();
  assert_eq!(values, Err(StreamError::WouldBlock));
}

#[test]
fn source_range_emits_inclusive_sequence() {
  let values = Source::range(2, 5).collect_values().expect("collect_values");
  assert_eq!(values, vec![2, 3, 4, 5]);
}

#[test]
fn source_range_descending_emits_reverse_sequence() {
  let values = Source::range(5, 2).collect_values().expect("collect_values");
  assert_eq!(values, vec![5, 4, 3, 2]);
}

#[test]
fn source_repeat_with_take_limits_elements() {
  let mut logic = RepeatSourceLogic { value: 9_u32 };
  let mut values = Vec::new();
  for _ in 0..4 {
    let value = logic.pull().expect("pull").expect("value");
    values.push(value);
  }
  assert_eq!(values, vec![9_u32, 9, 9, 9]);
}

#[test]
fn source_cycle_repeats_input_sequence() {
  let mut logic = CycleSourceLogic { values: vec![1_u32, 2, 3], index: 0 };
  let mut values = Vec::new();
  for _ in 0..7 {
    let value = logic.pull().expect("pull").expect("value");
    values.push(value);
  }
  assert_eq!(values, vec![1_u32, 2, 3, 1, 2, 3, 1]);
}

#[test]
fn source_iterate_emits_progressive_values() {
  let mut logic = IterateSourceLogic { current: 1_u32, func: |value| value + 2 };
  let mut values = Vec::new();
  for _ in 0..4 {
    let value = logic.pull().expect("pull").expect("value");
    values.push(value);
  }
  assert_eq!(values, vec![1_u32, 3, 5, 7]);
}

#[test]
fn source_as_source_with_context_attaches_unit_context() {
  let values =
    Source::from_array([1_u32, 2_u32]).as_source_with_context().as_source().collect_values().expect("collect_values");
  assert_eq!(values, vec![((), 1_u32), ((), 2_u32)]);
}

#[test]
fn source_actor_ref_alias_emits_values() {
  let values = Source::actor_ref(vec![1_u32, 2_u32]).collect_values().expect("collect_values");
  assert_eq!(values, vec![1_u32, 2_u32]);
}

#[test]
fn source_actor_ref_with_backpressure_alias_emits_values() {
  let values = Source::actor_ref_with_backpressure(vec![3_u32, 4_u32]).collect_values().expect("collect_values");
  assert_eq!(values, vec![3_u32, 4_u32]);
}

#[test]
fn source_watch_termination_mat_keep_left_passes_elements_through() {
  let values =
    Source::from_array([5_u32, 6_u32]).watch_termination_mat(KeepLeft).collect_values().expect("collect_values");
  assert_eq!(values, vec![5_u32, 6_u32]);
}

#[test]
fn source_combine_selects_first_available_source() {
  let values = Source::combine(vec![Source::from_array([1_u32, 2_u32]), Source::from_array([9_u32])])
    .collect_values()
    .expect("collect_values");
  assert_eq!(values, vec![1_u32, 2_u32]);
}

#[test]
fn source_from_java_stream_alias_emits_values() {
  let values = Source::from_java_stream(vec![3_u32, 4_u32]).collect_values().expect("collect_values");
  assert_eq!(values, vec![3_u32, 4_u32]);
}

#[test]
fn source_from_publisher_alias_emits_values() {
  let values = Source::from_publisher(vec![5_u32, 6_u32]).collect_values().expect("collect_values");
  assert_eq!(values, vec![5_u32, 6_u32]);
}

#[test]
fn source_lazy_single_alias_emits_factory_value() {
  let values = Source::lazy_single(|| 10_u32).collect_values().expect("collect_values");
  assert_eq!(values, vec![10_u32]);
}

#[test]
fn source_lazy_source_emits_all_elements_from_factory() {
  let values = Source::lazy_source(|| Source::from_array([1_u32, 2, 3])).collect_values().expect("collect_values");
  assert_eq!(values, vec![1_u32, 2, 3]);
}

#[test]
fn source_lazy_source_with_empty_factory_completes_immediately() {
  let values = Source::<u32, _>::lazy_source(Source::empty).collect_values().expect("collect_values");
  assert_eq!(values, Vec::<u32>::new());
}

#[test]
fn source_lazy_source_with_mapped_source_emits_transformed() {
  let values =
    Source::lazy_source(|| Source::from_array([1_u32, 2, 3]).map(|v| v * 10)).collect_values().expect("collect_values");
  assert_eq!(values, vec![10_u32, 20, 30]);
}

#[test]
fn source_maybe_alias_matches_from_option_behavior() {
  let values = Source::maybe(Some(11_u32)).collect_values().expect("collect_values");
  assert_eq!(values, vec![11_u32]);
}

#[test]
fn source_queue_alias_matches_iterator_behavior() {
  let values = Source::queue(vec![12_u32, 13_u32]).collect_values().expect("collect_values");
  assert_eq!(values, vec![12_u32, 13_u32]);
}

#[test]
fn source_unfold_emits_state_progression() {
  let values = Source::unfold(0_u32, |state| {
    if state >= 3 {
      return None;
    }
    Some((state + 1, state))
  })
  .collect_values()
  .expect("collect_values");
  assert_eq!(values, vec![0_u32, 1_u32, 2_u32]);
}

#[test]
fn source_zip_n_alias_wraps_values_by_fan_in() {
  let values = Source::single(15_u32).zip_n(1).expect("zip_n").collect_values().expect("collect_values");
  assert_eq!(values, vec![vec![15_u32]]);
}

#[test]
fn source_zip_with_n_alias_maps_zipped_values() {
  let values = Source::single(16_u32)
    .zip_with_n(1, |items: Vec<u32>| items.into_iter().sum::<u32>())
    .expect("zip_with_n")
    .collect_values()
    .expect("collect_values");
  assert_eq!(values, vec![16_u32]);
}

#[test]
fn source_from_input_stream_alias_emits_values() {
  let values = Source::from_input_stream(vec![17_u32, 18_u32]).collect_values().expect("collect_values");
  assert_eq!(values, vec![17_u32, 18_u32]);
}

#[test]
fn source_from_output_stream_alias_emits_values() {
  let values = Source::from_output_stream(vec![19_u32, 20_u32]).collect_values().expect("collect_values");
  assert_eq!(values, vec![19_u32, 20_u32]);
}

#[test]
fn source_as_input_stream_collects_values() {
  let values = Source::from_array([21_u32, 22_u32]).as_input_stream().expect("as_input_stream");
  assert_eq!(values, vec![21_u32, 22_u32]);
}

#[test]
fn source_as_java_stream_collects_values() {
  let values = Source::from_array([23_u32, 24_u32]).as_java_stream().expect("as_java_stream");
  assert_eq!(values, vec![23_u32, 24_u32]);
}

#[test]
fn source_as_output_stream_collects_values() {
  let values = Source::from_array([25_u32, 26_u32]).as_output_stream().expect("as_output_stream");
  assert_eq!(values, vec![25_u32, 26_u32]);
}

#[test]
fn source_from_path_emits_path_bytes() {
  let values = Source::from_path("ab").collect_values().expect("collect_values");
  assert_eq!(values, vec![b'a', b'b']);
}

#[test]
fn source_broadcast_rejects_zero_fan_out() {
  assert!(Source::single(1_u32).broadcast(0).is_err());
}

#[test]
fn source_balance_keeps_single_path_behavior() {
  let values = Source::single(5_u32).balance(1).expect("balance").collect_values().expect("collect_values");
  assert_eq!(values, vec![5_u32]);
}

#[test]
fn source_balance_rejects_zero_fan_out() {
  assert!(Source::single(1_u32).balance(0).is_err());
}

#[test]
fn source_merge_keeps_single_path_behavior() {
  let values = Source::single(5_u32).merge(1).expect("merge").collect_values().expect("collect_values");
  assert_eq!(values, vec![5_u32]);
}

#[test]
fn source_merge_rejects_zero_fan_in() {
  assert!(Source::single(1_u32).merge(0).is_err());
}

#[test]
fn source_zip_wraps_value_when_single_path() {
  let values = Source::single(5_u32).zip(1).expect("zip").collect_values().expect("collect_values");
  assert_eq!(values, vec![vec![5_u32]]);
}

#[test]
fn source_zip_rejects_zero_fan_in() {
  assert!(Source::single(1_u32).zip(0).is_err());
}

#[test]
fn source_concat_keeps_single_path_behavior() {
  let values = Source::single(5_u32).concat(1).expect("concat").collect_values().expect("collect_values");
  assert_eq!(values, vec![5_u32]);
}

#[test]
fn source_concat_rejects_zero_fan_in() {
  assert!(Source::single(1_u32).concat(0).is_err());
}

#[test]
fn source_partition_keeps_single_path_behavior() {
  let values = Source::<u32, _>::from_logic(StageKind::Custom, SequenceSourceLogic::new(&[1, 2, 3, 4]))
    .partition(|value| value % 2 == 0)
    .collect_values()
    .expect("collect_values");
  assert_eq!(values, vec![1_u32, 2_u32, 3_u32, 4_u32]);
}

#[test]
fn source_unzip_emits_tuple_components() {
  let values = Source::single((5_u32, 6_u32)).unzip().collect_values().expect("collect_values");
  assert_eq!(values, vec![5_u32, 6_u32]);
}

#[test]
fn source_unzip_with_emits_mapped_tuple_components() {
  let values = Source::single(5_u32)
    .unzip_with(|value| (value, value.saturating_add(1)))
    .collect_values()
    .expect("collect_values");
  assert_eq!(values, vec![5_u32, 6_u32]);
}

#[test]
fn source_interleave_keeps_single_path_behavior() {
  let values = Source::single(5_u32).interleave(1).expect("interleave").collect_values().expect("collect_values");
  assert_eq!(values, vec![5_u32]);
}

#[test]
fn source_interleave_rejects_zero_fan_in() {
  assert!(Source::single(1_u32).interleave(0).is_err());
}

#[test]
fn source_prepend_keeps_single_path_behavior() {
  let values = Source::single(5_u32).prepend(1).expect("prepend").collect_values().expect("collect_values");
  assert_eq!(values, vec![5_u32]);
}

#[test]
fn source_prepend_rejects_zero_fan_in() {
  assert!(Source::single(1_u32).prepend(0).is_err());
}

#[test]
fn source_zip_all_wraps_value_when_single_path() {
  let values = Source::single(5_u32).zip_all(1, 0_u32).expect("zip_all").collect_values().expect("collect_values");
  assert_eq!(values, vec![vec![5_u32]]);
}

#[test]
fn source_zip_all_rejects_zero_fan_in() {
  assert!(Source::single(1_u32).zip_all(0, 0_u32).is_err());
}

#[test]
fn source_flat_map_merge_keeps_single_path_behavior() {
  let values = Source::single(5_u32)
    .flat_map_merge(2, Source::single)
    .expect("flat_map_merge")
    .collect_values()
    .expect("collect_values");
  assert_eq!(values, vec![5_u32]);
}

#[test]
fn source_flat_map_merge_preserves_outer_order_and_round_robin() {
  let values = Source::from_array([1_u32, 2_u32])
    .flat_map_merge(2, |value| Source::from_array([value, value.saturating_add(10)]))
    .expect("flat_map_merge")
    .collect_values()
    .expect("collect_values");
  assert_eq!(values, vec![1_u32, 11_u32, 2_u32, 12_u32]);
}

#[test]
fn source_flat_map_merge_rejects_zero_breadth() {
  let result = Source::single(1_u32).flat_map_merge(0, Source::single);
  assert!(matches!(
    result,
    Err(StreamDslError::InvalidArgument { name: "breadth", value: 0, reason: "must be greater than zero" })
  ));
}

#[test]
fn source_flat_map_merge_skips_empty_inner_and_completes() {
  let values = Source::from_array([1_u32, 2_u32, 3_u32])
    .flat_map_merge(
      2,
      |value| {
        if value == 1 { Source::empty() } else { Source::from_array([value.saturating_add(10)]) }
      },
    )
    .expect("flat_map_merge")
    .collect_values()
    .expect("collect_values");
  assert_eq!(values, vec![12_u32, 13_u32]);
}

#[test]
fn source_flat_map_concat_keeps_order_with_empty_inner_stream() {
  let values = Source::from_array([1_u32, 2_u32, 3_u32]).flat_map_concat(|value| {
    if value == 1 { Source::empty() } else { Source::from_array([value.saturating_add(20), value.saturating_add(30)]) }
  });
  let values = values.collect_values().expect("collect_values");
  assert_eq!(values, vec![22_u32, 32_u32, 23_u32, 33_u32]);
}

#[test]
fn source_async_boundary_keeps_single_path_behavior() {
  let values = Source::single(5_u32).async_boundary().collect_values().expect("collect_values");
  assert_eq!(values, vec![5_u32]);
}

#[test]
fn source_throttle_keeps_single_path_behavior() {
  let values = Source::single(5_u32)
    .throttle(2, ThrottleMode::Shaping)
    .expect("throttle")
    .collect_values()
    .expect("collect_values");
  assert_eq!(values, vec![5_u32]);
}

#[test]
fn source_throttle_rejects_zero_capacity() {
  let result = Source::single(1_u32).throttle(0, ThrottleMode::Shaping);
  assert!(matches!(
    result,
    Err(StreamDslError::InvalidArgument { name: "capacity", value: 0, reason: "must be greater than zero" })
  ));
}

#[test]
fn source_delay_keeps_single_path_behavior() {
  let values = Source::single(5_u32).delay(2).expect("delay").collect_values().expect("collect_values");
  assert_eq!(values, vec![5_u32]);
}

#[test]
fn source_delay_rejects_zero_ticks() {
  let result = Source::single(1_u32).delay(0);
  assert!(matches!(
    result,
    Err(StreamDslError::InvalidArgument { name: "ticks", value: 0, reason: "must be greater than zero" })
  ));
}

#[test]
fn source_initial_delay_keeps_single_path_behavior() {
  let values = Source::single(5_u32).initial_delay(2).expect("initial_delay").collect_values().expect("collect_values");
  assert_eq!(values, vec![5_u32]);
}

#[test]
fn source_initial_delay_rejects_zero_ticks() {
  let result = Source::single(1_u32).initial_delay(0);
  assert!(matches!(
    result,
    Err(StreamDslError::InvalidArgument { name: "ticks", value: 0, reason: "must be greater than zero" })
  ));
}

#[test]
fn source_take_within_limits_output_window() {
  let values = Source::<u32, _>::from_logic(StageKind::Custom, SequenceSourceLogic::new(&[1, 2, 3]))
    .take_within(1)
    .expect("take_within")
    .collect_values()
    .expect("collect_values");
  assert_eq!(values, vec![1_u32]);
}

#[test]
fn source_take_within_rejects_zero_ticks() {
  let result = Source::single(1_u32).take_within(0);
  assert!(matches!(
    result,
    Err(StreamDslError::InvalidArgument { name: "ticks", value: 0, reason: "must be greater than zero" })
  ));
}

#[test]
fn source_batch_emits_fixed_size_chunks() {
  let values = Source::from_array([1_u32, 2_u32, 3_u32, 4_u32, 5_u32])
    .batch(2)
    .expect("batch")
    .collect_values()
    .expect("collect_values");
  assert_eq!(values, vec![vec![1_u32, 2_u32], vec![3_u32, 4_u32], vec![5_u32]]);
}

#[test]
fn source_batch_rejects_zero_size() {
  let result = Source::single(1_u32).batch(0);
  assert!(matches!(
    result,
    Err(StreamDslError::InvalidArgument { name: "size", value: 0, reason: "must be greater than zero" })
  ));
}

#[test]
fn source_filter_keeps_matching_elements() {
  let values = Source::<u32, _>::from_logic(StageKind::Custom, SequenceSourceLogic::new(&[1, 2, 3, 4]))
    .filter(|value| value % 2 == 0)
    .collect_values()
    .expect("collect_values");
  assert_eq!(values, vec![2_u32, 4_u32]);
}

#[test]
fn source_filter_not_keeps_non_matching_elements() {
  let values = Source::<u32, _>::from_logic(StageKind::Custom, SequenceSourceLogic::new(&[1, 2, 3, 4]))
    .filter_not(|value| value % 2 == 0)
    .collect_values()
    .expect("collect_values");
  assert_eq!(values, vec![1_u32, 3_u32]);
}

#[test]
fn source_flatten_optional_emits_present_value() {
  let values = Source::single(Some(7_u32)).flatten_optional().collect_values().expect("collect_values");
  assert_eq!(values, vec![7_u32]);
}

#[test]
fn source_flatten_optional_skips_none() {
  let values = Source::single(None::<u32>).flatten_optional().collect_values().expect("collect_values");
  assert_eq!(values, Vec::<u32>::new());
}

#[test]
fn source_map_concat_expands_each_element() {
  let values = Source::<u32, _>::from_logic(StageKind::Custom, SequenceSourceLogic::new(&[1, 2, 3]))
    .map_concat(|value: u32| vec![value, value.saturating_add(10)])
    .collect_values()
    .expect("collect_values");
  assert_eq!(values, vec![1_u32, 11_u32, 2_u32, 12_u32, 3_u32, 13_u32]);
}

#[test]
fn source_map_option_emits_only_present_elements() {
  let values = Source::<u32, _>::from_logic(StageKind::Custom, SequenceSourceLogic::new(&[1, 2, 3, 4]))
    .map_option(|value| if value % 2 == 0 { Some(value) } else { None })
    .collect_values()
    .expect("collect_values");
  assert_eq!(values, vec![2_u32, 4_u32]);
}

#[test]
fn source_stateful_map_emits_stateful_results() {
  let values = Source::<u32, _>::from_logic(StageKind::Custom, SequenceSourceLogic::new(&[1, 2, 3]))
    .stateful_map(|| {
      let mut sum = 0_u32;
      move |value| {
        sum = sum.saturating_add(value);
        sum
      }
    })
    .collect_values()
    .expect("collect_values");
  assert_eq!(values, vec![1_u32, 3_u32, 6_u32]);
}

#[test]
fn source_stateful_map_concat_expands_with_stateful_mapper() {
  let values = Source::<u32, _>::from_logic(StageKind::Custom, SequenceSourceLogic::new(&[1, 2, 3]))
    .stateful_map_concat(|| {
      let mut sum = 0_u32;
      move |value| {
        sum = sum.saturating_add(value);
        vec![sum, sum.saturating_add(100)]
      }
    })
    .collect_values()
    .expect("collect_values");
  assert_eq!(values, vec![1_u32, 101_u32, 3_u32, 103_u32, 6_u32, 106_u32]);
}

#[test]
fn source_drop_skips_first_elements() {
  let values = Source::<u32, _>::from_logic(StageKind::Custom, SequenceSourceLogic::new(&[1, 2, 3, 4]))
    .drop(2)
    .collect_values()
    .expect("collect_values");
  assert_eq!(values, vec![3_u32, 4_u32]);
}

#[test]
fn source_take_limits_elements() {
  let values = Source::<u32, _>::from_logic(StageKind::Custom, SequenceSourceLogic::new(&[1, 2, 3, 4]))
    .take(2)
    .collect_values()
    .expect("collect_values");
  assert_eq!(values, vec![1_u32, 2_u32]);
}

#[test]
fn source_drop_while_skips_matching_prefix() {
  let values = Source::<u32, _>::from_logic(StageKind::Custom, SequenceSourceLogic::new(&[1, 2, 3, 4]))
    .drop_while(|value| *value < 3)
    .collect_values()
    .expect("collect_values");
  assert_eq!(values, vec![3_u32, 4_u32]);
}

#[test]
fn source_take_while_keeps_matching_prefix() {
  let values = Source::<u32, _>::from_logic(StageKind::Custom, SequenceSourceLogic::new(&[1, 2, 3, 4]))
    .take_while(|value| *value < 3)
    .collect_values()
    .expect("collect_values");
  assert_eq!(values, vec![1_u32, 2_u32]);
}

#[test]
fn source_take_until_includes_first_matching_element() {
  let values = Source::<u32, _>::from_logic(StageKind::Custom, SequenceSourceLogic::new(&[1, 2, 3, 4]))
    .take_until(|value| *value >= 3)
    .collect_values()
    .expect("collect_values");
  assert_eq!(values, vec![1_u32, 2_u32, 3_u32]);
}

#[test]
fn source_grouped_emits_fixed_size_chunks() {
  let values = Source::<u32, _>::from_logic(StageKind::Custom, SequenceSourceLogic::new(&[1, 2, 3, 4, 5]))
    .grouped(2)
    .expect("grouped")
    .collect_values()
    .expect("collect_values");
  assert_eq!(values, vec![vec![1_u32, 2_u32], vec![3_u32, 4_u32], vec![5_u32]]);
}

#[test]
fn source_grouped_rejects_zero_size() {
  let result = Source::single(1_u32).grouped(0);
  assert!(matches!(
    result,
    Err(StreamDslError::InvalidArgument { name: "size", value: 0, reason: "must be greater than zero" })
  ));
}

#[test]
fn source_sliding_emits_overlapping_windows() {
  let values = Source::<u32, _>::from_logic(StageKind::Custom, SequenceSourceLogic::new(&[1, 2, 3, 4]))
    .sliding(3)
    .expect("sliding")
    .collect_values()
    .expect("collect_values");
  assert_eq!(values, vec![vec![1_u32, 2_u32, 3_u32], vec![2_u32, 3_u32, 4_u32]]);
}

#[test]
fn source_sliding_rejects_zero_size() {
  let result = Source::single(1_u32).sliding(0);
  assert!(matches!(
    result,
    Err(StreamDslError::InvalidArgument { name: "size", value: 0, reason: "must be greater than zero" })
  ));
}

#[test]
fn source_scan_emits_initial_and_running_accumulation() {
  let values = Source::<u32, _>::from_logic(StageKind::Custom, SequenceSourceLogic::new(&[1, 2, 3]))
    .scan(0_u32, |acc, value| acc + value)
    .collect_values()
    .expect("collect_values");
  assert_eq!(values, vec![0_u32, 1_u32, 3_u32, 6_u32]);
}

#[test]
fn source_intersperse_injects_markers() {
  let values = Source::<u32, _>::from_logic(StageKind::Custom, SequenceSourceLogic::new(&[1, 2, 3]))
    .intersperse(10_u32, 99_u32, 11_u32)
    .collect_values()
    .expect("collect_values");
  assert_eq!(values, vec![10_u32, 1_u32, 99_u32, 2_u32, 99_u32, 3_u32, 11_u32]);
}

#[test]
fn source_intersperse_on_empty_stream_emits_start_and_end() {
  let values = Source::<u32, _>::from_logic(StageKind::Custom, SequenceSourceLogic::new(&[]))
    .intersperse(10_u32, 99_u32, 11_u32)
    .collect_values()
    .expect("collect_values");
  assert_eq!(values, vec![10_u32, 11_u32]);
}

#[test]
fn source_zip_with_index_pairs_each_element_with_index() {
  let values = Source::<u32, _>::from_logic(StageKind::Custom, SequenceSourceLogic::new(&[7, 8, 9]))
    .zip_with_index()
    .collect_values()
    .expect("collect_values");
  assert_eq!(values, vec![(7_u32, 0_u64), (8_u32, 1_u64), (9_u32, 2_u64)]);
}

#[test]
fn source_group_by_keeps_single_path_behavior() {
  let values = Source::single(5_u32)
    .group_by(4, |value: &u32| value % 2)
    .expect("group_by")
    .merge_substreams()
    .collect_values()
    .expect("collect_values");
  assert_eq!(values, vec![5_u32]);
}

#[test]
fn source_group_by_rejects_zero_max_substreams() {
  let result = Source::single(1_u32).group_by(0, |value: &u32| *value);
  assert!(matches!(
    result,
    Err(StreamDslError::InvalidArgument { name: "max_substreams", value: 0, reason: "must be greater than zero" })
  ));
}

#[test]
fn source_merge_substreams_flattens_single_segment() {
  let values = Source::single(5_u32).split_after(|_| true).merge_substreams().collect_values().expect("collect_values");
  assert_eq!(values, vec![5_u32]);
}

#[test]
fn source_concat_substreams_flattens_single_segment() {
  let values =
    Source::single(5_u32).split_after(|_| true).concat_substreams().collect_values().expect("collect_values");
  assert_eq!(values, vec![5_u32]);
}

#[test]
fn source_merge_substreams_with_parallelism_flattens_single_segment() {
  let values = Source::single(5_u32)
    .split_after(|_| true)
    .merge_substreams_with_parallelism(2)
    .expect("merge_substreams_with_parallelism")
    .collect_values()
    .expect("collect_values");
  assert_eq!(values, vec![5_u32]);
}

#[test]
fn source_merge_substreams_with_parallelism_rejects_zero_parallelism() {
  let result = Source::single(5_u32).split_after(|_| true).merge_substreams_with_parallelism(0);
  assert!(matches!(
    result,
    Err(StreamDslError::InvalidArgument { name: "parallelism", value: 0, reason: "must be greater than zero" })
  ));
}

#[test]
fn source_group_by_fails_when_unique_key_count_exceeds_limit() {
  let result = Source::<u32, _>::from_logic(StageKind::Custom, SequenceSourceLogic::new(&[1, 2, 3]))
    .group_by(2, |value: &u32| *value)
    .expect("group_by")
    .merge_substreams()
    .collect_values();
  assert_eq!(result, Err(StreamError::SubstreamLimitExceeded { max_substreams: 2 }));
}

#[test]
fn source_p2_regression_group_by_merge_substreams_with_delay_and_zip_all() {
  let values = Source::from_array([1_u32, 2_u32, 3_u32])
    .group_by(4, |value: &u32| value % 2)
    .expect("group_by")
    .merge_substreams()
    .delay(1)
    .expect("delay")
    .zip_all(1, 0_u32)
    .expect("zip_all")
    .collect_values()
    .expect("collect_values");
  assert_eq!(values, vec![vec![1_u32], vec![2_u32], vec![3_u32]]);
}

#[test]
fn source_p2_regression_concat_substreams_with_take_within_and_prepend() {
  let values = Source::single(vec![4_u32, 5_u32])
    .concat_substreams()
    .take_within(2)
    .expect("take_within")
    .prepend(1)
    .expect("prepend")
    .collect_values()
    .expect("collect_values");
  assert_eq!(values, vec![4_u32, 5_u32]);
}

#[test]
fn source_map_error_maps_error_payload() {
  let values = Source::single(Err::<u32, StreamError>(StreamError::Failed))
    .map_error(|_| StreamError::WouldBlock)
    .collect_values()
    .expect("collect_values");
  assert_eq!(values, vec![Err(StreamError::WouldBlock)]);
}

#[test]
fn source_on_error_continue_drops_error_payloads() {
  let values = Source::from_array([
    Ok::<u32, StreamError>(1_u32),
    Err::<u32, StreamError>(StreamError::Failed),
    Ok::<u32, StreamError>(2_u32),
  ])
  .on_error_continue()
  .collect_values()
  .expect("collect_values");
  assert_eq!(values, vec![1_u32, 2_u32]);
}

#[test]
fn source_on_error_resume_alias_drops_error_payloads() {
  let values = Source::from_array([
    Ok::<u32, StreamError>(1_u32),
    Err::<u32, StreamError>(StreamError::Failed),
    Ok::<u32, StreamError>(2_u32),
  ])
  .on_error_resume()
  .collect_values()
  .expect("collect_values");
  assert_eq!(values, vec![1_u32, 2_u32]);
}

#[test]
fn source_on_error_complete_stops_emitting_after_first_error_payload() {
  let values = Source::from_array([
    Ok::<u32, StreamError>(1_u32),
    Err::<u32, StreamError>(StreamError::Failed),
    Ok::<u32, StreamError>(2_u32),
  ])
  .on_error_complete()
  .collect_values()
  .expect("collect_values");
  assert_eq!(values, vec![1_u32]);
}

#[test]
fn source_recover_replaces_error_payload_with_fallback() {
  let values = Source::single(Err::<u32, StreamError>(StreamError::Failed))
    .recover(5_u32)
    .collect_values()
    .expect("collect_values");
  assert_eq!(values, vec![5_u32]);
}

#[test]
fn source_recover_preserves_ok_values_and_replaces_error_payloads() {
  let values = Source::from_array([
    Ok::<u32, StreamError>(1_u32),
    Err::<u32, StreamError>(StreamError::Failed),
    Ok::<u32, StreamError>(2_u32),
  ])
  .recover(5_u32)
  .collect_values()
  .expect("collect_values");
  assert_eq!(values, vec![1_u32, 5_u32, 2_u32]);
}

#[test]
fn source_recover_with_alias_replaces_error_payload_with_fallback() {
  let values = Source::single(Err::<u32, StreamError>(StreamError::Failed))
    .recover_with(8_u32)
    .collect_values()
    .expect("collect_values");
  assert_eq!(values, vec![8_u32]);
}

#[test]
fn source_recover_with_retries_fails_when_retry_budget_is_exhausted() {
  let result =
    Source::single(Err::<u32, StreamError>(StreamError::Failed)).recover_with_retries(0, 5_u32).collect_values();
  assert_eq!(result, Err(StreamError::Failed));
}

#[test]
fn source_recover_with_retries_emits_fallback_until_budget_exhausts() {
  let values = Source::from_array([
    Err::<u32, StreamError>(StreamError::Failed),
    Ok::<u32, StreamError>(5_u32),
    Err::<u32, StreamError>(StreamError::Failed),
  ])
  .recover_with_retries(2, 7_u32)
  .collect_values()
  .expect("collect_values");
  assert_eq!(values, vec![7_u32, 5_u32, 7_u32]);
}

#[test]
fn source_recover_with_retries_fails_after_consuming_retry_budget() {
  let result =
    Source::from_array([Err::<u32, StreamError>(StreamError::Failed), Err::<u32, StreamError>(StreamError::Failed)])
      .recover_with_retries(1, 7_u32)
      .collect_values();
  assert_eq!(result, Err(StreamError::Failed));
}

#[test]
fn source_restart_with_backoff_keeps_single_path_behavior() {
  let values = Source::single(5_u32).restart_source_with_backoff(1, 3).collect_values().expect("collect_values");
  assert_eq!(values, vec![5_u32]);
}

#[test]
fn source_on_failures_with_backoff_alias_keeps_single_path_behavior() {
  let values = Source::single(5_u32).on_failures_with_backoff(1, 3).collect_values().expect("collect_values");
  assert_eq!(values, vec![5_u32]);
}

#[test]
fn source_with_backoff_alias_keeps_single_path_behavior() {
  let values = Source::single(5_u32).with_backoff(1, 3).collect_values().expect("collect_values");
  assert_eq!(values, vec![5_u32]);
}

#[test]
fn source_with_backoff_and_context_alias_keeps_single_path_behavior() {
  let values = Source::single(5_u32).with_backoff_and_context(1, 3, "compat").collect_values().expect("collect_values");
  assert_eq!(values, vec![5_u32]);
}

#[test]
fn source_restart_with_settings_keeps_single_path_behavior() {
  let settings = RestartSettings::new(1, 4, 3)
    .with_random_factor_permille(250)
    .with_max_restarts_within_ticks(16)
    .with_jitter_seed(11);
  let values = Source::single(5_u32).restart_source_with_settings(settings).collect_values().expect("collect_values");
  assert_eq!(values, vec![5_u32]);
}

#[test]
fn source_supervision_variants_keep_single_path_behavior() {
  let values = Source::single(5_u32)
    .supervision_stop()
    .supervision_resume()
    .supervision_restart()
    .collect_values()
    .expect("collect_values");
  assert_eq!(values, vec![5_u32]);
}

#[test]
fn source_detach_preserves_elements_and_order() {
  let values = Source::<u32, _>::from_logic(StageKind::Custom, SequenceSourceLogic::new(&[1, 2, 3]))
    .detach()
    .collect_values()
    .expect("collect_values");
  assert_eq!(values, vec![1_u32, 2_u32, 3_u32]);
}

#[test]
fn source_fold_emits_running_accumulation_without_initial() {
  let values = Source::<u32, _>::from_logic(StageKind::Custom, SequenceSourceLogic::new(&[1, 2, 3]))
    .fold(0_u32, |acc, value| acc + value)
    .collect_values()
    .expect("collect_values");
  assert_eq!(values, vec![1_u32, 3_u32, 6_u32]);
}

#[test]
fn source_reduce_folds_with_first_element_as_seed() {
  let values = Source::<u32, _>::from_logic(StageKind::Custom, SequenceSourceLogic::new(&[1, 2, 3]))
    .reduce(|acc, value| acc + value)
    .collect_values()
    .expect("collect_values");
  assert_eq!(values, vec![1_u32, 3_u32, 6_u32]);
}

#[test]
fn source_lazy_source_persists_error_on_collect_values_failure() {
  let mut logic = LazySourceLogic::<u32, _> {
    factory: Some(|| Source::<u32, StreamNotUsed>::failed(StreamError::Failed)),
    buffer:  Vec::new(),
    error:   None,
    _pd:     PhantomData,
  };

  let first = logic.pull();
  assert!(matches!(first, Err(StreamError::Failed)));

  let second = logic.pull();
  assert!(matches!(second, Err(StreamError::Failed)));

  let restart = logic.on_restart();
  assert!(matches!(restart, Err(StreamError::Failed)));
}

#[test]
fn source_buffer_keeps_single_path_behavior() {
  let values =
    Source::single(5_u32).buffer(2, OverflowPolicy::Block).expect("buffer").collect_values().expect("collect_values");
  assert_eq!(values, vec![5_u32]);
}

#[test]
fn source_buffer_rejects_zero_capacity() {
  let result = Source::single(1_u32).buffer(0, OverflowPolicy::Block);
  assert!(matches!(
    result,
    Err(StreamDslError::InvalidArgument { name: "capacity", value: 0, reason: "must be greater than zero" })
  ));
}

#[test]
fn source_split_when_emits_single_segment_for_single_element() {
  let values = Source::single(5_u32).split_when(|_| false).into_source().collect_values().expect("collect_values");
  assert_eq!(values, vec![vec![5_u32]]);
}

#[test]
fn source_split_after_emits_single_segment_for_single_element() {
  let values = Source::single(5_u32).split_after(|_| false).into_source().collect_values().expect("collect_values");
  assert_eq!(values, vec![vec![5_u32]]);
}

#[test]
fn source_split_when_starts_new_segment_with_matching_element() {
  let values = Source::<u32, _>::from_logic(StageKind::Custom, SequenceSourceLogic::new(&[1, 2, 3, 4]))
    .split_when(|value| value % 2 == 0)
    .into_source()
    .collect_values()
    .expect("collect_values");
  assert_eq!(values, vec![vec![1_u32], vec![2_u32, 3_u32], vec![4_u32]]);
}

#[test]
fn source_split_after_keeps_matching_element_in_current_segment() {
  let values = Source::<u32, _>::from_logic(StageKind::Custom, SequenceSourceLogic::new(&[1, 2, 3, 4]))
    .split_after(|value| value % 2 == 0)
    .into_source()
    .collect_values()
    .expect("collect_values");
  assert_eq!(values, vec![vec![1_u32, 2_u32], vec![3_u32, 4_u32]]);
}

#[test]
fn source_sub_flow_merge_substreams_flattens_segment() {
  let values = Source::single(1_u32).split_after(|_| true).merge_substreams().collect_values().expect("collect_values");
  assert_eq!(values, vec![1_u32]);
}

#[test]
fn source_sub_flow_concat_substreams_flattens_segment() {
  let values =
    Source::single(1_u32).split_after(|_| true).concat_substreams().collect_values().expect("collect_values");
  assert_eq!(values, vec![1_u32]);
}

#[test]
fn source_sub_flow_map_and_filter_delegate_to_inner_substreams() {
  let values = Source::from_array([1_u32, 2, 3, 4])
    .split_after(|value| value % 2 == 0)
    .map(|value| value * 10)
    .filter(|value| value % 20 == 0)
    .merge_substreams()
    .collect_values()
    .expect("collect_values");
  assert_eq!(values, vec![20_u32, 40_u32]);
}

#[test]
fn source_sub_flow_take_and_drop_scope_to_each_substream() {
  let values = Source::from_array([1_u32, 2, 3, 4, 5])
    .split_after(|value| value % 2 == 0)
    .drop(1)
    .take(1)
    .merge_substreams()
    .collect_values()
    .expect("collect_values");
  assert_eq!(values, vec![2_u32, 4_u32]);
}

#[test]
fn source_sub_flow_take_while_and_drop_while_scope_to_each_substream() {
  let values = Source::from_array([1_u32, 2, 3, 4, 5])
    .split_after(|value| value % 2 == 0)
    .drop_while(|value| value % 2 == 1)
    .take_while(|value| *value <= 4)
    .merge_substreams()
    .collect_values()
    .expect("collect_values");
  assert_eq!(values, vec![2_u32, 4_u32]);
}

#[test]
fn source_cycle_empty_values_completes_without_elements() {
  let values = Source::<u32, _>::cycle(Vec::new()).collect_values().expect("collect_values");
  assert_eq!(values, Vec::<u32>::new());
}

#[test]
fn source_tick_rejects_zero_interval() {
  let source = Source::tick(1, 0, 14_u32);
  assert!(matches!(
    source,
    Err(StreamDslError::InvalidArgument { name: "interval_ticks", value: 0, reason: "must be greater than zero" })
  ));
}
