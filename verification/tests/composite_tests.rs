use fraktor_streams::error::StreamError;
use fraktor_streams::flow::Flow;
use fraktor_streams::mat::{Completion, KeepRight, StreamDone};
use fraktor_streams::sink::Sink;
use fraktor_streams::mat::StreamNotUsed;
use fraktor_streams::restart::{RestartFlow, RestartSettings, RestartSink};
use fraktor_streams::source::Source;
use fraktor_streams::with_context::{FlowWithContext, SourceWithContext};

#[test]
fn flow_sub_flow_merge_substreams_flattens_segment() {
  let values = Source::single(1_u32)
    .via(Flow::<u32, u32, StreamNotUsed>::new().split_after(|_| true).merge_substreams())
    .collect_values()
    .expect("collect_values");
  assert_eq!(values, vec![1_u32]);
}

#[test]
fn flow_sub_flow_concat_substreams_flattens_segment() {
  let values = Source::single(1_u32)
    .via(Flow::<u32, u32, StreamNotUsed>::new().split_after(|_| true).concat_substreams())
    .collect_values()
    .expect("collect_values");
  assert_eq!(values, vec![1_u32]);
}

#[test]
fn tests_should_filter_by_value_preserving_context() {
  let fwc =
    FlowWithContext::from_flow(Flow::new().map(|v: (i32, i32)| v)).filter(|v: &i32| *v > 0);
  let values = Source::from(vec![(1_i32, 10), (2, -5), (3, 20)]).via(fwc.as_flow()).collect_values().unwrap();
  assert_eq!(values, vec![(1, 10), (3, 20)]);
}

#[test]
fn tests_should_map_context() {
  let fwc =
    FlowWithContext::from_flow(Flow::new().map(|v: (i32, &str)| v));
  let mapped = fwc.map_context(|ctx: i32| i64::from(ctx) * 10, |ctx2: i64| (ctx2 as i32) - 1);
  let values = Source::from(vec![(10_i64, "a"), (20_i64, "b")]).via(mapped.as_flow()).collect_values().unwrap();
  assert_eq!(values, vec![(90_i64, "a"), (190_i64, "b")]);
}

#[test]
fn restart_flow_with_settings_keeps_data_path_behavior() {
  let settings = RestartSettings::new(1, 2, 3);
  let flow = RestartFlow::with_settings(Flow::new().map(|value: u32| value + 1), settings);
  let values = Source::single(2_u32).via(flow).collect_values().expect("collect_values");
  assert_eq!(values, vec![3_u32]);
}

#[test]
fn tests_should_map_output_preserving_context() {
  let fwc = FlowWithContext::from_flow(Flow::new().map(|v: (i32, &str)| v)).map(|s: &str| s.len());
  let values = Source::from(vec![(1_i32, "hello"), (2, "world")]).via(fwc.as_flow()).collect_values().unwrap();
  assert_eq!(values, vec![(1, 5), (2, 5)]);
}

#[test]
fn tests_should_compose_via() {
  let fwc1 = FlowWithContext::from_flow(Flow::new().map(|v: (i32, &str)| v));
  let fwc2 = FlowWithContext::from_flow(Flow::new().map(|(ctx, s): (i32, &str)| (ctx, s.len())));
  let composed = fwc1.via(fwc2);
  let values = Source::from(vec![(1_i32, "hello"), (2, "hi")]).via(composed.as_flow()).collect_values().unwrap();
  assert_eq!(values, vec![(1, 5), (2, 2)]);
}

#[test]
fn should_create_from_source() {
  let source = Source::from(vec![(1_i32, "a"), (2, "b")]);
  let swc = SourceWithContext::from_source(source);
  let inner = swc.as_source();
  let values = inner.collect_values().unwrap();
  assert_eq!(values, vec![(1, "a"), (2, "b")]);
}

#[test]
fn should_map_output_preserving_context() {
  let source = Source::from(vec![(1_i32, "hello"), (2, "world")]);
  let swc = SourceWithContext::from_source(source);
  let mapped = swc.map(|s: &str| s.len());
  let values = mapped.as_source().collect_values().unwrap();
  assert_eq!(values, vec![(1, 5), (2, 5)]);
}

#[test]
fn should_filter_by_value_preserving_context() {
  let source = Source::from(vec![(1_i32, 10), (2, -5), (3, 20)]);
  let swc = SourceWithContext::from_source(source);
  let filtered = swc.filter(|v: &i32| *v > 0);
  let values = filtered.as_source().collect_values().unwrap();
  assert_eq!(values, vec![(1, 10), (3, 20)]);
}

#[test]
fn should_map_context() {
  let source = Source::from(vec![(1_i32, "a"), (2, "b")]);
  let swc = SourceWithContext::from_source(source);
  let mapped = swc.map_context(|ctx: i32| ctx * 10);
  let values = mapped.as_source().collect_values().unwrap();
  assert_eq!(values, vec![(10, "a"), (20, "b")]);
}

#[test]
fn should_compose_via() {
  let fwc = FlowWithContext::from_flow(Flow::new().map(|(ctx, s): (i32, &str)| (ctx, s.len())));
  let swc = SourceWithContext::from_source(Source::from(vec![(1_i32, "hello"), (2, "hi")]));
  let composed = swc.via(fwc);
  let values = composed.as_source().collect_values().unwrap();
  assert_eq!(values, vec![(1, 5), (2, 2)]);
}

#[test]
fn restart_flow_with_backoff_keeps_data_path_behavior() {
  let flow = RestartFlow::with_backoff(Flow::new().map(|value: u32| value + 1), 1, 3);
  let graph = Source::single(1_u32).via(flow).to_mat(Sink::head(), KeepRight);
  let completion = graph.run();
  assert_eq!(completion.poll(), Completion::Ready(Ok(2_u32)));
}

#[test]
fn restart_sink_with_backoff_keeps_data_path_behavior() {
  let sink = RestartSink::with_backoff(Sink::<u32, _, _>::ignore(), 1, 3);
  let graph = Source::single(1_u32).to_mat(sink, KeepRight);
  let completion = graph.run();
  assert_eq!(completion.poll(), Completion::Ready(Ok(StreamDone::new())));
}

#[test]
fn restart_sink_with_settings_keeps_data_path_behavior() {
  let settings = RestartSettings::new(1, 2, 3);
  let sink = RestartSink::with_settings(Sink::<u32, _, _>::ignore(), settings);
  let graph = Source::single(2_u32).to_mat(sink, KeepRight);
  let completion = graph.run();
  assert_eq!(completion.poll(), Completion::Ready(Ok(StreamDone::new())));
}

#[test]
fn distinct_flow_keeps_first_occurrences() {
  let values = Source::from_vec(vec![3_u32, 1, 2, 1, 3, 2, 4])
    .via(Flow::<u32, u32, StreamNotUsed>::new().distinct())
    .collect_values()
    .expect("collect_values");
  assert_eq!(values, vec![3_u32, 1, 2, 4]);
}

#[test]
fn distinct_by_flow_keeps_first_element_of_each_key() {
  let values = Source::from_vec(vec![(1_u32, 'a'), (2, 'b'), (3, 'a'), (4, 'c')])
    .via(Flow::<(u32, char), (u32, char), StreamNotUsed>::new().distinct_by(|pair: &(u32, char)| pair.1))
    .collect_values()
    .expect("collect_values");
  assert_eq!(values, vec![(1_u32, 'a'), (2, 'b'), (4, 'c')]);
}

#[test]
fn drop_repeated_flow_drops_consecutive_duplicates() {
  let values = Source::from_vec(vec![1_u32, 1, 2, 2, 2, 1, 3, 3])
    .via(Flow::<u32, u32, StreamNotUsed>::new().drop_repeated())
    .collect_values()
    .expect("collect_values");
  assert_eq!(values, vec![1_u32, 2, 1, 3]);
}

#[test]
fn time_based_flows_reject_zero_ticks_and_pass_elements() {
  assert!(Flow::<u32, u32, StreamNotUsed>::new().debounce(0).is_err());
  assert!(Flow::<u32, u32, StreamNotUsed>::new().sample(0).is_err());
  assert!(Flow::<u32, u32, StreamNotUsed>::new().backpressure_timeout(0).is_err());
  assert!(Flow::<u32, u32, StreamNotUsed>::new().completion_timeout(0).is_err());
  assert!(Flow::<u32, u32, StreamNotUsed>::new().idle_timeout(0).is_err());
  assert!(Flow::<u32, u32, StreamNotUsed>::new().initial_timeout(0).is_err());
  let flow = Flow::<u32, u32, StreamNotUsed>::new().debounce(1).expect("debounce").sample(1).expect("sample");
  let values = Source::single(7_u32).via(flow).collect_values().expect("collect_values");
  assert_eq!(values, vec![7_u32]);
}

#[test]
fn map_with_resource_threads_the_resource() {
  let flow = Flow::<u32, u32, StreamNotUsed>::new().map_with_resource(|| 100_u32, |total: u32, x: u32| (total + x, total + x));
  let values = Source::from_vec(vec![1_u32, 2, 3]).via(flow).collect_values().expect("collect_values");
  assert_eq!(values, vec![101_u32, 103, 106]);
}

#[test]
fn flat_map_prefix_rejects_zero_and_expands_each_element() {
  assert!(Flow::<u32, u32, StreamNotUsed>::new().flat_map_prefix(0, |v: Vec<u32>| Source::from_vec(v)).is_err());
  let flow = Flow::<u32, u32, StreamNotUsed>::new().flat_map_prefix(1, |v: Vec<u32>| Source::from_vec(vec![v[0], v[0] * 10])).expect("flow");
  let values = Source::from_vec(vec![1_u32, 2]).via(flow).collect_values().expect("collect_values");
  assert_eq!(values, vec![1_u32, 10, 2, 20]);
}

#[test]
fn as_flow_with_context_keeps_unit_context() {
  let fwc = Flow::<u32, u32, StreamNotUsed>::new().map(|x: u32| x + 1).as_flow_with_context();
  let values = Source::from_vec(vec![((), 1_u32), ((), 2)]).via(fwc.as_flow()).collect_values().expect("collect_values");
  assert_eq!(values, vec![((), 2_u32), ((), 3)]);
}

#[test]
fn from_sink_and_source_builds_an_empty_flow() {
  let flow = Flow::<u32, u32, StreamNotUsed>::from_sink_and_source(Sink::<u32, _, _>::ignore(), Source::single(1_u32));
  assert_eq!(flow.graph.stage_count(), 0);
  let coupled = Flow::<u32, u32, StreamNotUsed>::from_sink_and_source_coupled(Sink::<u32, _, _>::ignore(), Source::single(1_u32));
  assert_eq!(coupled.graph.stage_count(), 0);
  let _ = StreamError::Failed;
}
