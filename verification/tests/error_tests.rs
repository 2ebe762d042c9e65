use fraktor_streams::error::StreamError;

#[test]
fn stream_error_message_renders_numbers_in_decimal() {
  assert_eq!(StreamError::InvalidDemand { requested: 0 }.message(), "invalid demand: 0");
  assert_eq!(
    StreamError::DemandExceeded { requested: 120, remaining: 7 }.message(),
    "demand exceeded: requested=120 remaining=7"
  );
  assert_eq!(
    StreamError::SubstreamLimitExceeded { max_substreams: 4096 }.message(),
    "substream limit exceeded: max_substreams=4096"
  );
}

#[test]
fn stream_error_message_renders_negative_routes_with_a_sign() {
  assert_eq!(
    StreamError::InvalidRoute { route: -3, partition_count: 2 }.message(),
    "invalid partition route: route=-3 partition_count=2"
  );
  assert_eq!(
    StreamError::InvalidRoute { route: isize::MIN, partition_count: 1 }.message(),
    format!("invalid partition route: route={} partition_count=1", isize::MIN)
  );
}

#[test]
fn stream_error_message_names_the_variant() {
  assert_eq!(StreamError::BufferOverflow.message(), "stream buffer overflow");
  assert_eq!(StreamError::WouldBlock.message(), "stream would block");
  assert_eq!(StreamError::Failed.message(), "stream failed");
  assert_eq!(StreamError::Timeout { kind: "idle", ticks: 18446744073709551615 }.message(),
    "idle timeout after 18446744073709551615 ticks");
}
