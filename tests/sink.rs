use kinesis_streams::batch::{Admission, EncodedRecord};
use kinesis_streams::classify::{DispatchOutcome, RecordError, RecordOutcome};
use kinesis_streams::config::{BatchConfig, Compression, ConfigError, KinesisSinkConfig, RequestConfig};
use kinesis_streams::delivery::RecordState;

fn config(batch: BatchConfig, request: RequestConfig) -> KinesisSinkConfig {
    KinesisSinkConfig {
        stream_name: "orders".to_string(),
        partition_key_field: Some("user".to_string()),
        region: None,
        endpoint: None,
        encoding: "json".to_string(),
        compression: Compression::Gzip,
        batch,
        request,
    }
}

fn rec(n: usize) -> EncodedRecord {
    EncodedRecord { payload: vec![3u8; n], partition_key: "k".to_string() }
}

#[test]
fn sink_batches_with_configured_bounds() {
    let batch = BatchConfig { max_events: Some(2), max_bytes: Some(100), timeout_ms: Some(50) };
    let mut sink = config(batch, RequestConfig::default()).build_sink().unwrap();
    assert_eq!(sink.plan().stream_name, "orders");
    assert!(matches!(sink.push(rec(1), 10), Admission::Held));
    assert_eq!(sink.deadline(), Some(60));
    match sink.push(rec(2), 20) {
        Admission::Closed(b) => assert_eq!(b, vec![rec(1), rec(2)]),
        other => panic!("expected a closed batch, got {:?}", other),
    }
    assert!(matches!(sink.push(rec(4), 30), Admission::Held));
    assert_eq!(sink.poll(79), None);
    assert_eq!(sink.poll(80), Some(vec![rec(4)]));
    assert_eq!(sink.flush(), None);
}

#[test]
fn sink_limits_calls_in_flight() {
    let request = RequestConfig { concurrency: Some(2), ..RequestConfig::default() };
    let mut sink = config(BatchConfig::default(), request).build_sink().unwrap();
    assert!(sink.try_start_call(0));
    assert!(sink.try_start_call(0));
    assert!(!sink.try_start_call(0));
    assert_eq!(sink.calls_in_flight(), 2);
    assert!(sink.finish_call());
    assert!(sink.try_start_call(1));
    assert_eq!(sink.calls_in_flight(), 2);
}

#[test]
fn sink_applies_rate_limit() {
    let request = RequestConfig {
        concurrency: Some(10),
        rate_limit_num: Some(1),
        rate_limit_duration_secs: Some(1),
        ..RequestConfig::default()
    };
    let mut sink = config(BatchConfig::default(), request).build_sink().unwrap();
    assert!(sink.try_start_call(0));
    assert!(!sink.try_start_call(500));
    assert!(sink.try_start_call(1000));
}

#[test]
fn sink_delivery_uses_retry_allowance() {
    let request = RequestConfig { retry_attempts: Some(1), ..RequestConfig::default() };
    let sink = config(BatchConfig::default(), request).build_sink().unwrap();
    let batch = vec![rec(1), rec(2), rec(3)];
    let mut d = sink.start_delivery(batch.len());
    let flaky = DispatchOutcome::Partial(vec![
        RecordOutcome::Failed(RecordError::InternalFailure),
        RecordOutcome::Delivered,
        RecordOutcome::Failed(RecordError::ThroughputExceeded),
    ]);
    d.record_attempt(&flaky);
    assert_eq!(d.next_records(&batch), vec![rec(1), rec(3)]);
    let again = DispatchOutcome::Partial(vec![
        RecordOutcome::Delivered,
        RecordOutcome::Failed(RecordError::InternalFailure),
    ]);
    d.record_attempt(&again);
    assert!(d.is_done());
    assert_eq!(d.record_state(0), RecordState::Delivered);
    assert_eq!(d.record_state(1), RecordState::Delivered);
    assert_eq!(d.record_state(2), RecordState::Failed(kinesis_streams::classify::FailureReason::RetriesExhausted));
}

#[test]
fn sink_refuses_bad_config() {
    let batch = BatchConfig { max_events: Some(0), ..BatchConfig::default() };
    assert_eq!(config(batch, RequestConfig::default()).build_sink().err(), Some(ConfigError::InvalidMaxEvents));
}

#[test]
fn sink_partition_keys() {
    let sink = config(BatchConfig::default(), RequestConfig::default()).build_sink().unwrap();
    assert_eq!(sink.partition_key(Some("u-1".to_string()), "rnd".to_string()), "u-1");
    assert_eq!(sink.partition_key(None, "rnd".to_string()), "rnd");
    let mut unkeyed = config(BatchConfig::default(), RequestConfig::default());
    unkeyed.partition_key_field = None;
    let sink = unkeyed.build_sink().unwrap();
    assert_eq!(sink.partition_key(Some("u-1".to_string()), "rnd".to_string()), "rnd");
}

#[test]
fn sink_oversized_record_leaves_batch() {
    let batch = BatchConfig { max_events: Some(3), max_bytes: Some(10), timeout_ms: Some(50) };
    let mut sink = config(batch, RequestConfig::default()).build_sink().unwrap();
    assert!(matches!(sink.push(rec(2), 5), Admission::Held));
    assert!(matches!(sink.push(rec(20), 6), Admission::Oversized(_)));
    assert_eq!(sink.deadline(), Some(55));
    assert_eq!(sink.flush(), Some(vec![rec(2)]));
}
