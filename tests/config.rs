use kinesis_streams::batch::BatchSettings;
use kinesis_streams::config::{
    BatchConfig, Compression, ConfigError, KinesisDefaultBatchSettings, KinesisSinkConfig,
    RequestConfig,
};
use kinesis_streams::healthcheck::HealthcheckError;

fn sink_config(name: &str) -> KinesisSinkConfig {
    KinesisSinkConfig {
        stream_name: name.to_string(),
        partition_key_field: None,
        region: Some("us-east-1".to_string()),
        endpoint: None,
        encoding: "json".to_string(),
        compression: Compression::default(),
        batch: BatchConfig::default(),
        request: RequestConfig::default(),
    }
}

#[test]
fn generate_config() {
    let value = KinesisSinkConfig::generate_config().expect("the example parses");
    assert_eq!(value.get("stream_name").and_then(|v| v.as_str()), Some("my-stream"));
    assert_eq!(value.get("region").and_then(|v| v.as_str()), Some("us-east-1"));
    let codec = value.get("encoding").and_then(|e| e.get("codec")).and_then(|v| v.as_str());
    assert_eq!(codec, Some("json"));
}

#[test]
fn default_batch_settings() {
    let s = KinesisDefaultBatchSettings::settings();
    assert_eq!(s, BatchSettings { max_events: 500, max_bytes: 5_000_000, timeout_ms: 1000 });
    assert_eq!(BatchConfig::default().into_batcher_settings(), Ok(s));
}

#[test]
fn batch_bounds_are_validated() {
    let zero = BatchConfig { max_events: Some(0), ..BatchConfig::default() };
    assert_eq!(zero.into_batcher_settings(), Err(ConfigError::InvalidMaxEvents));
    let many = BatchConfig { max_events: Some(501), ..BatchConfig::default() };
    assert_eq!(many.into_batcher_settings(), Err(ConfigError::InvalidMaxEvents));
    let big = BatchConfig { max_bytes: Some(5_000_001), ..BatchConfig::default() };
    assert_eq!(big.into_batcher_settings(), Err(ConfigError::InvalidMaxBytes));
    let ok = BatchConfig { max_events: Some(10), max_bytes: Some(100), timeout_ms: Some(250) };
    assert_eq!(
        ok.into_batcher_settings(),
        Ok(BatchSettings { max_events: 10, max_bytes: 100, timeout_ms: 250 })
    );
}

#[test]
fn request_settings_defaults_and_errors() {
    let s = RequestConfig::default().unwrap_with_defaults().unwrap();
    assert_eq!(s.concurrency, 1);
    assert_eq!(s.rate_limit_duration_ms, 1000);
    assert_eq!(s.retry_initial_backoff_ms, 1000);
    assert_eq!(s.retry_max_duration_ms, 3_600_000);
    let zero = RequestConfig { concurrency: Some(0), ..RequestConfig::default() };
    assert_eq!(zero.unwrap_with_defaults(), Err(ConfigError::InvalidConcurrency));
    let no_rate = RequestConfig { rate_limit_num: Some(0), ..RequestConfig::default() };
    assert_eq!(no_rate.unwrap_with_defaults(), Err(ConfigError::InvalidRateLimit));
    let huge = RequestConfig { retry_max_duration_secs: Some(u64::MAX), ..RequestConfig::default() };
    assert_eq!(huge.unwrap_with_defaults().unwrap().retry_max_duration_ms, u64::MAX);
}

#[test]
fn build_reports_batch_error_first() {
    let mut c = sink_config("orders");
    c.batch.max_bytes = Some(0);
    c.request.concurrency = Some(0);
    assert_eq!(c.build().unwrap_err(), ConfigError::InvalidMaxBytes);
    c.batch.max_bytes = None;
    assert_eq!(c.build().unwrap_err(), ConfigError::InvalidConcurrency);
    c.request.concurrency = Some(4);
    let plan = c.build().unwrap();
    assert_eq!(plan.stream_name, "orders");
    assert_eq!(plan.request.concurrency, 4);
    assert_eq!(plan.batch.max_events, 500);
    assert_eq!(plan.encoding, "json");
    assert_eq!(plan.compression, Compression::Uncompressed);
}

#[test]
fn healthcheck_name_mismatch() {
    let c = sink_config("orders");
    assert_eq!(
        c.healthcheck(Ok(Some("orders-eu".to_string()))),
        Err(HealthcheckError::StreamNamesMismatch {
            name: "orders-eu".to_string(),
            stream_name: "orders".to_string()
        })
    );
}

#[test]
fn healthcheck_matching_name() {
    let c = sink_config("orders");
    assert_eq!(c.healthcheck(Ok(Some("orders".to_string()))), Ok(()));
}

#[test]
fn healthcheck_missing_name() {
    let c = sink_config("orders");
    let missing = HealthcheckError::NoMatchingStreamName { stream_name: "orders".to_string() };
    assert_eq!(c.healthcheck(Ok(None)), Err(missing.clone()));
    assert_eq!(c.healthcheck(Ok(Some(String::new()))), Err(missing));
}

#[test]
fn healthcheck_describe_failure() {
    let c = sink_config("orders");
    assert_eq!(
        c.healthcheck(Err("access denied".to_string())),
        Err(HealthcheckError::DescribeStreamFailed { message: "access denied".to_string() })
    );
}
