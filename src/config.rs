//! Configuration of the sink and its validation into the settings that the
//! batcher and the request control run with.
use vstd::prelude::*;
use crate::batch::BatchSettings;
use crate::healthcheck::{check_described_stream, healthcheck_spec, HealthcheckError};

verus! {

#[verifier::external_type_specification]
#[verifier::external_body]
pub struct ExTomlValue(toml::Value);

#[verifier::external_type_specification]
#[verifier::external_body]
pub struct ExTomlError(toml::de::Error);

/// Relies on `toml::from_str` to parse the example configuration, three
/// plain and dotted keys with string values, which its deserializer accepts.
/// It takes no other text: the parser has no nesting limit.
#[verifier::external_body]
fn parse_generated_config() -> (r: Result<toml::Value, toml::de::Error>)
    ensures
        r is Ok,
{
    toml::from_str(GENERATED_CONFIG)
}

/// Most records in one `PutRecords` call, and the default batch size.
pub const DEFAULT_MAX_EVENTS: usize = 500;

/// Most bytes in one `PutRecords` call, and the default batch size in bytes.
pub const DEFAULT_MAX_BYTES: usize = 5000000;

/// Default time a batch may wait for more records.
pub const DEFAULT_TIMEOUT_MS: u64 = 1000;

/// Default number of batches in flight at once: one after the other.
pub const DEFAULT_CONCURRENCY: usize = 1;

/// Default rate limit: in effect none.
pub const DEFAULT_RATE_LIMIT_NUM: u64 = 9223372036854775807;

/// Default window of the rate limit.
pub const DEFAULT_RATE_LIMIT_DURATION_SECS: u64 = 1;

/// Default number of retries: in effect unbounded.
pub const DEFAULT_RETRY_ATTEMPTS: u64 = 9223372036854775807;

/// Default delay before the first retry.
pub const DEFAULT_RETRY_INITIAL_BACKOFF_SECS: u64 = 1;

/// Default ceiling on the delay between retries: an hour.
pub const DEFAULT_RETRY_MAX_DURATION_SECS: u64 = 3600;

/// A configuration that the sink's configuration text may start from.
pub const GENERATED_CONFIG: &'static str = "region = \"us-east-1\"\nstream_name = \"my-stream\"\nencoding.codec = \"json\"";

/// Builds clients for the stream service.
pub struct KinesisClientBuilder;

/// Batch bounds of the sink when none are configured.
#[derive(Clone, Copy, Debug, Default)]
pub struct KinesisDefaultBatchSettings;

impl KinesisDefaultBatchSettings {
    pub fn settings() -> (s: BatchSettings)
        ensures
            s == (BatchSettings {
                max_events: DEFAULT_MAX_EVENTS,
                max_bytes: DEFAULT_MAX_BYTES,
                timeout_ms: DEFAULT_TIMEOUT_MS,
            }),
    {
        BatchSettings { max_events: DEFAULT_MAX_EVENTS, max_bytes: DEFAULT_MAX_BYTES, timeout_ms: DEFAULT_TIMEOUT_MS }
    }
}

/// Why a configuration was refused.
#[derive(Clone, Copy, Debug, PartialEq, Eq, Structural)]
pub enum ConfigError {
    /// `batch.max_events` is zero or above what one call takes.
    InvalidMaxEvents,
    /// `batch.max_bytes` is zero or above what one call takes.
    InvalidMaxBytes,
    /// `request.concurrency` is zero.
    InvalidConcurrency,
    /// `request.rate_limit_num` or `request.rate_limit_duration_secs` is zero.
    InvalidRateLimit,
}

/// Batch bounds as configured; unset ones take the defaults.
#[derive(Clone, Copy, Debug, Default, PartialEq, Eq, Structural)]
pub struct BatchConfig {
    pub max_events: Option<usize>,
    pub max_bytes: Option<usize>,
    pub timeout_ms: Option<u64>,
}

pub open spec fn or_default<T>(o: Option<T>, d: T) -> T {
    match o {
        Some(v) => v,
        None => d,
    }
}

pub open spec fn batch_settings_spec(c: BatchConfig) -> Result<BatchSettings, ConfigError> {
    let max_events = or_default(c.max_events, DEFAULT_MAX_EVENTS);
    let max_bytes = or_default(c.max_bytes, DEFAULT_MAX_BYTES);
    if max_events == 0 || max_events > DEFAULT_MAX_EVENTS {
        Err(ConfigError::InvalidMaxEvents)
    } else if max_bytes == 0 || max_bytes > DEFAULT_MAX_BYTES {
        Err(ConfigError::InvalidMaxBytes)
    } else {
        Ok(BatchSettings { max_events, max_bytes, timeout_ms: or_default(c.timeout_ms, DEFAULT_TIMEOUT_MS) })
    }
}

impl BatchConfig {
    /// The batch bounds to run with: defaults for what is unset, and an
    /// error for a bound that is zero or above the service's per-call limit.
    pub fn into_batcher_settings(&self) -> (r: Result<BatchSettings, ConfigError>)
        ensures
            r == batch_settings_spec(*self),
    {
        let max_events = match self.max_events {
            Some(v) => v,
            None => DEFAULT_MAX_EVENTS,
        };
        let max_bytes = match self.max_bytes {
            Some(v) => v,
            None => DEFAULT_MAX_BYTES,
        };
        let timeout_ms = match self.timeout_ms {
            Some(v) => v,
            None => DEFAULT_TIMEOUT_MS,
        };
        if max_events == 0 || max_events > DEFAULT_MAX_EVENTS {
            Err(ConfigError::InvalidMaxEvents)
        } else if max_bytes == 0 || max_bytes > DEFAULT_MAX_BYTES {
            Err(ConfigError::InvalidMaxBytes)
        } else {
            Ok(BatchSettings { max_events, max_bytes, timeout_ms })
        }
    }
}

/// Request settings as configured; unset ones take the defaults.
#[derive(Clone, Copy, Debug, Default, PartialEq, Eq, Structural)]
pub struct RequestConfig {
    pub concurrency: Option<usize>,
    pub rate_limit_num: Option<u64>,
    pub rate_limit_duration_secs: Option<u64>,
    pub retry_attempts: Option<u64>,
    pub retry_initial_backoff_secs: Option<u64>,
    pub retry_max_duration_secs: Option<u64>,
}

/// Request settings to run with; durations in milliseconds.
#[derive(Clone, Copy, Debug, PartialEq, Eq, Structural)]
pub struct RequestSettings {
    pub concurrency: usize,
    pub rate_limit_num: u64,
    pub rate_limit_duration_ms: u64,
    pub retry_attempts: u64,
    pub retry_initial_backoff_ms: u64,
    pub retry_max_duration_ms: u64,
}

/// Seconds as milliseconds, saturating at the largest `u64`.
pub open spec fn secs_to_ms(secs: u64) -> u64 {
    if secs * 1000 > u64::MAX {
        u64::MAX
    } else {
        (secs * 1000) as u64
    }
}

pub open spec fn request_settings_spec(c: RequestConfig) -> Result<RequestSettings, ConfigError> {
    let concurrency = or_default(c.concurrency, DEFAULT_CONCURRENCY);
    let num = or_default(c.rate_limit_num, DEFAULT_RATE_LIMIT_NUM);
    let duration = or_default(c.rate_limit_duration_secs, DEFAULT_RATE_LIMIT_DURATION_SECS);
    if concurrency == 0 {
        Err(ConfigError::InvalidConcurrency)
    } else if num == 0 || duration == 0 {
        Err(ConfigError::InvalidRateLimit)
    } else {
        Ok(RequestSettings {
            concurrency,
            rate_limit_num: num,
            rate_limit_duration_ms: secs_to_ms(duration),
            retry_attempts: or_default(c.retry_attempts, DEFAULT_RETRY_ATTEMPTS),
            retry_initial_backoff_ms: secs_to_ms(
                or_default(c.retry_initial_backoff_secs, DEFAULT_RETRY_INITIAL_BACKOFF_SECS),
            ),
            retry_max_duration_ms: secs_to_ms(
                or_default(c.retry_max_duration_secs, DEFAULT_RETRY_MAX_DURATION_SECS),
            ),
        })
    }
}

fn secs_to_ms_exec(secs: u64) -> (r: u64)
    ensures
        r == secs_to_ms(secs),
{
    if secs > u64::MAX / 1000 {
        u64::MAX
    } else {
        secs * 1000
    }
}

impl RequestConfig {
    /// The request settings to run with: defaults for what is unset, and an
    /// error for a zero concurrency or rate limit.
    pub fn unwrap_with_defaults(&self) -> (r: Result<RequestSettings, ConfigError>)
        ensures
            r == request_settings_spec(*self),
    {
        let concurrency = match self.concurrency {
            Some(v) => v,
            None => DEFAULT_CONCURRENCY,
        };
        let num = match self.rate_limit_num {
            Some(v) => v,
            None => DEFAULT_RATE_LIMIT_NUM,
        };
        let duration = match self.rate_limit_duration_secs {
            Some(v) => v,
            None => DEFAULT_RATE_LIMIT_DURATION_SECS,
        };
        let retry_attempts = match self.retry_attempts {
            Some(v) => v,
            None => DEFAULT_RETRY_ATTEMPTS,
        };
        let initial = match self.retry_initial_backoff_secs {
            Some(v) => v,
            None => DEFAULT_RETRY_INITIAL_BACKOFF_SECS,
        };
        let max_duration = match self.retry_max_duration_secs {
            Some(v) => v,
            None => DEFAULT_RETRY_MAX_DURATION_SECS,
        };
        if concurrency == 0 {
            Err(ConfigError::InvalidConcurrency)
        } else if num == 0 || duration == 0 {
            Err(ConfigError::InvalidRateLimit)
        } else {
            Ok(RequestSettings {
                concurrency,
                rate_limit_num: num,
                rate_limit_duration_ms: secs_to_ms_exec(duration),
                retry_attempts,
                retry_initial_backoff_ms: secs_to_ms_exec(initial),
                retry_max_duration_ms: secs_to_ms_exec(max_duration),
            })
        }
    }
}

/// Compression applied to each record's payload.
#[derive(Clone, Copy, Debug, Default, PartialEq, Eq, Structural)]
pub enum Compression {
    #[default]
    Uncompressed,
    Gzip,
    Zlib,
}

/// Configuration of the sink.
#[derive(Clone, Debug)]
pub struct KinesisSinkConfig {
    /// Name of the target stream.
    pub stream_name: String,
    /// Event field whose value is the partition key; unset, each record
    /// gets a random key.
    pub partition_key_field: Option<String>,
    pub region: Option<String>,
    pub endpoint: Option<String>,
    /// Name of the codec that serializes each event.
    pub encoding: String,
    pub compression: Compression,
    pub batch: BatchConfig,
    pub request: RequestConfig,
}

/// What the sink runs with once its configuration is validated.
#[derive(Clone, Debug)]
pub struct SinkPlan {
    pub stream_name: String,
    pub partition_key_field: Option<String>,
    pub encoding: String,
    pub compression: Compression,
    pub batch: BatchSettings,
    pub request: RequestSettings,
}

impl KinesisSinkConfig {
    /// Validates the batch and request settings; the first error found, batch
    /// first, is returned.
    pub fn build(&self) -> (r: Result<SinkPlan, ConfigError>)
        ensures
            r == match (batch_settings_spec(self.batch), request_settings_spec(self.request)) {
                (Err(e), _) => Err(e),
                (Ok(_), Err(e)) => Err(e),
                (Ok(batch), Ok(request)) => Ok(
                    SinkPlan {
                        stream_name: self.stream_name,
                        partition_key_field: self.partition_key_field,
                        encoding: self.encoding,
                        compression: self.compression,
                        batch,
                        request,
                    },
                ),
            },
    {
        let batch = match self.batch.into_batcher_settings() {
            Ok(b) => b,
            Err(e) => {
                return Err(e);
            },
        };
        let request = match self.request.unwrap_with_defaults() {
            Ok(q) => q,
            Err(e) => {
                return Err(e);
            },
        };
        Ok(SinkPlan {
            stream_name: self.stream_name.clone(),
            partition_key_field: self.partition_key_field.clone(),
            encoding: self.encoding.clone(),
            compression: self.compression,
            batch,
            request,
        })
    }

    /// Judges the reply to the describe query for the configured stream: the
    /// query's error, or the name of the stream the service described.
    pub fn healthcheck(&self, reply: Result<Option<String>, String>) -> (r: Result<(), HealthcheckError>)
        ensures
            r == healthcheck_spec(self.stream_name, reply),
    {
        check_described_stream(&self.stream_name, reply)
    }

    /// The example configuration, parsed as a TOML document.
    pub fn generate_config() -> (r: Result<toml::Value, toml::de::Error>)
        ensures
            r is Ok,
    {
        parse_generated_config()
    }
}

} // verus!
