//! The startup check that the configured stream is the one the service
//! describes.
use vstd::prelude::*;

verus! {

/// Why the startup check failed.
#[derive(Clone, Debug, PartialEq, Eq)]
pub enum HealthcheckError {
    /// The describe query itself failed; carries the error's text.
    DescribeStreamFailed { message: String },
    /// The service described a stream of another name.
    StreamNamesMismatch { name: String, stream_name: String },
    /// The description named no stream at all.
    NoMatchingStreamName { stream_name: String },
}

/// Most shards the describe query asks about: only the stream's identity is
/// checked.
pub const DESCRIBE_SHARD_LIMIT: i32 = 1;

/// The verdict on the reply to the describe query for `stream_name`: the
/// query's error, or the name of the stream described, if any.
pub open spec fn healthcheck_spec(stream_name: String, reply: Result<Option<String>, String>) -> Result<(), HealthcheckError> {
    match reply {
        Err(message) => Err(HealthcheckError::DescribeStreamFailed { message }),
        Ok(None) => Err(HealthcheckError::NoMatchingStreamName { stream_name }),
        Ok(Some(name)) => if name@.len() == 0 {
            Err(HealthcheckError::NoMatchingStreamName { stream_name })
        } else if name@ == stream_name@ {
            Ok(())
        } else {
            Err(HealthcheckError::StreamNamesMismatch { name, stream_name })
        },
    }
}

/// Judges the reply to the describe query for `stream_name`.
pub fn check_described_stream(stream_name: &String, reply: Result<Option<String>, String>) -> (r: Result<(), HealthcheckError>)
    ensures
        r == healthcheck_spec(*stream_name, reply),
{
    match reply {
        Err(message) => Err(HealthcheckError::DescribeStreamFailed { message }),
        Ok(None) => Err(HealthcheckError::NoMatchingStreamName { stream_name: stream_name.clone() }),
        Ok(Some(name)) => {
            if name.as_str().unicode_len() == 0 {
                Err(HealthcheckError::NoMatchingStreamName { stream_name: stream_name.clone() })
            } else if name == *stream_name {
                Ok(())
            } else {
                Err(HealthcheckError::StreamNamesMismatch { name, stream_name: stream_name.clone() })
            }
        },
    }
}

} // verus!
