//! Delivery core of a sink that publishes log records to a Kinesis data stream:
//! batching, retry classification, the per-batch retry state machine, the
//! in-flight gate, rate limit and backoff, the startup healthcheck,
//! configuration, and the sink that assembles them from a validated plan.

pub mod classify;
pub mod delivery;
pub mod batch;
pub mod request;
pub mod healthcheck;
pub mod config;
pub mod sink;
