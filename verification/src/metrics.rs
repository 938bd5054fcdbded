//! Per-message metrics and the handler that receives them.

use vstd::prelude::*;

use crate::traits::Traits;

verus! {

/// Per-message metrics collected by the processing pipeline.
///
/// Timestamps are Unix epoch nanoseconds; durations are elapsed nanoseconds.
/// Unlike [`Message`](crate::Message), `Metrics` is `Copy` and may be kept
/// beyond the callback.
#[derive(Debug, Clone, Copy, PartialEq, Eq)]
pub struct Metrics {
    /// Combined framework + application trait bits.
    pub traits: Traits,
    /// Number of messages queued for the worker serving this key.
    pub queue_depth: i32,
    /// Kafka partition.
    pub partition: i32,
    /// Offset within the partition.
    pub offset: i64,
    /// Time spent in the process callback (nanoseconds).
    pub process_duration_ns: i64,
    /// Time spent in the dead-letter callback (nanoseconds, zero if no error).
    pub deadletter_duration_ns: i64,
    /// Unix epoch nanoseconds when the message was read from the broker.
    pub read_time_ns: i64,
    /// Unix epoch nanoseconds when processing started.
    pub process_start_time_ns: i64,
    /// Unix epoch nanoseconds when the offset watermark advanced.
    pub watermark_advance_time_ns: i64,
}

/// Optional handler receiving per-message metrics from the pipeline.
///
/// Called once per message: implementations must be fast and non-blocking.
/// No per-call identity (topic, consumer group, service) accompanies the
/// packet: a consumer serves exactly one topic and group, so that identity is
/// static and already known.
pub trait MetricsHandler: Send + Sync + 'static {
    /// Receive one message's metrics packet.
    fn handle(&self, metrics: &Metrics);
}

} // verus!
