//! Contract types for the llingr message-processing ecosystem: the message
//! and metrics types delivered to application code, the trait-bit field, and
//! the handler traits an application implements.
//!
//! Everything is re-exported at the root, so applications write
//! `use llingr_nexus::Message` and friends.

pub mod adapter;
pub mod bandwidth;
pub mod consumer;
pub mod logger;
pub mod message;
pub mod metrics;
pub mod text;
pub mod traits;

pub use adapter::{duration_ms_ceil, Adapter, AdapterOptions, AutoOffsetReset};
pub use bandwidth::{BandwidthMetrics, BandwidthMetricsHandler, BrokerInfo, PartitionBandwidth};
pub use consumer::ShutdownHandler;
pub use logger::{LogHandler, LogLevel};
pub use message::{Header, Headers, Message, Timestamp};
pub use metrics::{Metrics, MetricsHandler};
pub use traits::Traits;
