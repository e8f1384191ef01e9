//! Helpers for working with Kafka clients: timeouts, client settings,
//! broker address rewriting, and the errors a client reports in its logs.
pub mod config;
pub mod decimal;
pub mod error;
pub mod partitions;
pub mod pattern;
pub mod rewrite;
pub mod text;
pub mod timeout;
