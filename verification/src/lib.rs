//! Verified cores of a streaming database's services.
//!
//! The first and largest part is the durable catalog, which can live in one
//! of two backends and moves its authoritative copy between them: from a
//! transactional backend (the stash) to a log-oriented one (persist), and
//! back. The decisions of that protocol are a state machine that performs no
//! I/O ([`protocol`]); a reference in-memory backend ([`store`]) lets the
//! protocol be run ([`migrate`]) and its laws be proved ([`laws`]).
//!
//! The other parts are the decisions of services that sit at the database's
//! edges: helpers for Kafka clients ([`kafka`]), the decoding of raw records
//! ([`decode`]), the bookkeeping behind the logs of a dataflow worker
//! ([`logging`]), and the rendering of optimizer notices ([`notice`]).
pub mod decode;
pub mod direction;
pub mod error;
pub mod fence;
pub mod kafka;
pub mod laws;
pub mod logging;
pub mod migrate;
pub mod notice;
pub mod protocol;
pub mod record;
pub mod store;
pub mod table;
