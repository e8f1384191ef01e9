//! Turning the events that a dataflow worker logs into updates of the
//! collections that describe the worker: its operators and channels, how
//! long it was parked, how many messages went over each channel, and for how
//! long each operator was scheduled.
pub mod buckets;
pub mod demux;
pub mod events;
pub mod rows;
