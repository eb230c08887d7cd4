//! A CPU and memory load generator's library: the text format of its
//! single-instance PID registry, its load configuration, and the decisions
//! of its start/stop lifecycle.
pub mod registry;
pub mod config;
pub mod lifecycle;
