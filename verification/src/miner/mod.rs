//! The miner: configuration, job data, and the decisions of its tasks.
pub mod benchmark;
pub mod config;
pub mod messages;
pub mod session;
pub mod stats;
pub mod thread;
pub mod work;
