//! Benchmark-orchestration engine for distributed consensus testbeds.
//!
//! The crate decides what a benchmark campaign does: which load to probe
//! next (fixed schedules and adaptive breaking-point search), how scraped
//! metrics aggregate into end-to-end statistics, which shell and SSH
//! commands drive a fleet, and how a finished run is persisted. The
//! transports themselves (HTTP, SSH processes, container runtimes) live
//! outside the crate and receive fully-formed commands and payloads.

pub mod benchmark;
pub mod bridge;
pub mod error;
pub mod faults;
pub mod instance;
pub mod loadgen;
pub mod local;
pub mod measurement;
pub mod mysticeti;
pub mod num;
pub mod protocol;
pub mod remote;
pub mod result;
pub mod runner;
pub mod settings;
pub mod ssh;

