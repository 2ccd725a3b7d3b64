//! Verified core of a cargo tool driver: session-scoped defaults, deterministic
//! command-line assembly for `cargo test` / `cargo bench`, and classification of
//! a finished subprocess into a success or failure report.

pub mod cargo_bench;
pub mod command;
pub mod examples;
pub mod laws;
pub mod report;
pub mod session;
