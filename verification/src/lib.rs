//! A command-line benchmarking core: it plans how many times to run a
//! command and how to partition those runs across a bounded worker pool,
//! accumulates per-run wall-clock durations, and produces a final summary
//! of total and average elapsed time.
//!
//! The crate holds the scheduling and accounting logic only; spawning the
//! benchmarked process, threading, and terminal output are left to the
//! surrounding program.

pub mod accumulator;
pub mod config;
pub mod invocation;
pub mod planner;
pub mod run;
