//! The validated benchmark configuration.
//!
//! A `BenchConfig` is created once from raw flag values and then owned,
//! immutable, by the run driver for the lifetime of one invocation.

use vstd::prelude::*;

verus! {

/// Why a set of raw flag values was rejected.
#[derive(Clone, Copy, Debug, PartialEq, Eq, Structural)]
pub enum ConfigError {
    /// The iteration count was below one.
    InvalidIterations,
    /// The command line was empty.
    EmptyCommand,
    /// A worker count was given but was below two.
    InvalidWorkerCount,
}

/// The immutable configuration of one benchmark run.
#[derive(Clone, Debug)]
pub struct BenchConfig {
    /// How many runs of the command were requested; at least one.
    pub iterations: u32,
    /// The command to benchmark, as one unsplit string.
    pub command_line: String,
    /// Whether to route the command through a shell.
    pub shell_mode: bool,
    /// Whether to discard the command's standard output (implies shell).
    pub suppress_output: bool,
    /// Width of the worker pool; absent means fully sequential.
    /// When present, at least two.
    pub worker_count: Option<u32>,
}

impl BenchConfig {
    /// Well-formedness: what validation established and every later
    /// operation relies on.
    pub open spec fn valid(self) -> bool {
        &&& self.iterations >= 1
        &&& self.command_line@.len() > 0
        &&& match self.worker_count {
            Some(w) => w >= 2,
            None => true,
        }
    }

    /// Validates raw flag values. Checks the iteration count first, then
    /// the command line, then the worker count, and reports the first
    /// failure; succeeds exactly when all three constraints hold.
    pub fn new(
        iterations: u32,
        command_line: String,
        shell_mode: bool,
        suppress_output: bool,
        worker_count: Option<u32>,
    ) -> (r: Result<BenchConfig, ConfigError>)
        ensures
            r is Ok <==> (iterations >= 1 && command_line@.len() > 0 && match worker_count {
                Some(w) => w >= 2,
                None => true,
            }),
            r matches Ok(c) ==> {
                &&& c.valid()
                &&& c.iterations == iterations
                &&& c.command_line@ == command_line@
                &&& c.shell_mode == shell_mode
                &&& c.suppress_output == suppress_output
                &&& c.worker_count == worker_count
            },
            iterations < 1 ==> r === Err(ConfigError::InvalidIterations),
            iterations >= 1 && command_line@.len() == 0 ==> r === Err(ConfigError::EmptyCommand),
            (iterations >= 1 && command_line@.len() > 0 && (worker_count matches Some(w) && w
                < 2)) ==> r === Err(ConfigError::InvalidWorkerCount),
    {
        if iterations < 1 {
            return Err(ConfigError::InvalidIterations);
        }
        if command_line.as_str().is_empty() {
            return Err(ConfigError::EmptyCommand);
        }
        if let Some(w) = worker_count {
            if w < 2 {
                return Err(ConfigError::InvalidWorkerCount);
            }
        }
        Ok(
            BenchConfig {
                iterations,
                command_line,
                shell_mode,
                suppress_output,
                worker_count,
            },
        )
    }
}

} // verus!
