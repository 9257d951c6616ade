//! Command materialization: the pure, stateless mapping from the
//! configured command line to the concrete program and argument vector
//! to spawn.
//!
//! Without shell mode the whole command line is passed, unsplit, as the
//! program name — a deliberate, documented limitation: a command with
//! spaces will fail to spawn. With shell mode (or when output
//! suppression implies it) the command is routed through the host's
//! shell; output suppression additionally appends the POSIX redirection
//! idiom that discards standard output while keeping standard error. On
//! a host whose shell lacks that idiom, suppression is accepted but has
//! no effect.

use crate::config::BenchConfig;
use vstd::prelude::*;
use vstd::string::StringExecFns;

verus! {

/// Which shell convention the host uses.
#[derive(Clone, Copy, Debug, PartialEq, Eq, Structural)]
pub enum Platform {
    /// A POSIX host: `sh -c <command>`, with POSIX stream redirection.
    Posix,
    /// A host with the native command shell: `cmd.exe /c <command>`,
    /// without a redirection idiom for output suppression.
    Windows,
}

/// One concrete invocation of the benchmarked command: the program to
/// spawn and its argument vector.
pub struct Invocation {
    /// The program name handed to the process-execution primitive.
    pub program: String,
    /// The argument vector; empty when the command is spawned directly.
    pub args: Vec<String>,
}

/// Whether the command is routed through a shell: when shell mode is on,
/// or implied by output suppression.
pub open spec fn uses_shell(shell_mode: bool, suppress_output: bool) -> bool {
    shell_mode || suppress_output
}

/// The host's shell program name.
pub open spec fn shell_program(platform: Platform) -> Seq<char> {
    match platform {
        Platform::Posix => "sh"@,
        Platform::Windows => "cmd.exe"@,
    }
}

/// The host shell's "run this command string" flag.
pub open spec fn shell_flag(platform: Platform) -> Seq<char> {
    match platform {
        Platform::Posix => "-c"@,
        Platform::Windows => "/c"@,
    }
}

/// The command string handed to the shell: the configured command line,
/// with the POSIX discard-stdout redirection appended when output is
/// suppressed on a POSIX host. Elsewhere suppression has no effect.
pub open spec fn shell_payload(cmd: Seq<char>, suppress_output: bool, platform: Platform) -> Seq<
    char,
> {
    if suppress_output && platform is Posix {
        cmd + " 2>&1 > /dev/null"@
    } else {
        cmd
    }
}

/// The program of the materialized invocation: the shell when one is
/// used, otherwise the whole unsplit command line.
pub open spec fn invocation_program(
    cmd: Seq<char>,
    shell_mode: bool,
    suppress_output: bool,
    platform: Platform,
) -> Seq<char> {
    if uses_shell(shell_mode, suppress_output) {
        shell_program(platform)
    } else {
        cmd
    }
}

/// The argument vector of the materialized invocation: the shell's flag
/// and the command string when a shell is used, otherwise nothing.
pub open spec fn invocation_args(
    cmd: Seq<char>,
    shell_mode: bool,
    suppress_output: bool,
    platform: Platform,
) -> Seq<Seq<char>> {
    if uses_shell(shell_mode, suppress_output) {
        seq![shell_flag(platform), shell_payload(cmd, suppress_output, platform)]
    } else {
        Seq::empty()
    }
}

/// Materializes one run request from the configuration: a pure mapping,
/// performed once per dispatched request.
pub fn materialize(config: &BenchConfig, platform: Platform) -> (r: Invocation)
    ensures
        r.program@ == invocation_program(
            config.command_line@,
            config.shell_mode,
            config.suppress_output,
            platform,
        ),
        r.args.deep_view() == invocation_args(
            config.command_line@,
            config.shell_mode,
            config.suppress_output,
            platform,
        ),
{
    let ghost gargs = invocation_args(
        config.command_line@,
        config.shell_mode,
        config.suppress_output,
        platform,
    );
    if config.shell_mode || config.suppress_output {
        let program = match platform {
            Platform::Posix => "sh".to_owned(),
            Platform::Windows => "cmd.exe".to_owned(),
        };
        let flag = match platform {
            Platform::Posix => "-c".to_owned(),
            Platform::Windows => "/c".to_owned(),
        };
        let payload = if config.suppress_output && matches!(platform, Platform::Posix) {
            config.command_line.clone().concat(" 2>&1 > /dev/null")
        } else {
            config.command_line.clone()
        };
        let mut args: Vec<String> = Vec::new();
        args.push(flag);
        args.push(payload);
        let r = Invocation { program, args };
        proof {
            assert(r.args.deep_view() =~= gargs);
        }
        r
    } else {
        let program = config.command_line.clone();
        let args: Vec<String> = Vec::new();
        let r = Invocation { program, args };
        proof {
            assert(r.args.deep_view() =~= gargs);
        }
        r
    }
}

} // verus!
