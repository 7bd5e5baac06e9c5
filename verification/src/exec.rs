//! The decisions around running the command: which mode, which sandbox,
//! and which exit status to report.
use vstd::prelude::*;
use crate::cli::Cli;
use crate::enforce::{SandboxConfig, prepare_sandbox};
use crate::policy::Policy;
use crate::text::{owned, push_all};

verus! {

/// Why a run was refused before it started.
#[derive(Debug, PartialEq, Eq, Structural)]
pub enum RunError {
    /// Neither audit nor enforce mode was asked for.
    NoMode,
}

impl RunError {
    /// The message shown for the error.
    pub fn message(&self) -> (m: String)
        ensures
            m@ == "You must specify either --audit or --enforce mode."@,
    {
        owned("You must specify either --audit or --enforce mode.")
    }
}

/// A run needs audit mode or enforce mode.
pub fn check_mode(cli: &Cli) -> (r: Result<(), RunError>)
    ensures
        r == (if !cli.audit && !cli.enforce {
            Err::<(), RunError>(RunError::NoMode)
        } else {
            Ok::<(), RunError>(())
        }),
{
    if !cli.audit && !cli.enforce {
        Err(RunError::NoMode)
    } else {
        Ok(())
    }
}

/// The sandbox to put in place: the one the policy asks for, in enforce
/// mode with a policy; none otherwise.
pub fn get_sandbox_config(
    cli: &Cli,
    policy: Option<&Policy>,
    read_exists: &[bool],
    write_exists: &[bool],
) -> (c: Option<SandboxConfig>)
    requires
        policy matches Some(p) ==> read_exists@.len() == p.fs.allow_read@.len()
            && write_exists@.len() == p.fs.allow_write@.len(),
    ensures
        match c {
            Some(cfg) => cli.enforce && (policy matches Some(p) && cfg.planned_for(*p, read_exists@, write_exists@)),
            None => !cli.enforce || policy is None,
        },
{
    if cli.enforce {
        if let Some(p) = policy {
            return Some(prepare_sandbox(p, read_exists, write_exists));
        }
    }
    None
}

/// How the command ended.
#[derive(Clone, Copy, Debug, PartialEq, Eq, Structural)]
pub enum ChildExit {
    /// It exited with this status code.
    Exited(i32),
    /// It was killed by this signal.
    Signaled(i32),
    /// Neither is known.
    Unknown,
}

/// The exit status to report, and whether the end was the kernel killing
/// the command for a blocked system call.
#[derive(Clone, Copy, Debug, PartialEq, Eq, Structural)]
pub struct ExitReport {
    pub code: u8,
    pub sandbox_violation: bool,
}

/// The signal with which the kernel kills a process for a blocked system call.
pub open spec fn sigsys() -> i32 {
    31
}

/// The exit status of a run: the command's own status code, modulo 256;
/// 128 plus the signal, modulo 256, when it was killed; 1 otherwise.
pub open spec fn exit_report(status: ChildExit) -> ExitReport {
    match status {
        ChildExit::Exited(code) => ExitReport { code: (code as int % 256) as u8, sandbox_violation: false },
        ChildExit::Signaled(sig) => ExitReport {
            code: ((128 + sig as int) % 256) as u8,
            sandbox_violation: sig == sigsys(),
        },
        ChildExit::Unknown => ExitReport { code: 1, sandbox_violation: false },
    }
}

/// The low byte of a number, as a byte.
fn low_byte(v: i64) -> (r: u8)
    ensures
        r as int == v as int % 256,
{
    if v >= 0 {
        (v % 256) as u8
    } else {
        let w: i64 = -(v + 1);
        let m: i64 = w % 256;
        assert(v as int % 256 == 255 - m as int) by (nonlinear_arith)
            requires
                v < 0,
                w == -(v + 1),
                m == w % 256,
                0 <= m < 256,
        ;
        (255 - m) as u8
    }
}

/// The exit status of a run.
pub fn exit_code_for(status: ChildExit) -> (r: ExitReport)
    ensures
        r == exit_report(status),
{
    match status {
        ChildExit::Exited(code) => ExitReport { code: low_byte(code as i64), sandbox_violation: false },
        ChildExit::Signaled(sig) => ExitReport {
            code: low_byte(128 + sig as i64),
            sandbox_violation: sig == 31,
        },
        ChildExit::Unknown => ExitReport { code: 1, sandbox_violation: false },
    }
}

/// Law: a command that exits normally with a status below 256 hands that
/// status on unchanged.
pub proof fn law_exit_status_passes_through(code: i32)
    requires
        0 <= code < 256,
    ensures
        exit_report(ChildExit::Exited(code)).code == code,
        !exit_report(ChildExit::Exited(code)).sandbox_violation,
{
}

/// Law: only a kill by the sandbox's signal is reported as a sandbox violation.
pub proof fn law_violation_only_on_sigsys(status: ChildExit)
    ensures
        exit_report(status).sandbox_violation <==> status == ChildExit::Signaled(sigsys()),
{
}

/// Why the command could not be started.
#[derive(Clone, Copy, Debug, PartialEq, Eq, Structural)]
pub enum SpawnFailure {
    /// The kernel lacks the sandbox that enforce mode puts in place.
    SandboxUnsupported,
    /// No such command.
    CommandNotFound,
    /// Any other reason.
    Failed,
}

/// The exit status reported when the command does not exist.
pub const COMMAND_NOT_FOUND_STATUS: u8 = 127;

/// Classifies a failed start from its OS error number, if any, and whether
/// it was a missing file: the error `enosys` (raised when the kernel lacks
/// the sandbox) comes first, then a missing command, then anything else.
pub fn classify_spawn_failure(os_error: Option<i32>, enosys: i32, not_found: bool) -> (f: SpawnFailure)
    ensures
        f == (if os_error == Some(enosys) {
            SpawnFailure::SandboxUnsupported
        } else if not_found {
            SpawnFailure::CommandNotFound
        } else {
            SpawnFailure::Failed
        }),
{
    match os_error {
        Some(e) if e == enosys => SpawnFailure::SandboxUnsupported,
        _ => if not_found {
            SpawnFailure::CommandNotFound
        } else {
            SpawnFailure::Failed
        },
    }
}

/// The message shown when the command does not exist.
pub fn command_not_found_message(program: &str) -> (m: String)
    ensures
        m@ == "bulx: command not found: "@ + program@,
{
    let mut m = owned("bulx: command not found: ");
    push_all(&mut m, program);
    m
}

} // verus!
