use bulx::cli::Cli;
use bulx::enforce::{
    all_rights, check_enforcement, prepare_sandbox, read_rights, write_rights, EnforcementStatus, FsRight, SandboxError,
};
use bulx::exec::{
    check_mode, classify_spawn_failure, command_not_found_message, exit_code_for, get_sandbox_config, ChildExit,
    ExitReport, RunError, SpawnFailure, COMMAND_NOT_FOUND_STATUS,
};
use bulx::policy::Policy;

#[test]
fn sandbox_plan_follows_policy() {
    let mut p = Policy::default();
    p.fs.allow_read = vec!["./".to_string(), "/usr/lib".to_string(), "/missing".to_string()];
    p.fs.allow_write = vec!["*".to_string(), "./tmp".to_string()];
    p.net.allow_ports = vec![443, 80];
    let c = prepare_sandbox(&p, &[true, true, false], &[false, false]);
    assert!(c.handle_net);
    assert_eq!(c.read_paths, vec!["./", "/usr/lib"]);
    assert_eq!(c.write_paths, vec!["/"]);
    assert_eq!(c.ports, vec![443, 80]);

    p.net.allow_ports = vec![443, 0];
    let c = prepare_sandbox(&p, &[true, true, true], &[true, true]);
    assert!(!c.handle_net);
    assert!(c.ports.is_empty());

    let empty = Policy::default();
    let c = prepare_sandbox(&empty, &[], &[]);
    assert!(c.handle_net);
    assert!(c.read_paths.is_empty() && c.write_paths.is_empty() && c.ports.is_empty());
}

#[test]
fn write_rights_are_listed() {
    let w = write_rights();
    assert_eq!(w.len(), 11);
    assert!(w.contains(&FsRight::WriteFile));
    assert!(w.contains(&FsRight::MakeSym));
    assert!(w.contains(&FsRight::Truncate));
}

#[test]
fn read_rights_are_the_rest_of_the_abi() {
    let all = all_rights();
    let w = write_rights();
    let r = read_rights();
    assert_eq!(all.len(), 15);
    assert_eq!(r, vec![FsRight::Execute, FsRight::ReadFile, FsRight::ReadDir, FsRight::Refer]);
    for x in &all {
        assert!(r.contains(x) != w.contains(x));
    }
    assert_eq!(r.len() + w.len(), all.len());
}

#[test]
fn enforcement_status_is_checked() {
    assert_eq!(check_enforcement(EnforcementStatus::FullyEnforced), Ok(()));
    assert_eq!(check_enforcement(EnforcementStatus::PartiallyEnforced), Ok(()));
    assert_eq!(check_enforcement(EnforcementStatus::NotEnforced), Err(SandboxError::NotSupported));
}

fn cli(audit: bool, enforce: bool) -> Cli {
    Cli {
        verbose: 0,
        audit,
        enforce,
        format: bulx::cli::Format::Human,
        policy: None,
        command: vec!["ls".to_string()],
    }
}

#[test]
fn modes_and_sandbox_config() {
    assert_eq!(check_mode(&cli(false, false)), Err(RunError::NoMode));
    assert_eq!(check_mode(&cli(true, false)), Ok(()));
    assert_eq!(check_mode(&cli(false, true)), Ok(()));
    let p = Policy::default();
    assert!(get_sandbox_config(&cli(true, false), Some(&p), &[], &[]).is_none());
    assert!(get_sandbox_config(&cli(false, true), None, &[], &[]).is_none());
    assert!(get_sandbox_config(&cli(false, true), Some(&p), &[], &[]).is_some());
}

#[test]
fn exit_codes() {
    assert_eq!(exit_code_for(ChildExit::Exited(0)), ExitReport { code: 0, sandbox_violation: false });
    assert_eq!(exit_code_for(ChildExit::Exited(3)), ExitReport { code: 3, sandbox_violation: false });
    assert_eq!(exit_code_for(ChildExit::Exited(257)), ExitReport { code: 1, sandbox_violation: false });
    assert_eq!(exit_code_for(ChildExit::Exited(-1)), ExitReport { code: 255, sandbox_violation: false });
    assert_eq!(exit_code_for(ChildExit::Signaled(9)), ExitReport { code: 137, sandbox_violation: false });
    assert_eq!(exit_code_for(ChildExit::Signaled(31)), ExitReport { code: 159, sandbox_violation: true });
    assert_eq!(exit_code_for(ChildExit::Signaled(200)), ExitReport { code: 72, sandbox_violation: false });
    assert_eq!(exit_code_for(ChildExit::Unknown), ExitReport { code: 1, sandbox_violation: false });
}

#[test]
fn error_messages_are_the_programs() {
    assert_eq!(RunError::NoMode.message(), "You must specify either --audit or --enforce mode.");
    assert_eq!(
        SandboxError::NotSupported.message(),
        "Landlock is not supported by your kernel. Sandbox enforcement failed."
    );
}

#[test]
fn spawn_failures_are_classified() {
    assert_eq!(classify_spawn_failure(Some(38), 38, false), SpawnFailure::SandboxUnsupported);
    assert_eq!(classify_spawn_failure(Some(38), 38, true), SpawnFailure::SandboxUnsupported);
    assert_eq!(classify_spawn_failure(Some(2), 38, true), SpawnFailure::CommandNotFound);
    assert_eq!(classify_spawn_failure(None, 38, true), SpawnFailure::CommandNotFound);
    assert_eq!(classify_spawn_failure(Some(13), 38, false), SpawnFailure::Failed);
    assert_eq!(command_not_found_message("nosuchcmd"), "bulx: command not found: nosuchcmd");
    assert_eq!(COMMAND_NOT_FOUND_STATUS, 127);
}
