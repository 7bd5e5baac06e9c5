use std::collections::BTreeMap;
use std::convert::TryInto;

use bulx::enforce::SandboxConfig;
use bulx::seccomp::{
    build_seccomp_filter, filter_outcome, seccomp_allow_list, seccomp_plan, AllowedSyscall, ArgCondition, SeccompError,
    SeccompPlan, SeccompVerdict, SocketConstants, SyscallRule, SOCKET_POSITION, SOCKET_TYPE_MASK, WHOLE_WORD,
};
use seccompiler::{SeccompAction, SeccompCmpArgLen, SeccompCmpOp, SeccompCondition, SeccompFilter, SeccompRule};

fn sockets() -> SocketConstants {
    SocketConstants { af_unix: 1, af_inet: 2, af_inet6: 10, sock_stream: 1, ipproto_tcp: 6 }
}

fn config(handle_net: bool) -> SandboxConfig {
    SandboxConfig { handle_net, read_paths: vec![], write_paths: vec![], ports: vec![] }
}

/// Distinct stand-in numbers, one per listed call.
fn numbers() -> Vec<i64> {
    (0..seccomp_allow_list().len() as i64).map(|i| 1000 + i).collect()
}

fn plain(number: i64) -> SyscallRule {
    SyscallRule { number, alternatives: vec![] }
}

#[test]
fn allow_list_holds_each_call_once() {
    let list = seccomp_allow_list();
    assert_eq!(list.len(), 137);
    assert_eq!(list[0], AllowedSyscall::Read);
    assert_eq!(list[SOCKET_POSITION], AllowedSyscall::Socket);
    assert_eq!(list[136], AllowedSyscall::Syslog);
    for i in 0..list.len() {
        for j in (i + 1)..list.len() {
            assert_ne!(list[i], list[j]);
        }
    }
}

#[test]
fn open_network_allows_every_listed_call_outright() {
    let n = numbers();
    let plan = seccomp_plan(&config(false), &n, 1, &sockets());
    assert_eq!(plan.rules.len(), n.len());
    for (r, x) in plan.rules.iter().zip(n.iter()) {
        assert_eq!(r.number, *x);
        assert!(r.alternatives.is_empty());
    }
    assert_eq!(plan.mismatch, SeccompVerdict::Errno(1));
    assert_eq!(plan.matched, SeccompVerdict::Allow);
}

#[test]
fn restricted_network_guards_socket() {
    let n = numbers();
    let plan = seccomp_plan(&config(true), &n, 1, &sockets());
    assert_eq!(plan.rules.len(), n.len());
    for (i, r) in plan.rules.iter().enumerate() {
        assert_eq!(r.number, n[i]);
        assert_eq!(r.alternatives.is_empty(), i != SOCKET_POSITION);
    }
    let eq = |arg: u8, value: u64| ArgCondition { arg, mask: WHOLE_WORD, value };
    let stream = ArgCondition { arg: 1, mask: SOCKET_TYPE_MASK, value: 1 };
    assert_eq!(
        plan.rules[SOCKET_POSITION].alternatives,
        vec![
            vec![eq(0, 1)],
            vec![eq(0, 2), stream, eq(2, 0)],
            vec![eq(0, 2), stream, eq(2, 6)],
            vec![eq(0, 10), stream, eq(2, 0)],
            vec![eq(0, 10), stream, eq(2, 6)],
        ]
    );
}

fn action(v: SeccompVerdict) -> SeccompAction {
    match v {
        SeccompVerdict::Allow => SeccompAction::Allow,
        SeccompVerdict::Errno(e) => SeccompAction::Errno(e),
    }
}

fn seccompiler_program(plan: &SeccompPlan, arch: &str) -> Vec<(u16, u8, u8, u32)> {
    let mut rules: BTreeMap<i64, Vec<SeccompRule>> = BTreeMap::new();
    for g in &plan.rules {
        let mut chain = Vec::new();
        for alt in &g.alternatives {
            let mut conds = Vec::new();
            for c in alt {
                conds.push(
                    SeccompCondition::new(c.arg, SeccompCmpArgLen::Dword, SeccompCmpOp::MaskedEq(c.mask), c.value)
                        .unwrap(),
                );
            }
            chain.push(SeccompRule::new(conds).unwrap());
        }
        rules.insert(g.number, chain);
    }
    let filter =
        SeccompFilter::new(rules, action(plan.mismatch), action(plan.matched), arch.try_into().unwrap()).unwrap();
    let program: seccompiler::BpfProgram = filter.try_into().unwrap();
    program.iter().map(|i| (i.code, i.jt, i.jf, i.k)).collect()
}

#[test]
fn compiled_filter_is_seccompilers_program() {
    for restrict in [false, true] {
        let plan = seccomp_plan(&config(restrict), &numbers(), 1, &sockets());
        let program = build_seccomp_filter(&plan, "x86_64").unwrap();
        assert_eq!(program, seccompiler_program(&plan, "x86_64"));
        // The program starts by loading the architecture word of the call.
        assert_eq!(program[0], (0x20, 0, 0, 4));
        // Unlisted calls fail with the error number (SECCOMP_RET_ERRNO | 1).
        assert_eq!(program[program.len() - 1], (0x06, 0, 0, 0x0005_0001));
    }
}

#[test]
fn guarded_socket_makes_the_program_longer() {
    let open = build_seccomp_filter(&seccomp_plan(&config(false), &numbers(), 1, &sockets()), "x86_64").unwrap();
    let guarded = build_seccomp_filter(&seccomp_plan(&config(true), &numbers(), 1, &sockets()), "x86_64").unwrap();
    assert!(guarded.len() > open.len());
}

#[test]
fn unknown_architecture_is_refused() {
    let plan = seccomp_plan(&config(true), &numbers(), 1, &sockets());
    assert_eq!(build_seccomp_filter(&plan, "vax"), Err(SeccompError::ArchNotSupported));
    assert!(build_seccomp_filter(&plan, "X86_64").is_ok());
    assert_eq!(SeccompError::ArchNotSupported.message(), "failed to parse arch for seccomp");
}

#[test]
fn identical_actions_are_refused() {
    let plan = SeccompPlan { rules: vec![plain(0)], mismatch: SeccompVerdict::Allow, matched: SeccompVerdict::Allow };
    assert_eq!(build_seccomp_filter(&plan, "x86_64"), Err(SeccompError::FilterNotCreated));
    let plan =
        SeccompPlan { rules: vec![plain(0)], mismatch: SeccompVerdict::Errno(1), matched: SeccompVerdict::Errno(1) };
    assert_eq!(build_seccomp_filter(&plan, "x86_64"), Err(SeccompError::FilterNotCreated));
    let plan =
        SeccompPlan { rules: vec![plain(0)], mismatch: SeccompVerdict::Errno(1), matched: SeccompVerdict::Errno(2) };
    assert!(build_seccomp_filter(&plan, "x86_64").is_ok());
    assert_eq!(SeccompError::FilterNotCreated.message(), "failed to create seccomp filter");
}

#[test]
fn too_long_a_filter_does_not_compile() {
    let rules: Vec<SyscallRule> = (0..2000).map(plain).collect();
    let plan = SeccompPlan { rules, mismatch: SeccompVerdict::Errno(1), matched: SeccompVerdict::Allow };
    assert_eq!(build_seccomp_filter(&plan, "x86_64"), Err(SeccompError::CompileFailed));
    assert_eq!(SeccompError::CompileFailed.message(), "failed to compile seccomp filter to BPF");
}

#[test]
fn call_numbers_must_fit_in_32_bits() {
    for n in [-1i64, 1 << 32] {
        let plan = SeccompPlan { rules: vec![plain(n)], mismatch: SeccompVerdict::Errno(1), matched: SeccompVerdict::Allow };
        assert_eq!(build_seccomp_filter(&plan, "x86_64"), Err(SeccompError::InvalidNumber));
    }
    let plan =
        SeccompPlan { rules: vec![plain(0xffff_ffff)], mismatch: SeccompVerdict::Errno(1), matched: SeccompVerdict::Allow };
    assert!(build_seccomp_filter(&plan, "x86_64").is_ok());
    assert_eq!(SeccompError::InvalidNumber.message(), "invalid system call number in the seccomp filter");
}

#[test]
fn invalid_guards_are_refused_before_compiling() {
    let empty_alternative = SeccompPlan {
        rules: vec![plain(0), SyscallRule { number: 41, alternatives: vec![vec![]] }],
        mismatch: SeccompVerdict::Errno(1),
        matched: SeccompVerdict::Allow,
    };
    assert_eq!(build_seccomp_filter(&empty_alternative, "x86_64"), Err(SeccompError::InvalidGuard));
    let seventh_argument = SeccompPlan {
        rules: vec![SyscallRule {
            number: 41,
            alternatives: vec![vec![ArgCondition { arg: 6, mask: WHOLE_WORD, value: 1 }]],
        }],
        mismatch: SeccompVerdict::Errno(1),
        matched: SeccompVerdict::Allow,
    };
    assert_eq!(build_seccomp_filter(&seventh_argument, "x86_64"), Err(SeccompError::InvalidGuard));
    assert_eq!(SeccompError::InvalidGuard.message(), "invalid condition in the seccomp filter");
}

#[test]
fn filter_outcome_keeps_a_program() {
    assert_eq!(filter_outcome(Some(vec![(6, 0, 0, 0)])), Ok(vec![(6, 0, 0, 0)]));
    assert_eq!(filter_outcome(None), Err(SeccompError::CompileFailed));
}
