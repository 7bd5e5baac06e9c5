//! The system call filter of enforce mode: an explicit list of ordinary
//! POSIX calls is allowed and every other call fails with an error number
//! (deny by default). Calls that reach into other processes or the kernel
//! itself, such as ptrace, bpf, unshare, mount and process_vm_writev, are not
//! on the list. When the sandbox restricts the network, `socket` is allowed
//! only for local (unix) sockets and TCP stream sockets, whose ports the
//! sandbox then governs: datagram and raw sockets, and with them DNS over
//! UDP, are refused.
use vstd::prelude::*;
use seccompiler::SeccompAction::{Allow, Errno};
use seccompiler::SeccompCmpArgLen::Dword;
use seccompiler::SeccompCmpOp::MaskedEq;
use seccompiler::{BpfProgram, SeccompCondition, SeccompFilter, SeccompRule, TargetArch};
use std::collections::BTreeMap;
use crate::enforce::SandboxConfig;
use crate::policy::Policy;
use crate::text::owned;

verus! {

/// A system call that the filter lets through.
#[derive(Clone, Copy, Debug, PartialEq, Eq, Structural)]
pub enum AllowedSyscall {
    Read, Write, Open, Close, Stat, Fstat, Lstat, Poll,
    Lseek, Mmap, Mprotect, Munmap, Brk, RtSigaction, RtSigprocmask, RtSigreturn,
    Ioctl, Pread64, Pwrite64, Readv, Writev, Access, Pipe, Select,
    SchedYield, Mremap, Msync, Mincore, Madvise, Dup, Dup2, Nanosleep,
    Getpid, Socket, Connect, Accept, Sendto, Recvfrom, Sendmsg, Recvmsg,
    Shutdown, Bind, Listen, Getsockname, Getpeername, Socketpair, Setsockopt, Getsockopt,
    Clone, Fork, Vfork, Execve, Execveat, Exit, ExitGroup, Wait4,
    Kill, Uname, Fcntl, Flock, Fsync, Fdatasync, Truncate, Ftruncate,
    Getdents, Getdents64, Getcwd, Chdir, Fchdir, Rename, Mkdir, Rmdir,
    Creat, Link, Unlink, Symlink, Readlink, Chmod, Fchmod, Chown,
    Fchown, Lchown, Umask, Gettimeofday, Getrlimit, Getrusage, Sysinfo, Times,
    Getuid, Getgid, Setuid, Setgid, Geteuid, Getegid, Setpgid, Getppid,
    Getpgrp, Setsid, RtSigpending, RtSigtimedwait, RtSigqueueinfo, RtSigsuspend, Sigaltstack, Utime,
    Prctl, ArchPrctl, Getrandom, Futex, SetRobustList, GetRobustList, EpollCreate, EpollCtl,
    EpollWait, EpollCreate1, EpollPwait, Eventfd2, Pipe2, Dup3, Openat, Mkdirat,
    Mknodat, Fchownat, Futimesat, Newfstatat, Unlinkat, Renameat, Linkat, Symlinkat,
    Readlinkat, Fchmodat, Faccessat, SetTidAddress, TimerfdCreate, TimerfdSettime, TimerfdGettime, Statx,
    Syslog,
}

/// The calls that the filter lets through, in a fixed order.
pub open spec fn allow_list_spec() -> Seq<AllowedSyscall> {
    seq![
        AllowedSyscall::Read, AllowedSyscall::Write, AllowedSyscall::Open, AllowedSyscall::Close,
        AllowedSyscall::Stat, AllowedSyscall::Fstat, AllowedSyscall::Lstat, AllowedSyscall::Poll,
        AllowedSyscall::Lseek, AllowedSyscall::Mmap, AllowedSyscall::Mprotect, AllowedSyscall::Munmap,
        AllowedSyscall::Brk, AllowedSyscall::RtSigaction, AllowedSyscall::RtSigprocmask, AllowedSyscall::RtSigreturn,
        AllowedSyscall::Ioctl, AllowedSyscall::Pread64, AllowedSyscall::Pwrite64, AllowedSyscall::Readv,
        AllowedSyscall::Writev, AllowedSyscall::Access, AllowedSyscall::Pipe, AllowedSyscall::Select,
        AllowedSyscall::SchedYield, AllowedSyscall::Mremap, AllowedSyscall::Msync, AllowedSyscall::Mincore,
        AllowedSyscall::Madvise, AllowedSyscall::Dup, AllowedSyscall::Dup2, AllowedSyscall::Nanosleep,
        AllowedSyscall::Getpid, AllowedSyscall::Socket, AllowedSyscall::Connect, AllowedSyscall::Accept,
        AllowedSyscall::Sendto, AllowedSyscall::Recvfrom, AllowedSyscall::Sendmsg, AllowedSyscall::Recvmsg,
        AllowedSyscall::Shutdown, AllowedSyscall::Bind, AllowedSyscall::Listen, AllowedSyscall::Getsockname,
        AllowedSyscall::Getpeername, AllowedSyscall::Socketpair, AllowedSyscall::Setsockopt, AllowedSyscall::Getsockopt,
        AllowedSyscall::Clone, AllowedSyscall::Fork, AllowedSyscall::Vfork, AllowedSyscall::Execve,
        AllowedSyscall::Execveat, AllowedSyscall::Exit, AllowedSyscall::ExitGroup, AllowedSyscall::Wait4,
        AllowedSyscall::Kill, AllowedSyscall::Uname, AllowedSyscall::Fcntl, AllowedSyscall::Flock,
        AllowedSyscall::Fsync, AllowedSyscall::Fdatasync, AllowedSyscall::Truncate, AllowedSyscall::Ftruncate,
        AllowedSyscall::Getdents, AllowedSyscall::Getdents64, AllowedSyscall::Getcwd, AllowedSyscall::Chdir,
        AllowedSyscall::Fchdir, AllowedSyscall::Rename, AllowedSyscall::Mkdir, AllowedSyscall::Rmdir,
        AllowedSyscall::Creat, AllowedSyscall::Link, AllowedSyscall::Unlink, AllowedSyscall::Symlink,
        AllowedSyscall::Readlink, AllowedSyscall::Chmod, AllowedSyscall::Fchmod, AllowedSyscall::Chown,
        AllowedSyscall::Fchown, AllowedSyscall::Lchown, AllowedSyscall::Umask, AllowedSyscall::Gettimeofday,
        AllowedSyscall::Getrlimit, AllowedSyscall::Getrusage, AllowedSyscall::Sysinfo, AllowedSyscall::Times,
        AllowedSyscall::Getuid, AllowedSyscall::Getgid, AllowedSyscall::Setuid, AllowedSyscall::Setgid,
        AllowedSyscall::Geteuid, AllowedSyscall::Getegid, AllowedSyscall::Setpgid, AllowedSyscall::Getppid,
        AllowedSyscall::Getpgrp, AllowedSyscall::Setsid, AllowedSyscall::RtSigpending, AllowedSyscall::RtSigtimedwait,
        AllowedSyscall::RtSigqueueinfo, AllowedSyscall::RtSigsuspend, AllowedSyscall::Sigaltstack, AllowedSyscall::Utime,
        AllowedSyscall::Prctl, AllowedSyscall::ArchPrctl, AllowedSyscall::Getrandom, AllowedSyscall::Futex,
        AllowedSyscall::SetRobustList, AllowedSyscall::GetRobustList, AllowedSyscall::EpollCreate, AllowedSyscall::EpollCtl,
        AllowedSyscall::EpollWait, AllowedSyscall::EpollCreate1, AllowedSyscall::EpollPwait, AllowedSyscall::Eventfd2,
        AllowedSyscall::Pipe2, AllowedSyscall::Dup3, AllowedSyscall::Openat, AllowedSyscall::Mkdirat,
        AllowedSyscall::Mknodat, AllowedSyscall::Fchownat, AllowedSyscall::Futimesat, AllowedSyscall::Newfstatat,
        AllowedSyscall::Unlinkat, AllowedSyscall::Renameat, AllowedSyscall::Linkat, AllowedSyscall::Symlinkat,
        AllowedSyscall::Readlinkat, AllowedSyscall::Fchmodat, AllowedSyscall::Faccessat, AllowedSyscall::SetTidAddress,
        AllowedSyscall::TimerfdCreate, AllowedSyscall::TimerfdSettime, AllowedSyscall::TimerfdGettime, AllowedSyscall::Statx,
        AllowedSyscall::Syslog,
    ]
}

/// The calls that the filter lets through.
pub fn seccomp_allow_list() -> (v: Vec<AllowedSyscall>)
    ensures
        v@ == allow_list_spec(),
{
    let v = vec![
        AllowedSyscall::Read, AllowedSyscall::Write, AllowedSyscall::Open, AllowedSyscall::Close,
        AllowedSyscall::Stat, AllowedSyscall::Fstat, AllowedSyscall::Lstat, AllowedSyscall::Poll,
        AllowedSyscall::Lseek, AllowedSyscall::Mmap, AllowedSyscall::Mprotect, AllowedSyscall::Munmap,
        AllowedSyscall::Brk, AllowedSyscall::RtSigaction, AllowedSyscall::RtSigprocmask, AllowedSyscall::RtSigreturn,
        AllowedSyscall::Ioctl, AllowedSyscall::Pread64, AllowedSyscall::Pwrite64, AllowedSyscall::Readv,
        AllowedSyscall::Writev, AllowedSyscall::Access, AllowedSyscall::Pipe, AllowedSyscall::Select,
        AllowedSyscall::SchedYield, AllowedSyscall::Mremap, AllowedSyscall::Msync, AllowedSyscall::Mincore,
        AllowedSyscall::Madvise, AllowedSyscall::Dup, AllowedSyscall::Dup2, AllowedSyscall::Nanosleep,
        AllowedSyscall::Getpid, AllowedSyscall::Socket, AllowedSyscall::Connect, AllowedSyscall::Accept,
        AllowedSyscall::Sendto, AllowedSyscall::Recvfrom, AllowedSyscall::Sendmsg, AllowedSyscall::Recvmsg,
        AllowedSyscall::Shutdown, AllowedSyscall::Bind, AllowedSyscall::Listen, AllowedSyscall::Getsockname,
        AllowedSyscall::Getpeername, AllowedSyscall::Socketpair, AllowedSyscall::Setsockopt, AllowedSyscall::Getsockopt,
        AllowedSyscall::Clone, AllowedSyscall::Fork, AllowedSyscall::Vfork, AllowedSyscall::Execve,
        AllowedSyscall::Execveat, AllowedSyscall::Exit, AllowedSyscall::ExitGroup, AllowedSyscall::Wait4,
        AllowedSyscall::Kill, AllowedSyscall::Uname, AllowedSyscall::Fcntl, AllowedSyscall::Flock,
        AllowedSyscall::Fsync, AllowedSyscall::Fdatasync, AllowedSyscall::Truncate, AllowedSyscall::Ftruncate,
        AllowedSyscall::Getdents, AllowedSyscall::Getdents64, AllowedSyscall::Getcwd, AllowedSyscall::Chdir,
        AllowedSyscall::Fchdir, AllowedSyscall::Rename, AllowedSyscall::Mkdir, AllowedSyscall::Rmdir,
        AllowedSyscall::Creat, AllowedSyscall::Link, AllowedSyscall::Unlink, AllowedSyscall::Symlink,
        AllowedSyscall::Readlink, AllowedSyscall::Chmod, AllowedSyscall::Fchmod, AllowedSyscall::Chown,
        AllowedSyscall::Fchown, AllowedSyscall::Lchown, AllowedSyscall::Umask, AllowedSyscall::Gettimeofday,
        AllowedSyscall::Getrlimit, AllowedSyscall::Getrusage, AllowedSyscall::Sysinfo, AllowedSyscall::Times,
        AllowedSyscall::Getuid, AllowedSyscall::Getgid, AllowedSyscall::Setuid, AllowedSyscall::Setgid,
        AllowedSyscall::Geteuid, AllowedSyscall::Getegid, AllowedSyscall::Setpgid, AllowedSyscall::Getppid,
        AllowedSyscall::Getpgrp, AllowedSyscall::Setsid, AllowedSyscall::RtSigpending, AllowedSyscall::RtSigtimedwait,
        AllowedSyscall::RtSigqueueinfo, AllowedSyscall::RtSigsuspend, AllowedSyscall::Sigaltstack, AllowedSyscall::Utime,
        AllowedSyscall::Prctl, AllowedSyscall::ArchPrctl, AllowedSyscall::Getrandom, AllowedSyscall::Futex,
        AllowedSyscall::SetRobustList, AllowedSyscall::GetRobustList, AllowedSyscall::EpollCreate, AllowedSyscall::EpollCtl,
        AllowedSyscall::EpollWait, AllowedSyscall::EpollCreate1, AllowedSyscall::EpollPwait, AllowedSyscall::Eventfd2,
        AllowedSyscall::Pipe2, AllowedSyscall::Dup3, AllowedSyscall::Openat, AllowedSyscall::Mkdirat,
        AllowedSyscall::Mknodat, AllowedSyscall::Fchownat, AllowedSyscall::Futimesat, AllowedSyscall::Newfstatat,
        AllowedSyscall::Unlinkat, AllowedSyscall::Renameat, AllowedSyscall::Linkat, AllowedSyscall::Symlinkat,
        AllowedSyscall::Readlinkat, AllowedSyscall::Fchmodat, AllowedSyscall::Faccessat, AllowedSyscall::SetTidAddress,
        AllowedSyscall::TimerfdCreate, AllowedSyscall::TimerfdSettime, AllowedSyscall::TimerfdGettime, AllowedSyscall::Statx,
        AllowedSyscall::Syslog,
    ];
    assert(v@ =~= allow_list_spec());
    v
}

/// Where `socket` stands in the allow list.
pub const SOCKET_POSITION: usize = 33;

/// A mask that keeps a whole 32-bit argument.
pub const WHOLE_WORD: u64 = 0xffff_ffff;

/// Linux keeps a socket's type in the low four bits of the type argument;
/// the flags above them (non-blocking, close-on-exec) are masked off.
pub const SOCKET_TYPE_MASK: u64 = 0xf;

/// One comparison on an argument of a call: the low 32 bits of argument
/// `arg`, masked with `mask`, equal `value` masked with `mask`.
#[derive(Clone, Copy, Debug, PartialEq, Eq, Structural)]
pub struct ArgCondition {
    pub arg: u8,
    pub mask: u64,
    pub value: u64,
}

/// A call the filter matches: outright when it has no alternatives, else
/// when one of its alternatives holds; an alternative holds when all of its
/// conditions do.
#[derive(Debug)]
pub struct SyscallRule {
    pub number: i64,
    pub alternatives: Vec<Vec<ArgCondition>>,
}

/// What the filter does with a call.
#[derive(Clone, Copy, Debug, PartialEq, Eq, Structural)]
pub enum SeccompVerdict {
    /// Let the call through.
    Allow,
    /// Fail the call with this error number.
    Errno(u32),
}

/// The numbers that the socket conditions compare with, as the platform
/// defines them.
#[derive(Clone, Copy, Debug, PartialEq, Eq, Structural)]
pub struct SocketConstants {
    pub af_unix: u64,
    pub af_inet: u64,
    pub af_inet6: u64,
    pub sock_stream: u64,
    pub ipproto_tcp: u64,
}

/// The filter to build: its rules, what it does with a call that no rule
/// matches, and what it does with one that a rule matches.
#[derive(Debug)]
pub struct SeccompPlan {
    pub rules: Vec<SyscallRule>,
    pub mismatch: SeccompVerdict,
    pub matched: SeccompVerdict,
}

/// Argument `arg` equals `value`.
pub open spec fn arg_equals(arg: u8, value: u64) -> ArgCondition {
    ArgCondition { arg, mask: WHOLE_WORD, value }
}

/// The socket's type (argument 1) is a stream, whatever its flags.
pub open spec fn stream_type(k: SocketConstants) -> ArgCondition {
    ArgCondition { arg: 1, mask: SOCKET_TYPE_MASK, value: k.sock_stream }
}

/// A TCP socket of `family`, asked for with `protocol`.
pub open spec fn tcp_socket(family: u64, protocol: u64, k: SocketConstants) -> Seq<ArgCondition> {
    seq![arg_equals(0, family), stream_type(k), arg_equals(2, protocol)]
}

/// The sockets allowed while the network is restricted: local (unix)
/// sockets, and IPv4 or IPv6 stream sockets of the default protocol or TCP.
pub open spec fn socket_alternatives(k: SocketConstants) -> Seq<Seq<ArgCondition>> {
    seq![
        seq![arg_equals(0, k.af_unix)],
        tcp_socket(k.af_inet, 0, k),
        tcp_socket(k.af_inet, k.ipproto_tcp, k),
        tcp_socket(k.af_inet6, 0, k),
        tcp_socket(k.af_inet6, k.ipproto_tcp, k),
    ]
}

impl SyscallRule {
    /// The alternatives, each as a sequence of conditions.
    pub open spec fn alternatives_view(&self) -> Seq<Seq<ArgCondition>> {
        self.alternatives@.map_values(|a: Vec<ArgCondition>| a@)
    }
}

/// The conditions that guard the `i`-th call of the allow list.
pub open spec fn planned_alternatives(i: int, restrict_network: bool, k: SocketConstants) -> Seq<Seq<ArgCondition>> {
    if restrict_network && i == SOCKET_POSITION {
        socket_alternatives(k)
    } else {
        seq![]
    }
}

impl SeccompPlan {
    /// This plan is the filter for a sandbox that does or does not restrict
    /// the network, where `numbers[i]` is the number of the `i`-th call of
    /// the allow list: one rule per listed call, in order, each allowing its
    /// call outright, except that `socket` is guarded by
    /// `socket_alternatives` while the network is restricted; every other
    /// call fails with `errno`.
    pub open spec fn planned(&self, numbers: Seq<i64>, errno: u32, restrict_network: bool, k: SocketConstants) -> bool {
        &&& self.mismatch == SeccompVerdict::Errno(errno)
        &&& self.matched == SeccompVerdict::Allow
        &&& self.rules@.len() == numbers.len()
        &&& forall|i: int|
            0 <= i < numbers.len() ==> {
                &&& (#[trigger] self.rules@[i]).number == numbers[i]
                &&& self.rules@[i].alternatives_view() == planned_alternatives(i, restrict_network, k)
            }
    }
}

fn arg_equal(arg: u8, value: u64) -> (c: ArgCondition)
    ensures
        c == arg_equals(arg, value),
{
    ArgCondition { arg, mask: WHOLE_WORD, value }
}

fn tcp_alternative(family: u64, protocol: u64, k: &SocketConstants) -> (v: Vec<ArgCondition>)
    ensures
        v@ == tcp_socket(family, protocol, *k),
{
    let stream = ArgCondition { arg: 1, mask: SOCKET_TYPE_MASK, value: k.sock_stream };
    let v = vec![arg_equal(0, family), stream, arg_equal(2, protocol)];
    assert(v@ =~= tcp_socket(family, protocol, *k));
    v
}

/// The guard on `socket` while the network is restricted.
fn socket_guard(number: i64, k: &SocketConstants) -> (r: SyscallRule)
    ensures
        r.number == number,
        r.alternatives_view() == socket_alternatives(*k),
{
    let unix = vec![arg_equal(0, k.af_unix)];
    let inet_any = tcp_alternative(k.af_inet, 0, k);
    let inet_tcp = tcp_alternative(k.af_inet, k.ipproto_tcp, k);
    let inet6_any = tcp_alternative(k.af_inet6, 0, k);
    let inet6_tcp = tcp_alternative(k.af_inet6, k.ipproto_tcp, k);
    assert(unix@ =~= seq![arg_equals(0, k.af_unix)]);
    let alternatives = vec![unix, inet_any, inet_tcp, inet6_any, inet6_tcp];
    let r = SyscallRule { number, alternatives };
    assert(r.alternatives_view() =~= socket_alternatives(*k));
    r
}

/// Plans the filter for a sandbox: `numbers[i]` is the platform's number
/// of the `i`-th call of the allow list, and `errno` the error with which
/// every other call fails. While the sandbox restricts the network,
/// `socket` is allowed only for the sockets of `socket_alternatives`.
pub fn seccomp_plan(config: &SandboxConfig, numbers: &[i64], errno: u32, k: &SocketConstants) -> (p: SeccompPlan)
    requires
        numbers@.len() == allow_list_spec().len(),
    ensures
        p.planned(numbers@, errno, config.handle_net, *k),
{
    let mut rules: Vec<SyscallRule> = Vec::new();
    let mut i: usize = 0;
    while i < numbers.len()
        invariant
            i <= numbers@.len(),
            rules@.len() == i,
            forall|j: int|
                0 <= j < i ==> {
                    &&& (#[trigger] rules@[j]).number == numbers@[j]
                    &&& rules@[j].alternatives_view() == planned_alternatives(j, config.handle_net, *k)
                },
        decreases numbers@.len() - i,
    {
        if config.handle_net && i == SOCKET_POSITION {
            rules.push(socket_guard(numbers[i], k));
        } else {
            let r = SyscallRule { number: numbers[i], alternatives: Vec::new() };
            assert(r.alternatives_view() =~= seq![]);
            rules.push(r);
        }
        i = i + 1;
    }
    SeccompPlan { rules, mismatch: SeccompVerdict::Errno(errno), matched: SeccompVerdict::Allow }
}

/// The rules as plain values: each call's number with its alternatives,
/// each condition as (argument, mask, value).
pub open spec fn rules_model(rules: Seq<SyscallRule>) -> Seq<(i64, Seq<Seq<(u8, u64, u64)>>)> {
    rules.map_values(
        |s: SyscallRule|
            (s.number, s.alternatives_view().map_values(
                |a: Seq<ArgCondition>| a.map_values(|c: ArgCondition| (c.arg, c.mask, c.value)),
            )),
    )
}

/// A verdict as seccompiler's action: none for allowing the call, the error
/// number for failing it.
pub open spec fn verdict_code(v: SeccompVerdict) -> Option<u32> {
    match v {
        SeccompVerdict::Allow => None,
        SeccompVerdict::Errno(e) => Some(e),
    }
}

fn verdict_option(v: SeccompVerdict) -> (r: Option<u32>)
    ensures
        r == verdict_code(v),
{
    match v {
        SeccompVerdict::Allow => None,
        SeccompVerdict::Errno(e) => Some(e),
    }
}

/// A compiled program as a sequence, if there is one.
pub open spec fn program_view(r: Option<Vec<(u16, u8, u8, u32)>>) -> Option<Seq<(u16, u8, u8, u32)>> {
    match r {
        Some(v) => Some(v@),
        None => None,
    }
}

/// Whether seccompiler's `TargetArch` parses `arch`.
pub uninterp spec fn arch_parses(arch: Seq<char>) -> bool;

/// Parses the architecture with seccompiler's `TargetArch::try_from`, which
/// accepts `x86_64`, `aarch64` and `riscv64` in any case. The contract
/// claims only that the answer is `arch_parses` of the text.
#[verifier::external_body]
fn arch_supported(arch: &str) -> (r: bool)
    ensures
        r == arch_parses(arch@),
{
    TargetArch::try_from(arch).is_ok()
}

/// The BPF program, as (code, jump if true, jump if false, operand) per
/// instruction, that seccompiler builds for a filter with `rules` (a later
/// rule for the same number replaces an earlier one), the action `mismatch`
/// for a call that no rule matches and `matched` for one that a rule
/// matches (none: allow; an error number: fail with it), checking that the
/// caller runs on `arch`; none where seccompiler refuses to compile it.
pub uninterp spec fn seccomp_bpf(
    rules: Seq<(i64, Seq<Seq<(u8, u64, u64)>>)>,
    mismatch: Option<u32>,
    matched: Option<u32>,
    arch: Seq<char>,
) -> Option<Seq<(u16, u8, u8, u32)>>;

/// Every alternative of every rule has a condition, and every condition
/// names one of the six arguments of a call.
pub open spec fn guards_valid(rules: Seq<SyscallRule>) -> bool {
    forall|i: int, j: int|
        0 <= i < rules.len() && 0 <= j < rules[i].alternatives@.len() ==> {
            let a = #[trigger] rules[i].alternatives@[j]@;
            a.len() > 0 && forall|k: int| 0 <= k < a.len() ==> #[trigger] a[k].arg <= 5
        }
}

/// Every rule's call number fits in 32 unsigned bits, as BPF compares it.
pub open spec fn numbers_in_range(rules: Seq<SyscallRule>) -> bool {
    forall|i: int| 0 <= i < rules.len() ==> 0 <= #[trigger] rules[i].number <= u32::MAX
}

/// Compiles a filter with seccompiler: `SeccompCondition::new` (32-bit,
/// masked equality) and `SeccompRule::new` for the conditions,
/// `SeccompFilter::new` with the two actions and the architecture parsed
/// by `TargetArch::try_from`, then the conversion to a `BpfProgram`. The
/// `requires` rules out what would panic here: an argument index above 5 or
/// an empty alternative (the first two refuse them), identical actions
/// (`SeccompFilter::new` refuses them), an unknown architecture, and a call
/// number outside 32 unsigned bits (the conversion unwraps it). The contract
/// claims only that the result is the program that seccompiler builds from
/// these arguments (`seccomp_bpf`), or none where the conversion refuses it
/// (a program of 4096 instructions or more); the instructions themselves
/// are left unsaid.
#[verifier::external_body]
fn compile_seccomp(rules: &[SyscallRule], mismatch: Option<u32>, matched: Option<u32>, arch: &str) -> (r: Option<Vec<(u16, u8, u8, u32)>>)
    requires
        guards_valid(rules@),
        numbers_in_range(rules@),
        mismatch != matched,
        arch_parses(arch@),
    ensures
        program_view(r) == seccomp_bpf(rules_model(rules@), mismatch, matched, arch@),
{
    let rules = BTreeMap::from_iter(rules.iter().map(|r| (r.number, r.alternatives.iter().map(|a| SeccompRule::new(
        a.iter().map(|c| SeccompCondition::new(c.arg, Dword, MaskedEq(c.mask), c.value).unwrap()).collect(),
    ).unwrap()).collect())));
    let arch = arch.try_into().unwrap();
    let filter = SeccompFilter::new(rules, mismatch.map_or(Allow, Errno), matched.map_or(Allow, Errno), arch).unwrap();
    Some(BpfProgram::try_from(filter).ok()?.iter().map(|i| (i.code, i.jt, i.jf, i.k)).collect())
}
/// Whether every guard is valid.
fn check_guards(g: &[SyscallRule]) -> (r: bool)
    ensures
        r == guards_valid(g@),
{
    let mut i: usize = 0;
    while i < g.len()
        invariant
            i <= g@.len(),
            forall|i2: int, j: int|
                0 <= i2 < i && 0 <= j < g@[i2].alternatives@.len() ==> {
                    let a = #[trigger] g@[i2].alternatives@[j]@;
                    a.len() > 0 && forall|k: int| 0 <= k < a.len() ==> #[trigger] a[k].arg <= 5
                },
        decreases g@.len() - i,
    {
        let alts = &g[i].alternatives;
        let mut j: usize = 0;
        while j < alts.len()
            invariant
                i < g@.len(),
                alts@ == g@[i as int].alternatives@,
                j <= alts@.len(),
                forall|i2: int, j2: int|
                    0 <= i2 < i && 0 <= j2 < g@[i2].alternatives@.len() ==> {
                        let a = #[trigger] g@[i2].alternatives@[j2]@;
                        a.len() > 0 && forall|k: int| 0 <= k < a.len() ==> #[trigger] a[k].arg <= 5
                    },
                forall|j2: int|
                    0 <= j2 < j ==> {
                        let a = #[trigger] alts@[j2]@;
                        a.len() > 0 && forall|k: int| 0 <= k < a.len() ==> #[trigger] a[k].arg <= 5
                    },
            decreases alts@.len() - j,
        {
            let a = &alts[j];
            if a.len() == 0 {
                assert(g@[i as int].alternatives@[j as int]@.len() == 0);
                return false;
            }
            let mut k: usize = 0;
            while k < a.len()
                invariant
                    i < g@.len(),
                    j < g@[i as int].alternatives@.len(),
                    a@ == g@[i as int].alternatives@[j as int]@,
                    k <= a@.len(),
                    forall|k2: int| 0 <= k2 < k ==> #[trigger] a@[k2].arg <= 5,
                decreases a@.len() - k,
            {
                if a[k].arg > 5 {
                    assert(g@[i as int].alternatives@[j as int]@[k as int].arg > 5);
                    return false;
                }
                k = k + 1;
            }
            j = j + 1;
        }
        i = i + 1;
    }
    true
}

/// Whether every rule's call number fits in 32 unsigned bits.
fn check_numbers(rules: &[SyscallRule]) -> (r: bool)
    ensures
        r == numbers_in_range(rules@),
{
    let mut i: usize = 0;
    while i < rules.len()
        invariant
            i <= rules@.len(),
            forall|j: int| 0 <= j < i ==> 0 <= #[trigger] rules@[j].number <= u32::MAX,
        decreases rules@.len() - i,
    {
        if rules[i].number < 0 || rules[i].number > 0xffff_ffff {
            return false;
        }
        i = i + 1;
    }
    true
}

/// Why the filter could not be built.
#[derive(Debug, PartialEq, Eq, Structural)]
pub enum SeccompError {
    /// A rule has an alternative without conditions, or a condition on an
    /// argument a call does not have.
    InvalidGuard,
    /// A call number does not fit in 32 unsigned bits.
    InvalidNumber,
    /// seccompiler does not know the architecture.
    ArchNotSupported,
    /// seccompiler refuses a filter whose two actions are the same.
    FilterNotCreated,
    /// seccompiler refuses to compile the filter (it is too long).
    CompileFailed,
}

/// The message shown for a filter error.
pub open spec fn seccomp_error_message(e: SeccompError) -> Seq<char> {
    match e {
        SeccompError::InvalidGuard => "invalid condition in the seccomp filter"@,
        SeccompError::InvalidNumber => "invalid system call number in the seccomp filter"@,
        SeccompError::ArchNotSupported => "failed to parse arch for seccomp"@,
        SeccompError::FilterNotCreated => "failed to create seccomp filter"@,
        SeccompError::CompileFailed => "failed to compile seccomp filter to BPF"@,
    }
}

impl SeccompError {
    /// The message shown for the error.
    pub fn message(&self) -> (m: String)
        ensures
            m@ == seccomp_error_message(*self),
    {
        match self {
            SeccompError::InvalidGuard => owned("invalid condition in the seccomp filter"),
            SeccompError::InvalidNumber => owned("invalid system call number in the seccomp filter"),
            SeccompError::ArchNotSupported => owned("failed to parse arch for seccomp"),
            SeccompError::FilterNotCreated => owned("failed to create seccomp filter"),
            SeccompError::CompileFailed => owned("failed to compile seccomp filter to BPF"),
        }
    }
}

/// Turns the outcome of compiling into a result: a program is kept, its
/// absence is a compile error.
pub fn filter_outcome(compiled: Option<Vec<(u16, u8, u8, u32)>>) -> (r: Result<Vec<(u16, u8, u8, u32)>, SeccompError>)
    ensures
        match compiled {
            Some(v) => r matches Ok(w) && w@ == v@,
            None => r == Err::<Vec<(u16, u8, u8, u32)>, SeccompError>(SeccompError::CompileFailed),
        },
{
    match compiled {
        Some(v) => Ok(v),
        None => Err(SeccompError::CompileFailed),
    }
}

/// The error, if any, that building the filter of `plan` for `arch` meets
/// before compiling, in the order the checks are made.
pub open spec fn build_precheck(plan: SeccompPlan, arch: Seq<char>) -> Option<SeccompError> {
    if !guards_valid(plan.rules@) {
        Some(SeccompError::InvalidGuard)
    } else if !numbers_in_range(plan.rules@) {
        Some(SeccompError::InvalidNumber)
    } else if !arch_parses(arch) {
        Some(SeccompError::ArchNotSupported)
    } else if plan.mismatch == plan.matched {
        Some(SeccompError::FilterNotCreated)
    } else {
        None
    }
}

/// Builds the BPF program of a plan for the architecture `arch`: the first
/// of `build_precheck`'s errors, else the program that seccompiler
/// compiles, or a compile error where it refuses.
pub fn build_seccomp_filter(plan: &SeccompPlan, arch: &str) -> (r: Result<Vec<(u16, u8, u8, u32)>, SeccompError>)
    ensures
        match build_precheck(*plan, arch@) {
            Some(e) => r == Err::<Vec<(u16, u8, u8, u32)>, SeccompError>(e),
            None => match seccomp_bpf(rules_model(plan.rules@), verdict_code(plan.mismatch), verdict_code(plan.matched), arch@) {
                Some(prog) => r matches Ok(w) && w@ == prog,
                None => r == Err::<Vec<(u16, u8, u8, u32)>, SeccompError>(SeccompError::CompileFailed),
            },
        },
{
    if !check_guards(plan.rules.as_slice()) {
        return Err(SeccompError::InvalidGuard);
    }
    if !check_numbers(plan.rules.as_slice()) {
        return Err(SeccompError::InvalidNumber);
    }
    if !arch_supported(arch) {
        return Err(SeccompError::ArchNotSupported);
    }
    if plan.mismatch == plan.matched {
        return Err(SeccompError::FilterNotCreated);
    }
    let mismatch = verdict_option(plan.mismatch);
    let matched = verdict_option(plan.matched);
    filter_outcome(compile_seccomp(plan.rules.as_slice(), mismatch, matched, arch))
}

/// Law: a planned filter meets none of the checks before compiling but the
/// architecture, when its call numbers fit in 32 unsigned bits.
pub proof fn law_planned_filter_passes_checks(p: SeccompPlan, numbers: Seq<i64>, errno: u32, restrict: bool, k: SocketConstants, arch: Seq<char>)
    requires
        p.planned(numbers, errno, restrict, k),
        forall|i: int| 0 <= i < numbers.len() ==> 0 <= #[trigger] numbers[i] <= u32::MAX,
        arch_parses(arch),
    ensures
        build_precheck(p, arch) is None,
{
    assert forall|i: int| 0 <= i < p.rules@.len() implies 0 <= #[trigger] p.rules@[i].number <= u32::MAX by {
        assert(p.rules@[i].number == numbers[i]);
    }
    assert forall|i: int, j: int|
        0 <= i < p.rules@.len() && 0 <= j < p.rules@[i].alternatives@.len() implies {
            let a = #[trigger] p.rules@[i].alternatives@[j]@;
            a.len() > 0 && forall|m: int| 0 <= m < a.len() ==> #[trigger] a[m].arg <= 5
        } by {
        let alts = planned_alternatives(i, restrict, k);
        assert(p.rules@[i].alternatives_view() == alts);
        assert(p.rules@[i].alternatives_view().len() == p.rules@[i].alternatives@.len());
        assert(p.rules@[i].alternatives_view()[j] == p.rules@[i].alternatives@[j]@);
        assert(j < alts.len());
        assert(restrict && i == SOCKET_POSITION);
        let a = alts[j];
        if j == 0 {
            assert(a =~= seq![arg_equals(0, k.af_unix)]);
        } else if j == 1 {
            assert(a == tcp_socket(k.af_inet, 0, k));
        } else if j == 2 {
            assert(a == tcp_socket(k.af_inet, k.ipproto_tcp, k));
        } else if j == 3 {
            assert(a == tcp_socket(k.af_inet6, 0, k));
        } else {
            assert(a == tcp_socket(k.af_inet6, k.ipproto_tcp, k));
        }
    }
}

/// Law: `socket` stands at its position in the allow list and nowhere else.
pub proof fn law_socket_position()
    ensures
        allow_list_spec()[SOCKET_POSITION as int] == AllowedSyscall::Socket,
        forall|j: int|
            0 <= j < allow_list_spec().len() && j != SOCKET_POSITION ==> allow_list_spec()[j]
                != AllowedSyscall::Socket,
{
}

/// Law: while the network is restricted, every rule for `socket`'s number
/// is its guard (given distinct call numbers): `socket` is never allowed
/// outright.
pub proof fn law_restricted_network_guards_socket(p: SeccompPlan, numbers: Seq<i64>, errno: u32, k: SocketConstants)
    requires
        numbers.len() == allow_list_spec().len(),
        forall|i: int, j: int| 0 <= i < j < numbers.len() ==> numbers[i] != numbers[j],
        p.planned(numbers, errno, true, k),
    ensures
        forall|i: int|
            0 <= i < p.rules@.len() && (#[trigger] p.rules@[i]).number == numbers[SOCKET_POSITION as int]
                ==> p.rules@[i].alternatives_view() == socket_alternatives(k),
{
    assert forall|i: int|
        0 <= i < p.rules@.len() && (#[trigger] p.rules@[i]).number == numbers[SOCKET_POSITION as int]
            implies p.rules@[i].alternatives_view() == socket_alternatives(k) by {
        assert(p.rules@[i].number == numbers[i]);
        if i < SOCKET_POSITION {
            assert(numbers[i] != numbers[SOCKET_POSITION as int]);
        } else if i > SOCKET_POSITION {
            assert(numbers[SOCKET_POSITION as int] != numbers[i]);
        }
    }
}

/// Law: every listed call but `socket` is allowed outright, whether or not
/// the network is restricted; with an open network `socket` is too.
pub proof fn law_listed_calls_are_allowed(p: SeccompPlan, numbers: Seq<i64>, errno: u32, restrict: bool, k: SocketConstants, i: int)
    requires
        p.planned(numbers, errno, restrict, k),
        0 <= i < numbers.len(),
        restrict ==> i != SOCKET_POSITION,
    ensures
        p.rules@[i].number == numbers[i],
        p.rules@[i].alternatives@.len() == 0,
{
    assert(p.rules@[i].alternatives_view().len() == p.rules@[i].alternatives@.len());
}

/// Law: a policy that lists ports but not port 0 restricts the network, and
/// then the filter planned for its sandbox guards every rule for `socket`
/// (given distinct call numbers); a policy with port 0 guards no call.
pub proof fn law_port_list_guards_sockets(
    c: SandboxConfig,
    policy: Policy,
    read_exists: Seq<bool>,
    write_exists: Seq<bool>,
    p: SeccompPlan,
    numbers: Seq<i64>,
    errno: u32,
    k: SocketConstants,
)
    requires
        c.planned_for(policy, read_exists, write_exists),
        numbers.len() == allow_list_spec().len(),
        forall|i: int, j: int| 0 <= i < j < numbers.len() ==> numbers[i] != numbers[j],
        p.planned(numbers, errno, c.handle_net, k),
    ensures
        !policy.net.allow_ports@.contains(0u16) ==> forall|i: int|
            0 <= i < p.rules@.len() && (#[trigger] p.rules@[i]).number == numbers[SOCKET_POSITION as int]
                ==> p.rules@[i].alternatives_view() == socket_alternatives(k),
        policy.net.allow_ports@.contains(0u16) ==> forall|i: int|
            0 <= i < p.rules@.len() ==> (#[trigger] p.rules@[i]).alternatives@.len() == 0,
{
    if c.handle_net {
        law_restricted_network_guards_socket(p, numbers, errno, k);
    } else {
        assert forall|i: int| 0 <= i < p.rules@.len() implies (#[trigger] p.rules@[i]).alternatives@.len() == 0 by {
            law_listed_calls_are_allowed(p, numbers, errno, false, k, i);
        }
    }
}

} // verus!
