//! The tracer's decisions: what to do after each stop of a traced process,
//! which system calls are reported, and how the reported values are decoded
//! from what was read out of the traced process.
use vstd::prelude::*;
use std::collections::HashMap;
use vstd::utf8::{valid_utf8, decode_utf8};
use crate::events::Event;
use crate::text::{decimal, decimal_string, owned, push_all, string_push};

verus! {

broadcast use vstd::std_specs::hash::group_hash_axioms;

/// Puts the calling process under the tracing of its parent
/// (`nix::sys::ptrace::traceme`). Gives back the errno on failure; the
/// outcome depends on the kernel, so nothing is stated of it.
#[verifier::external_body]
fn ptrace_traceme() -> (r: Result<(), i32>) {
    match nix::sys::ptrace::traceme() {
        Ok(()) => Ok(()),
        Err(e) => Err(e as i32),
    }
}

/// Why tracing could not be set up.
#[derive(Debug, PartialEq, Eq, Structural)]
pub enum TraceError {
    /// `PTRACE_TRACEME` failed with this errno.
    TraceMe(i32),
}

impl TraceError {
    /// The message shown for the error.
    pub fn message(&self) -> (m: String)
        ensures
            m@ == "failed to set PTRACE_TRACEME"@,
    {
        crate::text::owned("failed to set PTRACE_TRACEME")
    }
}

/// The outcome of a `PTRACE_TRACEME` request, as the library reports it.
pub fn traceme_outcome(raw: Result<(), i32>) -> (r: Result<(), TraceError>)
    ensures
        match raw {
            Ok(()) => r == Ok::<(), TraceError>(()),
            Err(code) => r == Err::<(), TraceError>(TraceError::TraceMe(code)),
        },
{
    match raw {
        Ok(()) => Ok(()),
        Err(code) => Err(TraceError::TraceMe(code)),
    }
}

/// Called in the child before it executes the command: asks to be traced.
pub fn setup_child() -> (r: Result<(), TraceError>)
    ensures
        r is Ok || r matches Err(TraceError::TraceMe(_)),
{
    traceme_outcome(ptrace_traceme())
}

/// The kind of a ptrace event stop.
#[derive(Clone, Copy, Debug, PartialEq, Eq, Structural)]
pub enum PtraceEventKind {
    Fork,
    VFork,
    Clone,
    Other,
}

/// What a wait on the traced processes reported.
#[derive(Clone, Copy, Debug, PartialEq, Eq, Structural)]
pub enum WaitEvent {
    /// No traced process is left.
    NoChildren,
    /// The process exited or was killed.
    Gone(i32),
    /// The process stopped at a system call entry or exit.
    SyscallStop(i32),
    /// The process stopped at a ptrace event.
    EventStop(i32, PtraceEventKind),
    /// The process stopped on a signal, which is to be delivered.
    SignalStop(i32, i32),
    /// Anything else, including a failed wait.
    Other,
}

/// What the tracing loop does next.
#[derive(Clone, Copy, Debug, PartialEq, Eq, Structural)]
pub enum TraceAction {
    /// Stop tracing.
    Stop,
    /// Wait again without touching any process.
    Wait,
    /// Let the process run to its next system call stop.
    Resume(i32),
    /// Let the process run on, delivering the signal.
    ResumeWithSignal(i32, i32),
    /// A system call entry: read the registers of the process.
    InspectEntry(i32),
    /// A new process was created: read its id from the event.
    ReportSpawn(i32),
}

/// Follows the traced processes from stop to stop.
pub struct Tracer {
    child: i32,
    in_syscall: HashMap<i32, bool>,
}

/// The next action after a stop, and whether a system call stop of `pid`
/// is an entry.
pub open spec fn next_action(child: i32, in_syscall: Map<i32, bool>, ev: WaitEvent) -> (TraceAction, Map<i32, bool>) {
    match ev {
        WaitEvent::NoChildren => (TraceAction::Stop, in_syscall),
        WaitEvent::Gone(pid) => (
            if pid == child { TraceAction::Stop } else { TraceAction::Wait },
            in_syscall.remove(pid),
        ),
        WaitEvent::SyscallStop(pid) => {
            let entry = !(in_syscall.contains_key(pid) && in_syscall[pid]);
            (
                if entry { TraceAction::InspectEntry(pid) } else { TraceAction::Resume(pid) },
                in_syscall.insert(pid, entry),
            )
        },
        WaitEvent::EventStop(pid, kind) => (
            if kind == PtraceEventKind::Other { TraceAction::Resume(pid) } else { TraceAction::ReportSpawn(pid) },
            in_syscall,
        ),
        WaitEvent::SignalStop(pid, sig) => (TraceAction::ResumeWithSignal(pid, sig), in_syscall),
        WaitEvent::Other => (TraceAction::Wait, in_syscall),
    }
}

impl Tracer {
    /// The process that was started, whose end ends the tracing.
    pub closed spec fn child_spec(&self) -> i32 {
        self.child
    }

    /// For each traced process seen at a system call stop, whether it is
    /// inside a system call.
    pub closed spec fn in_syscall_spec(&self) -> Map<i32, bool> {
        self.in_syscall@
    }

    /// Starts following `child`, no process inside a system call.
    pub fn new(child: i32) -> (t: Tracer)
        ensures
            t.child_spec() == child,
            t.in_syscall_spec() == Map::<i32, bool>::empty(),
    {
        Tracer { child, in_syscall: HashMap::new() }
    }

    /// Whether tracing goes on after the first stop of the child: not when
    /// it is already gone.
    pub fn continues_after_first_stop(ev: WaitEvent) -> (r: bool)
        ensures
            r == !(ev is Gone),
    {
        match ev {
            WaitEvent::Gone(_) => false,
            _ => true,
        }
    }

    /// The action after a stop. A system call stop alternates between entry
    /// and exit for each process; only an entry is inspected.
    pub fn on_wait(&mut self, ev: WaitEvent) -> (a: TraceAction)
        ensures
            final(self).child_spec() == old(self).child_spec(),
            (a, final(self).in_syscall_spec()) == next_action(
                old(self).child_spec(),
                old(self).in_syscall_spec(),
                ev,
            ),
    {
        match ev {
            WaitEvent::NoChildren => TraceAction::Stop,
            WaitEvent::Gone(pid) => {
                self.in_syscall.remove(&pid);
                if pid == self.child {
                    TraceAction::Stop
                } else {
                    TraceAction::Wait
                }
            },
            WaitEvent::SyscallStop(pid) => {
                let inside = match self.in_syscall.get(&pid) {
                    Some(b) => *b,
                    None => false,
                };
                let entry = !inside;
                self.in_syscall.insert(pid, entry);
                if entry {
                    TraceAction::InspectEntry(pid)
                } else {
                    TraceAction::Resume(pid)
                }
            },
            WaitEvent::EventStop(pid, kind) => {
                if kind == PtraceEventKind::Other {
                    TraceAction::Resume(pid)
                } else {
                    TraceAction::ReportSpawn(pid)
                }
            },
            WaitEvent::SignalStop(pid, sig) => TraceAction::ResumeWithSignal(pid, sig),
            WaitEvent::Other => TraceAction::Wait,
        }
    }

    /// After an inspected entry: tracing stops when the registers could not
    /// be read, and the process runs on otherwise.
    pub fn after_inspect(pid: i32, registers_read: bool) -> (a: TraceAction)
        ensures
            a == (if registers_read { TraceAction::Resume(pid) } else { TraceAction::Stop }),
    {
        if registers_read {
            TraceAction::Resume(pid)
        } else {
            TraceAction::Stop
        }
    }
}

/// Law: two system call stops of the same process in a row are an entry
/// and then an exit, whatever was known of the process before.
pub proof fn law_syscall_stops_alternate(child: i32, in_syscall: Map<i32, bool>, pid: i32)
    ensures
        ({
            let (a1, m1) = next_action(child, in_syscall, WaitEvent::SyscallStop(pid));
            let (a2, m2) = next_action(child, m1, WaitEvent::SyscallStop(pid));
            a1 == TraceAction::InspectEntry(pid) || a2 == TraceAction::InspectEntry(pid)
        }),
        ({
            let (a1, m1) = next_action(child, in_syscall, WaitEvent::SyscallStop(pid));
            let (a2, m2) = next_action(child, m1, WaitEvent::SyscallStop(pid));
            a1 != a2
        }),
{
}

/// Law: a process seen for the first time at a system call stop is at an
/// entry; after it is gone, it is seen afresh.
pub proof fn law_gone_process_starts_afresh(child: i32, in_syscall: Map<i32, bool>, pid: i32)
    ensures
        ({
            let (_, m1) = next_action(child, in_syscall, WaitEvent::Gone(pid));
            next_action(child, m1, WaitEvent::SyscallStop(pid)).0 == TraceAction::InspectEntry(pid)
        }),
{
}

/// The system call numbers and constants of the platform that the tracer
/// needs.
#[derive(Clone, Copy, Debug)]
pub struct SyscallNumbers {
    pub openat: i64,
    pub unlinkat: i64,
    pub connect: i64,
    pub bind: i64,
    pub execve: i64,
    pub execveat: i64,
    /// The directory descriptor that stands for the current directory.
    pub at_fdcwd: i32,
    pub af_inet: u16,
    pub af_inet6: u16,
}

/// What must be read out of a process at a system call entry.
#[derive(Clone, Copy, Debug, PartialEq, Eq, Structural)]
pub enum SyscallRead {
    /// A path opened relative to a directory descriptor.
    OpenPath { dirfd: i32, ptr: u64 },
    /// A path removed relative to a directory descriptor.
    UnlinkPath { dirfd: i32, ptr: u64 },
    /// A socket address that is connected or bound.
    Sockaddr { ptr: u64 },
    /// A program that is executed.
    ExecPath { dirfd: i32, ptr: u64 },
    /// A system call that is not reported.
    Ignore,
}

/// Which system calls are reported, and where their arguments are: the
/// first argument register `arg0`, the second `arg1`.
pub open spec fn syscall_read(nums: SyscallNumbers, sys_no: i64, arg0: u64, arg1: u64) -> SyscallRead {
    if sys_no == nums.openat {
        SyscallRead::OpenPath { dirfd: arg0 as i32, ptr: arg1 }
    } else if sys_no == nums.unlinkat {
        SyscallRead::UnlinkPath { dirfd: arg0 as i32, ptr: arg1 }
    } else if sys_no == nums.connect || sys_no == nums.bind {
        SyscallRead::Sockaddr { ptr: arg1 }
    } else if sys_no == nums.execve {
        SyscallRead::ExecPath { dirfd: nums.at_fdcwd, ptr: arg0 }
    } else if sys_no == nums.execveat {
        SyscallRead::ExecPath { dirfd: arg0 as i32, ptr: arg1 }
    } else {
        SyscallRead::Ignore
    }
}

/// Classifies a system call entry.
pub fn classify_syscall(nums: &SyscallNumbers, sys_no: i64, arg0: u64, arg1: u64) -> (r: SyscallRead)
    ensures
        r == syscall_read(*nums, sys_no, arg0, arg1),
{
    if sys_no == nums.openat {
        SyscallRead::OpenPath { dirfd: arg0 as i32, ptr: arg1 }
    } else if sys_no == nums.unlinkat {
        SyscallRead::UnlinkPath { dirfd: arg0 as i32, ptr: arg1 }
    } else if sys_no == nums.connect || sys_no == nums.bind {
        SyscallRead::Sockaddr { ptr: arg1 }
    } else if sys_no == nums.execve {
        SyscallRead::ExecPath { dirfd: nums.at_fdcwd, ptr: arg0 }
    } else if sys_no == nums.execveat {
        SyscallRead::ExecPath { dirfd: arg0 as i32, ptr: arg1 }
    } else {
        SyscallRead::Ignore
    }
}

/// The bytes of a C string read out of a process: those before the first
/// NUL among the bytes read, or all of them.
pub open spec fn c_string_prefix(read: Seq<u8>) -> Seq<u8> {
    if exists|i: int| 0 <= i < read.len() && read[i] == 0u8 {
        let k = choose|i: int| 0 <= i < read.len() && read[i] == 0u8 && forall|j: int| 0 <= j < i ==> read[j] != 0u8;
        read.subrange(0, k)
    } else {
        read
    }
}

/// Decodes UTF-8 (std's `String::from_utf8`): a string exactly when the
/// bytes are valid UTF-8.
#[verifier::external_body]
fn utf8_string(bytes: Vec<u8>) -> (r: Option<String>)
    ensures
        match r {
            Some(s) => valid_utf8(bytes@) && s@ == decode_utf8(bytes@),
            None => !valid_utf8(bytes@),
        },
{
    match String::from_utf8(bytes) {
        Ok(s) => Some(s),
        Err(_) => None,
    }
}

/// The string that a process holds at the address that was read: the bytes
/// up to the first NUL among the `read_bytes` bytes read, decoded as UTF-8;
/// none when they are not valid UTF-8.
pub fn c_string_from_read(buf: &[u8], read_bytes: usize) -> (r: Option<String>)
    requires
        read_bytes <= buf@.len(),
    ensures
        match r {
            Some(s) => valid_utf8(c_string_prefix(buf@.subrange(0, read_bytes as int)))
                && s@ == decode_utf8(c_string_prefix(buf@.subrange(0, read_bytes as int))),
            None => !valid_utf8(c_string_prefix(buf@.subrange(0, read_bytes as int))),
        },
{
    let ghost read = buf@.subrange(0, read_bytes as int);
    let mut bytes: Vec<u8> = Vec::new();
    let mut i: usize = 0;
    while i < read_bytes && buf[i] != 0
        invariant
            read_bytes <= buf@.len(),
            read == buf@.subrange(0, read_bytes as int),
            i <= read_bytes,
            bytes@ == read.subrange(0, i as int),
            forall|j: int| 0 <= j < i ==> read[j] != 0u8,
        decreases read_bytes - i,
    {
        bytes.push(buf[i]);
        i = i + 1;
        assert(bytes@ =~= read.subrange(0, i as int));
    }
    assert(bytes@ == c_string_prefix(read)) by {
        if i < read_bytes {
            assert(read[i as int] == 0u8);
            let k = choose|k: int| 0 <= k < read.len() && read[k] == 0u8 && forall|j: int| 0 <= j < k ==> read[j] != 0u8;
            assert(k == i);
        } else {
            assert(read.subrange(0, i as int) =~= read);
        }
    }
    utf8_string(bytes)
}

/// A path read out of a process needs the directory it is relative to
/// unless it is absolute.
pub fn needs_base(raw: &str) -> (r: bool)
    ensures
        r == !(raw@.len() > 0 && raw@[0] == '/'),
{
    let n = raw.unicode_len();
    !(n > 0 && raw.get_char(0) == '/')
}

/// The `/proc` link that names the directory a path is relative to: the
/// working directory of the process, or the directory open as `dirfd`.
pub open spec fn base_link(pid: i32, dirfd: i32, at_fdcwd: i32) -> Seq<char> {
    if dirfd == at_fdcwd {
        "/proc/"@ + signed_decimal(pid as int) + "/cwd"@
    } else {
        "/proc/"@ + signed_decimal(pid as int) + "/fd/"@ + signed_decimal(dirfd as int)
    }
}

/// The decimal text of an integer, with a minus sign when negative.
pub open spec fn signed_decimal(n: int) -> Seq<char> {
    if n < 0 {
        seq!['-'] + decimal((-n) as nat)
    } else {
        decimal(n as nat)
    }
}

/// The decimal text of an `i32`.
pub fn i32_string(n: i32) -> (s: String)
    ensures
        s@ == signed_decimal(n as int),
{
    if n < 0 {
        let m: u64 = if n == i32::MIN { 2147483648u64 } else { (-n) as u64 };
        assert(m as int == -(n as int));
        proof {
            reveal_strlit("-");
        }
        let mut s = owned("-");
        let digits = decimal_string(m);
        push_all(&mut s, digits.as_str());
        assert(s@ =~= seq!['-'] + decimal((-(n as int)) as nat));
        s
    } else {
        decimal_string(n as u64)
    }
}

/// The `/proc` link to read for the directory of a relative path.
pub fn base_link_path(pid: i32, dirfd: i32, at_fdcwd: i32) -> (s: String)
    ensures
        s@ == base_link(pid, dirfd, at_fdcwd),
{
    let mut s = owned("/proc/");
    let p = i32_string(pid);
    push_all(&mut s, p.as_str());
    if dirfd == at_fdcwd {
        push_all(&mut s, "/cwd");
    } else {
        push_all(&mut s, "/fd/");
        let d = i32_string(dirfd);
        push_all(&mut s, d.as_str());
    }
    s
}

/// The full path of a path read out of a process: an absolute path as it
/// is; a relative one joined onto its base directory (the root when the
/// base could not be read), with a separator unless the base ends in one.
pub open spec fn resolved_path(raw: Seq<char>, base: Option<Seq<char>>) -> Seq<char> {
    if raw.len() > 0 && raw[0] == '/' {
        raw
    } else {
        let b = match base {
            Some(b) => b,
            None => seq!['/'],
        };
        if b.len() > 0 && b[b.len() - 1] != '/' {
            b + seq!['/'] + raw
        } else {
            b + raw
        }
    }
}

/// Resolves a path read out of a process against its base directory.
pub fn resolve_at_path(raw: &str, base: Option<&str>) -> (s: String)
    ensures
        s@ == resolved_path(raw@, match base { Some(b) => Some(b@), None => None }),
{
    if !needs_base(raw) {
        return owned(raw);
    }
    proof {
        reveal_strlit("/");
    }
    let mut s = match base {
        Some(b) => owned(b),
        None => owned("/"),
    };
    let n = s.as_str().unicode_len();
    if n > 0 && s.as_str().get_char(n - 1) != '/' {
        string_push(&mut s, '/');
    }
    push_all(&mut s, raw);
    assert(s@ =~= resolved_path(raw@, match base { Some(b) => Some(b@), None => None }));
    s
}

/// The event reported for a path read at a system call entry.
pub open spec fn path_event_matches(read: SyscallRead, path: Seq<char>, e: Option<Event>) -> bool {
    match read {
        SyscallRead::OpenPath { .. } => e matches Some(Event::FileOpen { path: p, mode })
            && p@ == path && mode@ == "read/write"@,
        SyscallRead::UnlinkPath { .. } => e matches Some(Event::FileDelete { path: p }) && p@ == path,
        SyscallRead::ExecPath { .. } => e matches Some(Event::ProcessExec { binary }) && binary@ == path,
        _ => e is None,
    }
}

/// The event for a path read at a system call entry: an open is reported as
/// a read/write open, an unlink as a delete, an exec as an exec.
pub fn path_event(read: SyscallRead, path: String) -> (e: Option<Event>)
    ensures
        path_event_matches(read, path@, e),
{
    match read {
        SyscallRead::OpenPath { .. } => Some(Event::FileOpen { path, mode: owned("read/write") }),
        SyscallRead::UnlinkPath { .. } => Some(Event::FileDelete { path }),
        SyscallRead::ExecPath { .. } => Some(Event::ProcessExec { binary: path }),
        _ => None,
    }
}

/// The event for a socket address that is connected or bound.
pub fn connect_event(addr: String, port: u16) -> (e: Event)
    ensures
        e matches Event::NetConnect { addr: a, port: p } && a@ == addr@ && p == port,
{
    Event::NetConnect { addr, port }
}

/// The event for a new process, named by its id.
pub fn spawn_event(new_pid: i32) -> (e: Event)
    ensures
        e matches Event::ProcessSpawn { binary, args } && binary@ == "<pid:"@ + signed_decimal(new_pid as int) + ">"@
            && args@.len() == 0,
{
    let mut binary = owned("<pid:");
    let p = i32_string(new_pid);
    push_all(&mut binary, p.as_str());
    push_all(&mut binary, ">");
    Event::ProcessSpawn { binary, args: Vec::new() }
}

/// The dotted text of an IPv4 address.
pub open spec fn ipv4_text(a: u8, b: u8, c: u8, d: u8) -> Seq<char> {
    decimal(a as nat) + seq!['.'] + decimal(b as nat) + seq!['.'] + decimal(c as nat) + seq!['.'] + decimal(d as nat)
}

/// The host of a socket address: the dotted text of an IPv4 address, or the
/// sixteen bytes of an IPv6 address.
#[derive(Debug)]
pub enum SockaddrHost {
    V4(String),
    V6([u8; 16]),
}

/// The abstract host of a socket address.
pub enum HostModel {
    V4(Seq<char>),
    V6(Seq<u8>),
}

impl SockaddrHost {
    pub open spec fn model(&self) -> HostModel {
        match self {
            SockaddrHost::V4(s) => HostModel::V4(s@),
            SockaddrHost::V6(o) => HostModel::V6(o@),
        }
    }
}

/// A decoded socket address: the host and the port.
pub open spec fn sockaddr_endpoint(
    nums: SyscallNumbers,
    family: u16,
    head: Seq<u8>,
    tail: Seq<u8>,
) -> Option<(HostModel, u16)> {
    let port = (head[2] as int * 256 + head[3] as int) as u16;
    if family == nums.af_inet {
        Some((HostModel::V4(ipv4_text(head[4], head[5], head[6], head[7])), port))
    } else if family == nums.af_inet6 {
        Some((HostModel::V6(head.subrange(8, 16) + tail), port))
    } else {
        None
    }
}

/// Whether the address family needs the next eight bytes of the socket
/// address too.
pub fn sockaddr_needs_tail(nums: &SyscallNumbers, family: u16) -> (r: bool)
    ensures
        r == (family != nums.af_inet && family == nums.af_inet6),
{
    family != nums.af_inet && family == nums.af_inet6
}

/// Decodes a socket address from its first sixteen bytes (`head`), its
/// family as read in native byte order, and for IPv6 the next eight bytes
/// (`tail`): the port is big-endian in bytes 2 and 3, an IPv4 address in
/// bytes 4 to 7, an IPv6 address in bytes 8 to 23.
pub fn decode_sockaddr(nums: &SyscallNumbers, family: u16, head: &[u8], tail: &[u8]) -> (r: Option<(SockaddrHost, u16)>)
    requires
        head@.len() == 16,
        tail@.len() == 8,
    ensures
        match (r, sockaddr_endpoint(*nums, family, head@, tail@)) {
            (Some((host, port)), Some((h, p))) => host.model() == h && port == p,
            (None, None) => true,
            _ => false,
        },
{
    let port: u16 = (head[2] as u16) * 256 + (head[3] as u16);
    if family == nums.af_inet {
        let mut host = decimal_string(head[4] as u64);
        string_push(&mut host, '.');
        let b = decimal_string(head[5] as u64);
        push_all(&mut host, b.as_str());
        string_push(&mut host, '.');
        let c = decimal_string(head[6] as u64);
        push_all(&mut host, c.as_str());
        string_push(&mut host, '.');
        let d = decimal_string(head[7] as u64);
        push_all(&mut host, d.as_str());
        assert(host@ =~= ipv4_text(head@[4], head@[5], head@[6], head@[7]));
        Some((SockaddrHost::V4(host), port))
    } else if family == nums.af_inet6 {
        let octets: [u8; 16] = [
            head[8], head[9], head[10], head[11], head[12], head[13], head[14], head[15],
            tail[0], tail[1], tail[2], tail[3], tail[4], tail[5], tail[6], tail[7],
        ];
        assert(octets@ =~= head@.subrange(8, 16) + tail@);
        Some((SockaddrHost::V6(octets), port))
    } else {
        None
    }
}

/// Law: every fork, vfork or clone stop reports the process as a spawn, and
/// leaves the system call record as it was; any other event stop resumes it.
pub proof fn law_every_spawn_is_reported(child: i32, in_syscall: Map<i32, bool>, pid: i32, kind: PtraceEventKind)
    ensures
        (kind == PtraceEventKind::Fork || kind == PtraceEventKind::VFork || kind == PtraceEventKind::Clone)
            ==> next_action(child, in_syscall, WaitEvent::EventStop(pid, kind)) == (TraceAction::ReportSpawn(pid), in_syscall),
        kind == PtraceEventKind::Other ==> next_action(child, in_syscall, WaitEvent::EventStop(pid, kind)) == (
            TraceAction::Resume(pid),
            in_syscall,
        ),
{
}

} // verus!
