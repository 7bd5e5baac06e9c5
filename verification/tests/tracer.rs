use bulx::events::Event;
use bulx::tracer::{
    c_string_from_read, classify_syscall, connect_event, decode_sockaddr, base_link_path, path_event,
    resolve_at_path, setup_child, spawn_event, traceme_outcome, needs_base, PtraceEventKind, SockaddrHost,
    SyscallNumbers, SyscallRead, TraceAction, TraceError, Tracer, WaitEvent,
};

fn nums() -> SyscallNumbers {
    SyscallNumbers {
        openat: 257,
        unlinkat: 263,
        connect: 42,
        bind: 49,
        execve: 59,
        execveat: 322,
        at_fdcwd: -100,
        af_inet: 2,
        af_inet6: 10,
    }
}

#[test]
fn syscall_stops_alternate_per_process() {
    let mut t = Tracer::new(100);
    assert_eq!(t.on_wait(WaitEvent::SyscallStop(100)), TraceAction::InspectEntry(100));
    assert_eq!(t.on_wait(WaitEvent::SyscallStop(101)), TraceAction::InspectEntry(101));
    assert_eq!(t.on_wait(WaitEvent::SyscallStop(100)), TraceAction::Resume(100));
    assert_eq!(t.on_wait(WaitEvent::SyscallStop(100)), TraceAction::InspectEntry(100));
    assert_eq!(t.on_wait(WaitEvent::Gone(101)), TraceAction::Wait);
    assert_eq!(t.on_wait(WaitEvent::SyscallStop(101)), TraceAction::InspectEntry(101));
    assert_eq!(t.on_wait(WaitEvent::EventStop(100, PtraceEventKind::Fork)), TraceAction::ReportSpawn(100));
    assert_eq!(t.on_wait(WaitEvent::EventStop(100, PtraceEventKind::Other)), TraceAction::Resume(100));
    assert_eq!(t.on_wait(WaitEvent::SignalStop(101, 15)), TraceAction::ResumeWithSignal(101, 15));
    assert_eq!(t.on_wait(WaitEvent::Other), TraceAction::Wait);
    assert_eq!(t.on_wait(WaitEvent::Gone(100)), TraceAction::Stop);
    assert_eq!(t.on_wait(WaitEvent::NoChildren), TraceAction::Stop);
    assert!(!Tracer::continues_after_first_stop(WaitEvent::Gone(100)));
    assert!(Tracer::continues_after_first_stop(WaitEvent::SignalStop(100, 5)));
    assert_eq!(Tracer::after_inspect(7, false), TraceAction::Stop);
    assert_eq!(Tracer::after_inspect(7, true), TraceAction::Resume(7));
}

#[test]
fn syscalls_are_classified() {
    let n = nums();
    assert_eq!(classify_syscall(&n, 257, 5, 0x1000), SyscallRead::OpenPath { dirfd: 5, ptr: 0x1000 });
    assert_eq!(classify_syscall(&n, 263, u64::MAX, 8), SyscallRead::UnlinkPath { dirfd: -1, ptr: 8 });
    assert_eq!(classify_syscall(&n, 42, 3, 9), SyscallRead::Sockaddr { ptr: 9 });
    assert_eq!(classify_syscall(&n, 49, 3, 9), SyscallRead::Sockaddr { ptr: 9 });
    assert_eq!(classify_syscall(&n, 59, 77, 9), SyscallRead::ExecPath { dirfd: -100, ptr: 77 });
    assert_eq!(classify_syscall(&n, 322, 4, 9), SyscallRead::ExecPath { dirfd: 4, ptr: 9 });
    assert_eq!(classify_syscall(&n, 0, 4, 9), SyscallRead::Ignore);
}

#[test]
fn c_strings_are_cut_at_nul() {
    let buf = b"/etc/passwd\0garbage".to_vec();
    assert_eq!(c_string_from_read(&buf, buf.len()).as_deref(), Some("/etc/passwd"));
    assert_eq!(c_string_from_read(&buf, 4).as_deref(), Some("/etc"));
    assert_eq!(c_string_from_read(&[0xff, 0xfe, 0], 3), None);
    assert_eq!(c_string_from_read(&[], 0).as_deref(), Some(""));
}

#[test]
fn relative_paths_are_resolved() {
    assert_eq!(resolve_at_path("/abs/x", Some("/home")), "/abs/x");
    assert_eq!(resolve_at_path("rel/x", Some("/home/u")), "/home/u/rel/x");
    assert_eq!(resolve_at_path("rel", Some("/")), "/rel");
    assert_eq!(resolve_at_path("rel", None), "/rel");
    assert_eq!(resolve_at_path("", Some("/home")), "/home/");
    assert!(needs_base("x"));
    assert!(!needs_base("/x"));
    assert_eq!(base_link_path(42, -100, -100), "/proc/42/cwd");
    assert_eq!(base_link_path(42, 7, -100), "/proc/42/fd/7");
}

#[test]
fn events_are_built() {
    match path_event(SyscallRead::OpenPath { dirfd: 0, ptr: 0 }, "/a".to_string()) {
        Some(Event::FileOpen { path, mode }) => {
            assert_eq!(path, "/a");
            assert_eq!(mode, "read/write");
        }
        other => panic!("{:?}", other),
    }
    assert!(matches!(path_event(SyscallRead::UnlinkPath { dirfd: 0, ptr: 0 }, "/a".to_string()), Some(Event::FileDelete { .. })));
    assert!(matches!(path_event(SyscallRead::ExecPath { dirfd: 0, ptr: 0 }, "/a".to_string()), Some(Event::ProcessExec { .. })));
    assert!(path_event(SyscallRead::Ignore, "/a".to_string()).is_none());
    match spawn_event(1234) {
        Event::ProcessSpawn { binary, args } => {
            assert_eq!(binary, "<pid:1234>");
            assert!(args.is_empty());
        }
        other => panic!("{:?}", other),
    }
    assert!(matches!(connect_event("1.2.3.4".to_string(), 80), Event::NetConnect { port: 80, .. }));
}

#[test]
fn sockaddrs_are_decoded() {
    let n = nums();
    let mut head = [0u8; 16];
    head[2] = 0x01;
    head[3] = 0xbb;
    head[4] = 192;
    head[5] = 168;
    head[6] = 0;
    head[7] = 1;
    match decode_sockaddr(&n, 2, &head, &[0u8; 8]) {
        Some((SockaddrHost::V4(h), p)) => {
            assert_eq!(h, "192.168.0.1");
            assert_eq!(p, 443);
        }
        other => panic!("{:?}", other),
    }
    let mut head6 = [0u8; 16];
    head6[3] = 80;
    head6[8] = 0x20;
    head6[9] = 0x01;
    let mut tail = [0u8; 8];
    tail[7] = 1;
    match decode_sockaddr(&n, 10, &head6, &tail) {
        Some((SockaddrHost::V6(o), p)) => {
            assert_eq!(p, 80);
            assert_eq!(o, [0x20, 0x01, 0, 0, 0, 0, 0, 0, 0, 0, 0, 0, 0, 0, 0, 1]);
        }
        other => panic!("{:?}", other),
    }
    assert!(decode_sockaddr(&n, 1, &head, &tail).is_none());
}

#[test]
fn traceme_errors_are_reported() {
    assert_eq!(traceme_outcome(Ok(())), Ok(()));
    assert_eq!(traceme_outcome(Err(1)), Err(TraceError::TraceMe(1)));
    let _ = setup_child;
}

#[test]
fn traceme_error_message_is_the_programs() {
    assert_eq!(TraceError::TraceMe(1).message(), "failed to set PTRACE_TRACEME");
}
