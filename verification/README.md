# bulx

Runs a command under a security policy: in audit mode every file open,
network connection and program execution of the command is traced and
judged against the policy; in enforce mode the kernel (Landlock and seccomp)
blocks what the policy does not allow.

Layout:

- `src/` — the verified library (Verus):
  - `path.rs` — whole-component path prefixes (`/etc` covers `/etc/passwd`,
    not `/etc_hacked`), with their laws;
  - `policy.rs` — the policy, the verdict on each event, loading decisions
    (an allow-all policy when no file is named and `bulx.toml` is missing)
    and their messages, and the laws of the verdict (the empty policy
    denies everything, `*`, paths beneath an allowed path, hosts and ports);
  - `cli.rs` — the command-line grammar as a verified parser;
  - `report.rs` — the audit report (lines, counters, JSON entries);
  - `tracer.rs` — the tracer's decisions after each stop and the decoding of
    what is read out of the traced process;
  - `enforce.rs` — the sandbox plan a policy asks for (paths, the read and
    write rights, TCP ports);
  - `seccomp.rs` — the system call filter of enforce mode: the allow list,
    the guard on `socket` while the network is restricted, and its
    compilation to a BPF program with seccompiler, each refusal with its own
    error;
  - `exec.rs` — mode check, sandbox selection and exit status;
  - `text.rs`, `events.rs` — string helpers and the observed events.
- `app/` — the program: I/O, processes, PTYs, ptrace, the Landlock calls and
  the installation of the compiled filter, TOML and JSON.
- `tests/` — tests of the library, including comparisons with clap's parser
  and std's `Path::starts_with`.
