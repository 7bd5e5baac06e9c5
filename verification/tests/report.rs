use bulx::cli::Format;
use bulx::events::Event;
use bulx::policy::Policy;
use bulx::report::{format_event_line, AuditReport};

fn policy() -> Policy {
    let mut p = Policy::default();
    p.fs.allow_read = vec!["/etc".to_string()];
    p.net.allow_hosts = vec!["1.1.1.1".to_string()];
    p.net.allow_ports = vec![443];
    p
}

#[test]
fn human_lines_show_violations_only_when_quiet() {
    let p = policy();
    let mut r = AuditReport::new(Format::Human, 0);
    assert_eq!(r.header().as_deref(), Some("\n=== Bulx Audit Report ==="));
    let ok = r.record(&p, Event::FileOpen { path: "/etc/hosts".to_string(), mode: "read".to_string() });
    assert_eq!(ok, None);
    let bad = r.record(&p, Event::NetConnect { addr: "8.8.8.8".to_string(), port: 53 });
    assert_eq!(bad.as_deref(), Some("  [VIOLATION] [NET CONN]   8.8.8.8:53"));
    assert_eq!(r.total(), 2);
    assert_eq!(r.violations(), 1);
    assert_eq!(
        r.summary_lines(),
        vec!["-------------------------", "!! Found 1 policy violations !!", "========================="]
    );
}

#[test]
fn human_lines_show_all_when_verbose() {
    let p = policy();
    let mut r = AuditReport::new(Format::Human, 1);
    let ok = r.record(&p, Event::FileOpen { path: "/etc/hosts".to_string(), mode: "read".to_string() });
    assert_eq!(ok.as_deref(), Some("  [OK]       [FILE OPEN]  /etc/hosts (read)"));
    assert_eq!(r.violations(), 0);
    assert_eq!(
        r.summary_lines(),
        vec!["-------------------------", "No policy violations detected.", "========================="]
    );
}

#[test]
fn empty_human_report() {
    let r = AuditReport::new(Format::Human, 0);
    assert_eq!(r.summary_lines(), vec!["No significant events recorded.", "========================="]);
}

#[test]
fn every_line_format() {
    let cases = vec![
        (Event::FileWrite { path: "/a".to_string() }, "  [VIOLATION] [FILE WRITE] /a"),
        (Event::FileDelete { path: "/a".to_string() }, "  [VIOLATION] [FILE DEL]   /a"),
        (Event::DnsLookup { domain: "x.org".to_string() }, "  [VIOLATION] [DNS]        x.org"),
        (
            Event::ProcessSpawn { binary: "sh".to_string(), args: vec!["-c".to_string(), "a\"b".to_string()] },
            "  [VIOLATION] [PROC SPAWN] sh [\"-c\", \"a\\\"b\"]",
        ),
        (Event::ProcessExec { binary: "/bin/ls".to_string() }, "  [VIOLATION] [PROC EXEC]  /bin/ls"),
        (Event::EnvRead { key: "HOME".to_string() }, "  [VIOLATION] [ENV READ]   HOME"),
        (Event::NetConnect { addr: "::1".to_string(), port: 65535 }, "  [VIOLATION] [NET CONN]   ::1:65535"),
    ];
    for (e, expected) in cases {
        assert_eq!(format_event_line(false, &e), expected);
    }
}

#[test]
fn json_report_keeps_every_event() {
    let p = policy();
    let mut r = AuditReport::new(Format::Json, 0);
    assert_eq!(r.header(), None);
    assert_eq!(r.record(&p, Event::FileOpen { path: "/etc/a".to_string(), mode: "read".to_string() }), None);
    assert_eq!(r.record(&p, Event::FileWrite { path: "/etc/a".to_string() }), None);
    assert!(r.summary_lines().is_empty());
    let j = r.into_json_report();
    assert!(j.policy_loaded);
    assert_eq!(j.violations, 1);
    assert_eq!(j.events.len(), 2);
    assert!(!j.events[0].is_violation);
    assert!(j.events[1].is_violation);
    assert!(matches!(&j.events[1].event, Event::FileWrite { path } if path == "/etc/a"));
}
