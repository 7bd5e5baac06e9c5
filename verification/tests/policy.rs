use bulx::events::Event;
use bulx::path::starts_with;
use bulx::policy::{Policy, PolicyError, PolicyLoad};

#[test]
fn test_match_prefix_list() {
    let list = vec!["/etc".to_string(), "/usr/lib".to_string()];

    // Exact match
    assert!(Policy::match_prefix_list("/etc", &list));
    // Prefix match
    assert!(Policy::match_prefix_list("/etc/passwd", &list));
    assert!(Policy::match_prefix_list("/usr/lib/libc.so", &list));

    // No match
    assert!(!Policy::match_prefix_list("/var/log", &list));
    assert!(!Policy::match_prefix_list("/usr/bin", &list));
    // Ensure semantic matching, not string prefix matching
    assert!(!Policy::match_prefix_list("/etc_hacked/shadow", &list));
}

#[test]
fn test_evaluate_event() {
    let mut policy = Policy::default();
    policy.fs.allow_read = vec!["/etc".to_string()];
    policy.net.allow_hosts = vec!["1.1.1.1".to_string()];

    let ok_event = Event::FileOpen {
        path: "/etc/passwd".to_string(),
        mode: "read".to_string(),
    };
    let bad_event = Event::FileOpen {
        path: "/root/secret".to_string(),
        mode: "read".to_string(),
    };
    let ok_net = Event::NetConnect {
        addr: "1.1.1.1".to_string(),
        port: 443,
    };
    let bad_net = Event::NetConnect {
        addr: "8.8.8.8".to_string(),
        port: 443,
    };

    assert!(policy.evaluate(&ok_event));
    assert!(!policy.evaluate(&bad_event));
    assert!(policy.evaluate(&ok_net));
    assert!(!policy.evaluate(&bad_net));
}

#[test]
fn path_prefix_agrees_with_std() {
    let paths = [
        "", "/", "//", "/etc", "/etc/", "/etc//", "/etc/passwd", "/etc/./passwd", "/etc/../etc",
        "etc", "etc/passwd", ".", "./", "./etc", "./etc/passwd", "..", "../x", "/./etc", "//etc",
        "/etc_hacked", "/etc_hacked/shadow", "a/b/c", "a//b/./c/", ".hidden", "./.", "/usr/lib",
        "/usr/lib/libc.so", "/usr/libexec", "*", "1.1.1.1", "1.1.1.10", "x/.", "x/..",
    ];
    for t in paths.iter() {
        for b in paths.iter() {
            let expected = std::path::Path::new(t).starts_with(std::path::Path::new(b));
            assert_eq!(starts_with(t, b), expected, "{:?} starts with {:?}", t, b);
        }
    }
}

#[test]
fn empty_policy_denies_everything() {
    let policy = Policy::default();
    let events = vec![
        Event::FileOpen { path: "/".to_string(), mode: "read".to_string() },
        Event::FileWrite { path: "/tmp/x".to_string() },
        Event::FileDelete { path: "/tmp/x".to_string() },
        Event::NetConnect { addr: "127.0.0.1".to_string(), port: 80 },
        Event::DnsLookup { domain: "example.com".to_string() },
        Event::ProcessSpawn { binary: "/bin/sh".to_string(), args: vec![] },
        Event::ProcessExec { binary: "/bin/sh".to_string() },
        Event::EnvRead { key: "HOME".to_string() },
    ];
    for e in events.iter() {
        assert!(!policy.evaluate(e), "{:?}", e);
    }
}

#[test]
fn wildcard_admits_everything() {
    let list = vec!["*".to_string()];
    assert!(Policy::match_prefix_list("/anything/at/all", &list));
    assert!(Policy::match_prefix_list("", &list));
    assert!(!Policy::match_prefix_list("/x", &vec!["/*".to_string()]));
}

#[test]
fn write_mode_uses_write_list() {
    let mut policy = Policy::default();
    policy.fs.allow_read = vec!["/data".to_string()];
    policy.fs.allow_write = vec!["/tmp".to_string()];
    let read = Event::FileOpen { path: "/data/a".to_string(), mode: "read".to_string() };
    let write_data = Event::FileOpen { path: "/data/a".to_string(), mode: "read/write".to_string() };
    let write_tmp = Event::FileOpen { path: "/tmp/a".to_string(), mode: "overwrite".to_string() };
    assert!(policy.evaluate(&read));
    assert!(!policy.evaluate(&write_data));
    assert!(policy.evaluate(&write_tmp));
    assert!(policy.evaluate(&Event::FileDelete { path: "/tmp/b".to_string() }));
    assert!(!policy.evaluate(&Event::FileWrite { path: "/data/b".to_string() }));
}

#[test]
fn ports_and_hosts() {
    let mut policy = Policy::default();
    policy.net.allow_hosts = vec!["10.0.0.1".to_string()];
    policy.net.allow_ports = vec![443];
    assert!(policy.evaluate(&Event::NetConnect { addr: "10.0.0.1".to_string(), port: 443 }));
    assert!(!policy.evaluate(&Event::NetConnect { addr: "10.0.0.1".to_string(), port: 80 }));
    policy.net.allow_ports = vec![0];
    assert!(policy.evaluate(&Event::NetConnect { addr: "10.0.0.1".to_string(), port: 80 }));
    assert!(!policy.evaluate(&Event::NetConnect { addr: "10.0.0.2".to_string(), port: 80 }));
    assert!(policy.evaluate(&Event::DnsLookup { domain: "10.0.0.1".to_string() }));
}

#[test]
fn spawn_exec_and_env() {
    let mut policy = Policy::default();
    policy.process.allow_spawn = vec!["/usr/bin".to_string()];
    policy.env.allow_read = vec!["HOME".to_string()];
    assert!(policy.evaluate(&Event::ProcessExec { binary: "/usr/bin/gcc".to_string() }));
    assert!(policy.evaluate(&Event::ProcessSpawn { binary: "/usr/bin/cc".to_string(), args: vec!["-c".to_string()] }));
    assert!(!policy.evaluate(&Event::ProcessExec { binary: "/usr/sbin/x".to_string() }));
    assert!(policy.evaluate(&Event::EnvRead { key: "HOME".to_string() }));
    assert!(!policy.evaluate(&Event::EnvRead { key: "PATH".to_string() }));
}

#[test]
fn beneath_admitted_is_admitted() {
    let list = vec!["/srv/app".to_string()];
    assert!(Policy::match_prefix_list("/srv/app", &list));
    assert!(Policy::match_prefix_list("/srv/app/a/b/c", &list));
    assert!(Policy::match_prefix_list("/srv/app/", &list));
    assert!(!Policy::match_prefix_list("/srv/application", &list));
}

#[test]
fn load_plan() {
    assert_eq!(Policy::source_path(None), "bulx.toml");
    let p = "custom.toml".to_string();
    assert_eq!(Policy::source_path(Some(&p)), "custom.toml");
    assert_eq!(Policy::load_action(true, true), PolicyLoad::ReadFile);
    assert_eq!(Policy::load_action(false, true), PolicyLoad::ReadFile);
    assert_eq!(Policy::load_action(true, false), PolicyLoad::NotFound);
    assert_eq!(Policy::load_action(false, false), PolicyLoad::UseAllowAll);
}

#[test]
fn ports_only_policy_opens_those_ports_to_every_host() {
    let mut policy = Policy::default();
    policy.net.allow_ports = vec![443];

    let https = Event::NetConnect {
        addr: "93.184.216.34".to_string(),
        port: 443,
    };
    let http = Event::NetConnect {
        addr: "93.184.216.34".to_string(),
        port: 80,
    };
    assert!(policy.evaluate(&https));
    assert!(!policy.evaluate(&http));
}

#[test]
fn no_network_lists_deny_every_connection() {
    let policy = Policy::default();
    let conn = Event::NetConnect {
        addr: "93.184.216.34".to_string(),
        port: 443,
    };
    assert!(!policy.evaluate(&conn));
}

#[test]
fn hosts_and_ports_must_both_admit() {
    let mut policy = Policy::default();
    policy.net.allow_hosts = vec!["1.1.1.1".to_string()];
    policy.net.allow_ports = vec![53];
    let ok = Event::NetConnect { addr: "1.1.1.1".to_string(), port: 53 };
    let wrong_port = Event::NetConnect { addr: "1.1.1.1".to_string(), port: 443 };
    let wrong_host = Event::NetConnect { addr: "8.8.8.8".to_string(), port: 53 };
    assert!(policy.evaluate(&ok));
    assert!(!policy.evaluate(&wrong_port));
    assert!(!policy.evaluate(&wrong_host));
}

#[test]
fn policy_error_messages_name_the_file() {
    assert_eq!(PolicyError::NotFound("x.toml".to_string()).message(), "policy file not found at x.toml");
    assert_eq!(PolicyError::Unreadable("x.toml".to_string()).message(), "failed to read policy file: x.toml");
    assert_eq!(PolicyError::Malformed("x.toml".to_string()).message(), "failed to parse policy file: x.toml");
}

#[test]
fn fallback_policy_allows_every_event() {
    let policy = Policy::allow_all();
    let events = vec![
        Event::FileOpen { path: "/root/secret".to_string(), mode: "read".to_string() },
        Event::FileOpen { path: "/etc/passwd".to_string(), mode: "write".to_string() },
        Event::FileWrite { path: "/tmp/x".to_string() },
        Event::FileDelete { path: "/home/u/.ssh/id_rsa".to_string() },
        Event::NetConnect { addr: "8.8.8.8".to_string(), port: 53 },
        Event::DnsLookup { domain: "example.com".to_string() },
        Event::ProcessSpawn { binary: "/bin/sh".to_string(), args: vec!["-c".to_string()] },
        Event::ProcessExec { binary: "/usr/bin/curl".to_string() },
        Event::EnvRead { key: "HOME".to_string() },
    ];
    for e in &events {
        assert!(policy.evaluate(e));
        assert!(!Policy::default().evaluate(e));
    }
}
