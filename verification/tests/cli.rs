use bulx::cli::{Cli, CliArg, CliError, Format};
use clap::error::ErrorKind;
use clap::{Arg, ArgAction, ArgGroup, Command};

#[test]
fn parse_simple_command() {
    let cli = Cli::parse_from(["bulx", "echo", "hello"]);
    assert_eq!(cli.command, vec!["echo", "hello"]);
    assert_eq!(cli.verbose, 0);
}

#[test]
fn parse_with_separator() {
    let cli = Cli::parse_from(["bulx", "--", "echo", "hello"]);
    assert_eq!(cli.command, vec!["echo", "hello"]);
}

#[test]
fn parse_verbose() {
    let cli = Cli::parse_from(["bulx", "-vvv", "ls"]);
    assert_eq!(cli.verbose, 3);
    assert_eq!(cli.command, vec!["ls"]);
}

#[test]
fn parse_command_with_flags() {
    let cli = Cli::parse_from(["bulx", "--", "ls", "-la", "/tmp"]);
    assert_eq!(cli.command, vec!["ls", "-la", "/tmp"]);
}

fn try_parse(args: &[&str]) -> Result<Cli, CliError> {
    let owned: Vec<String> = args.iter().map(|s| s.to_string()).collect();
    Cli::try_parse_from(&owned)
}

#[test]
fn parse_modes_and_options() {
    let cli = try_parse(&["bulx", "-a", "-f", "json", "--policy=p.toml", "npm", "install"]).unwrap();
    assert!(cli.audit);
    assert!(!cli.enforce);
    assert_eq!(cli.format, Format::Json);
    assert_eq!(cli.policy, Some("p.toml".to_string()));
    assert_eq!(cli.command, vec!["npm", "install"]);

    let cli = try_parse(&["bulx", "-vefhuman", "x"]).unwrap();
    assert_eq!(cli.verbose, 1);
    assert!(cli.enforce);
    assert_eq!(cli.format, Format::Human);
    assert_eq!(cli.command, vec!["x"]);

    let cli = try_parse(&["bulx", "-f=json", "-p", "-", "x", "--audit", "-v"]).unwrap();
    assert_eq!(cli.format, Format::Json);
    assert_eq!(cli.policy, Some("-".to_string()));
    assert!(!cli.audit);
    assert_eq!(cli.verbose, 0);
    assert_eq!(cli.command, vec!["x", "--audit", "-v"]);
}

#[test]
fn parse_defaults() {
    let cli = try_parse(&["bulx", "ls"]).unwrap();
    assert_eq!(cli.format, Format::Human);
    assert_eq!(cli.policy, None);
    assert!(!cli.audit && !cli.enforce);
}

#[test]
fn parse_verbose_saturates() {
    let mut args = vec!["bulx".to_string()];
    for _ in 0..300 {
        args.push("-v".to_string());
    }
    args.push("ls".to_string());
    let cli = Cli::try_parse_from(&args).unwrap();
    assert_eq!(cli.verbose, 255);
}

#[test]
fn parse_errors() {
    assert!(matches!(try_parse(&["bulx"]), Err(CliError::MissingCommand)));
    assert!(matches!(try_parse(&["bulx", "--"]), Err(CliError::MissingCommand)));
    assert!(matches!(try_parse(&["bulx", "-h", "ls"]), Err(CliError::DisplayHelp)));
    assert!(matches!(try_parse(&["bulx", "--version"]), Err(CliError::DisplayVersion)));
    match try_parse(&["bulx", "-x", "ls"]) {
        Err(CliError::UnknownArgument(a)) => assert_eq!(a, "-x"),
        other => panic!("unexpected {:?}", other),
    }
    match try_parse(&["bulx", "--frobnicate", "ls"]) {
        Err(CliError::UnknownArgument(a)) => assert_eq!(a, "--frobnicate"),
        other => panic!("unexpected {:?}", other),
    }
    assert!(matches!(try_parse(&["bulx", "-a", "-e", "ls"]), Err(CliError::ArgumentConflict(CliArg::Audit, CliArg::Enforce))));
    assert!(matches!(try_parse(&["bulx", "-a", "-a", "ls"]), Err(CliError::ArgumentConflict(CliArg::Audit, CliArg::Audit))));
    assert!(matches!(try_parse(&["bulx", "-p", "a", "-p", "b", "ls"]), Err(CliError::ArgumentConflict(CliArg::Policy, CliArg::Policy))));
    assert!(matches!(try_parse(&["bulx", "-p"]), Err(CliError::MissingValue(CliArg::Policy))));
    assert!(matches!(try_parse(&["bulx", "-p", "--audit", "ls"]), Err(CliError::MissingValue(CliArg::Policy))));
    match try_parse(&["bulx", "--format", "xml", "ls"]) {
        Err(CliError::InvalidValue(CliArg::Format, v)) => assert_eq!(v, "xml"),
        other => panic!("unexpected {:?}", other),
    }
    match try_parse(&["bulx", "--audit=yes", "ls"]) {
        Err(CliError::UnexpectedValue(CliArg::Audit, v)) => assert_eq!(v, "yes"),
        other => panic!("unexpected {:?}", other),
    }
}

/// The same grammar built with clap's builder, as an oracle.
fn oracle() -> Command {
    Command::new("bulx")
        .version("0.1.0")
        .arg(Arg::new("verbose").short('v').long("verbose").action(ArgAction::Count).global(true))
        .arg(Arg::new("audit").short('a').long("audit").action(ArgAction::SetTrue).group("mode"))
        .arg(Arg::new("enforce").short('e').long("enforce").action(ArgAction::SetTrue).group("mode"))
        .arg(Arg::new("format").short('f').long("format").value_parser(["human", "json"]).default_value("human"))
        .arg(Arg::new("policy").short('p').long("policy"))
        .arg(Arg::new("command").required(true).num_args(1..).trailing_var_arg(true))
        .group(ArgGroup::new("mode").multiple(false))
}

fn oracle_kind(e: &CliError) -> ErrorKind {
    match e {
        CliError::DisplayHelp => ErrorKind::DisplayHelp,
        CliError::DisplayVersion => ErrorKind::DisplayVersion,
        CliError::UnknownArgument(_) => ErrorKind::UnknownArgument,
        CliError::UnexpectedValue(_, _) => ErrorKind::TooManyValues,
        CliError::MissingValue(_) => ErrorKind::InvalidValue,
        CliError::InvalidValue(_, _) => ErrorKind::InvalidValue,
        CliError::ArgumentConflict(_, _) => ErrorKind::ArgumentConflict,
        CliError::MissingCommand => ErrorKind::MissingRequiredArgument,
    }
}

#[test]
fn parse_agrees_with_clap() {
    let cases: Vec<Vec<&str>> = vec![
        vec!["bulx", "echo", "hello"],
        vec!["bulx", "--", "echo", "hello"],
        vec!["bulx", "-vvv", "ls"],
        vec!["bulx", "--", "ls", "-la", "/tmp"],
        vec!["bulx"],
        vec!["bulx", "--"],
        vec!["bulx", "-a", "-e", "ls"],
        vec!["bulx", "-ae", "ls"],
        vec!["bulx", "-a", "-a", "ls"],
        vec!["bulx", "-e", "--enforce", "ls"],
        vec!["bulx", "-h"],
        vec!["bulx", "--help", "ls"],
        vec!["bulx", "-V"],
        vec!["bulx", "ls", "-h"],
        vec!["bulx", "-x", "ls"],
        vec!["bulx", "-vx", "ls"],
        vec!["bulx", "--frob", "ls"],
        vec!["bulx", "--frob=1", "ls"],
        vec!["bulx", "-f", "json", "ls"],
        vec!["bulx", "-fjson", "ls"],
        vec!["bulx", "-f=json", "ls"],
        vec!["bulx", "--format=json", "ls"],
        vec!["bulx", "--format", "xml", "ls"],
        vec!["bulx", "--format=", "ls"],
        vec!["bulx", "-f", "json", "-f", "human", "ls"],
        vec!["bulx", "-p", "a", "-p", "b", "ls"],
        vec!["bulx", "-p", "a", "-p", "b", "-z"],
        vec!["bulx", "-p"],
        vec!["bulx", "-p", "--audit", "ls"],
        vec!["bulx", "-p", "-x", "ls"],
        vec!["bulx", "-p", "--", "ls"],
        vec!["bulx", "-p", "-", "ls"],
        vec!["bulx", "-p", "ls"],
        vec!["bulx", "--policy=", "ls"],
        vec!["bulx", "--audit=yes", "ls"],
        vec!["bulx", "--verbose", "--verbose", "ls", "--verbose"],
        vec!["bulx", "-", "x"],
        vec!["bulx", "", "x"],
        vec!["bulx", "-a", "ls", "--", "-e"],
        vec!["bulx", "-pfile", "-ev", "run"],
        vec!["bulx", "-vpfile", "run"],
        vec!["bulx", "-fp", "run"],
        vec!["bulx", "-5", "run"],
        vec!["bulx", "--=x", "run"],
        vec!["bulx", "-a", "-h", "-e"],
        vec!["bulx", "-p", "x", "-h"],
    ];
    for case in cases {
        let mine = try_parse(&case);
        let theirs = oracle().try_get_matches_from(case.clone());
        match (&mine, &theirs) {
            (Ok(cli), Ok(m)) => {
                assert_eq!(cli.verbose, m.get_count("verbose"), "{:?}", case);
                assert_eq!(cli.audit, m.get_flag("audit"), "{:?}", case);
                assert_eq!(cli.enforce, m.get_flag("enforce"), "{:?}", case);
                let format = m.get_one::<String>("format").unwrap();
                let expected = if format == "json" { Format::Json } else { Format::Human };
                assert_eq!(cli.format, expected, "{:?}", case);
                assert_eq!(cli.policy.as_ref(), m.get_one::<String>("policy"), "{:?}", case);
                let command: Vec<String> = m.get_many::<String>("command").unwrap().cloned().collect();
                assert_eq!(cli.command, command, "{:?}", case);
            }
            (Err(e), Err(c)) => {
                assert_eq!(oracle_kind(e), c.kind(), "{:?}: {:?}", case, e);
            }
            _ => panic!("disagreement on {:?}: {:?} vs {:?}", case, mine, theirs.map(|_| ())),
        }
    }
}
