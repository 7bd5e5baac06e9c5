//! The command-line grammar:
//!
//!   bulx [-v...] [-a | -e] [-f human|json] [-p PATH] [--] COMMAND [ARGS...]
//!
//! Short flags may be clustered (`-vvv`, `-ae`), an option's value may be
//! attached (`-fjson`, `-f=json`, `--format=json`) or follow as the next
//! argument, `--` ends the options, and the first positional argument starts
//! the command: every argument after it belongs to the command, whatever it
//! looks like.
use vstd::prelude::*;
use crate::text::{chars_of, chars_eq, string_from_chars, char_views, string_views};

verus! {

/// Output format of the audit report.
#[derive(Clone, Copy, Debug, PartialEq, Eq, Structural)]
pub enum Format {
    Human,
    Json,
}

impl Default for Format {
    fn default() -> (r: Self)
        ensures
            r == Format::Human,
    {
        Format::Human
    }
}

/// The parsed command line.
#[derive(Debug)]
pub struct Cli {
    /// Increase verbosity (-v, -vv, -vvv)
    pub verbose: u8,
    /// Enable audit mode (trace syscalls and report behaviour)
    pub audit: bool,
    /// Enable enforce mode (block policy violations via kernel sandbox)
    pub enforce: bool,
    /// Output format for audit report
    pub format: Format,
    /// Path to the policy configuration file (defaults to bulx.toml if it exists)
    pub policy: Option<String>,
    /// The command and its arguments to execute
    pub command: Vec<String>,
}

/// The named arguments of the grammar.
#[derive(Clone, Copy, Debug, PartialEq, Eq, Structural)]
pub enum CliArg {
    Verbose,
    Audit,
    Enforce,
    Format,
    Policy,
    Help,
    Version,
}

/// Why a command line was not accepted, or what it asked for instead of a run.
#[derive(Debug)]
pub enum CliError {
    /// `-h` or `--help` was given.
    DisplayHelp,
    /// `-V` or `--version` was given.
    DisplayVersion,
    /// A flag that the grammar does not know, as written (`-x`, `--foo`).
    UnknownArgument(String),
    /// A value attached to a flag that takes none (`--audit=yes`).
    UnexpectedValue(CliArg, String),
    /// An option whose value never came.
    MissingValue(CliArg),
    /// A value that the option does not accept (a format other than `human` or `json`).
    InvalidValue(CliArg, String),
    /// An argument given twice, or audit together with enforce.
    ArgumentConflict(CliArg, CliArg),
    /// No command to run.
    MissingCommand,
}

/// The abstract form of a `CliError`.
pub enum CliFault {
    DisplayHelp,
    DisplayVersion,
    UnknownArgument(Seq<char>),
    UnexpectedValue(CliArg, Seq<char>),
    MissingValue(CliArg),
    InvalidValue(CliArg, Seq<char>),
    ArgumentConflict(CliArg, CliArg),
    MissingCommand,
}

impl CliError {
    pub open spec fn fault(&self) -> CliFault {
        match self {
            CliError::DisplayHelp => CliFault::DisplayHelp,
            CliError::DisplayVersion => CliFault::DisplayVersion,
            CliError::UnknownArgument(s) => CliFault::UnknownArgument(s@),
            CliError::UnexpectedValue(a, s) => CliFault::UnexpectedValue(*a, s@),
            CliError::MissingValue(a) => CliFault::MissingValue(*a),
            CliError::InvalidValue(a, s) => CliFault::InvalidValue(*a, s@),
            CliError::ArgumentConflict(a, b) => CliFault::ArgumentConflict(*a, *b),
            CliError::MissingCommand => CliFault::MissingCommand,
        }
    }
}

/// An option that still waits for, or holds, its value.
pub enum Pending {
    Idle,
    Awaiting(CliArg),
    Holding(CliArg, Seq<char>),
}

/// What has been read of a command line so far.
pub struct ArgState {
    pub verbose: u8,
    pub audit: bool,
    pub enforce: bool,
    pub format: Option<Format>,
    pub policy: Option<Seq<char>>,
    pub command: Seq<Seq<char>>,
    pub pending: Pending,
    /// Options have ended (`--` or the command has started).
    pub trailing: bool,
}

pub open spec fn initial_state() -> ArgState {
    ArgState {
        verbose: 0,
        audit: false,
        enforce: false,
        format: None,
        policy: None,
        command: seq![],
        pending: Pending::Idle,
        trailing: false,
    }
}

/// The argument that a long name stands for.
pub open spec fn arg_of_long(name: Seq<char>) -> Option<CliArg> {
    if name == seq!['v', 'e', 'r', 'b', 'o', 's', 'e'] {
        Some(CliArg::Verbose)
    } else if name == seq!['a', 'u', 'd', 'i', 't'] {
        Some(CliArg::Audit)
    } else if name == seq!['e', 'n', 'f', 'o', 'r', 'c', 'e'] {
        Some(CliArg::Enforce)
    } else if name == seq!['f', 'o', 'r', 'm', 'a', 't'] {
        Some(CliArg::Format)
    } else if name == seq!['p', 'o', 'l', 'i', 'c', 'y'] {
        Some(CliArg::Policy)
    } else if name == seq!['h', 'e', 'l', 'p'] {
        Some(CliArg::Help)
    } else if name == seq!['v', 'e', 'r', 's', 'i', 'o', 'n'] {
        Some(CliArg::Version)
    } else {
        None
    }
}

/// The argument that a short letter stands for.
pub open spec fn arg_of_short(c: char) -> Option<CliArg> {
    if c == 'v' {
        Some(CliArg::Verbose)
    } else if c == 'a' {
        Some(CliArg::Audit)
    } else if c == 'e' {
        Some(CliArg::Enforce)
    } else if c == 'f' {
        Some(CliArg::Format)
    } else if c == 'p' {
        Some(CliArg::Policy)
    } else if c == 'h' {
        Some(CliArg::Help)
    } else if c == 'V' {
        Some(CliArg::Version)
    } else {
        None
    }
}

/// The options that take a value.
pub open spec fn takes_value(a: CliArg) -> bool {
    a == CliArg::Format || a == CliArg::Policy
}

/// The formats by name.
pub open spec fn format_named(v: Seq<char>) -> Option<Format> {
    if v == seq!['h', 'u', 'm', 'a', 'n'] {
        Some(Format::Human)
    } else if v == seq!['j', 's', 'o', 'n'] {
        Some(Format::Json)
    } else {
        None
    }
}

/// Records the value of an option. An option given twice conflicts with
/// itself; a format must be `human` or `json`.
pub open spec fn apply_value(st: ArgState, o: CliArg, v: Seq<char>) -> Result<ArgState, CliFault> {
    if o == CliArg::Format {
        if st.format is Some {
            Err(CliFault::ArgumentConflict(o, o))
        } else {
            match format_named(v) {
                Some(f) => Ok(ArgState { format: Some(f), pending: Pending::Idle, ..st }),
                None => Err(CliFault::InvalidValue(o, v)),
            }
        }
    } else {
        if st.policy is Some {
            Err(CliFault::ArgumentConflict(o, o))
        } else {
            Ok(ArgState { policy: Some(v), pending: Pending::Idle, ..st })
        }
    }
}

/// Settles the pending option: one that never got its value is an error.
pub open spec fn resolve(st: ArgState) -> Result<ArgState, CliFault> {
    match st.pending {
        Pending::Idle => Ok(st),
        Pending::Awaiting(o) => Err(CliFault::MissingValue(o)),
        Pending::Holding(o, v) => apply_value(st, o, v),
    }
}

/// A flag that takes no value.
pub open spec fn react_flag(st: ArgState, f: CliArg) -> Result<ArgState, CliFault> {
    match resolve(st) {
        Err(e) => Err(e),
        Ok(s) => if f == CliArg::Verbose {
            Ok(ArgState { verbose: if s.verbose < 255 { (s.verbose + 1) as u8 } else { 255 }, ..s })
        } else if f == CliArg::Audit {
            if s.audit { Err(CliFault::ArgumentConflict(f, f)) } else { Ok(ArgState { audit: true, ..s }) }
        } else if f == CliArg::Enforce {
            if s.enforce { Err(CliFault::ArgumentConflict(f, f)) } else { Ok(ArgState { enforce: true, ..s }) }
        } else if f == CliArg::Help {
            Err(CliFault::DisplayHelp)
        } else {
            Err(CliFault::DisplayVersion)
        },
    }
}

/// An option, with its value attached or still to come.
pub open spec fn react_option(st: ArgState, o: CliArg, attached: Option<Seq<char>>) -> Result<ArgState, CliFault> {
    match resolve(st) {
        Err(e) => Err(e),
        Ok(s) => match attached {
            Some(v) => apply_value(s, o, v),
            None => Ok(ArgState { pending: Pending::Awaiting(o), ..s }),
        },
    }
}

/// The value attached after an option letter in a cluster: the rest of the
/// cluster, without one leading `=`; none when nothing follows the letter.
pub open spec fn attached_short_value(rest: Seq<char>) -> Option<Seq<char>> {
    if rest.len() == 0 {
        None
    } else if rest[0] == '=' {
        Some(rest.drop_first())
    } else {
        Some(rest)
    }
}

/// The letters of a short cluster, from position `i` on.
pub open spec fn short_cluster(st: ArgState, cs: Seq<char>, i: nat) -> Result<ArgState, CliFault>
    decreases cs.len() - i,
{
    if i >= cs.len() {
        Ok(st)
    } else {
        match arg_of_short(cs[i as int]) {
            None => Err(CliFault::UnknownArgument(seq!['-', cs[i as int]])),
            Some(a) => if takes_value(a) {
                react_option(st, a, attached_short_value(cs.subrange(i as int + 1, cs.len() as int)))
            } else {
                match react_flag(st, a) {
                    Err(e) => Err(e),
                    Ok(s) => short_cluster(s, cs, i + 1),
                }
            },
        }
    }
}

/// The position of the first `=` in `s` at or after `i`, if any.
pub open spec fn first_equals(s: Seq<char>, i: nat) -> Option<nat>
    decreases s.len() - i,
{
    if i >= s.len() {
        None
    } else if s[i as int] == '=' {
        Some(i)
    } else {
        first_equals(s, i + 1)
    }
}

/// A long argument, without its leading `--`: the name, and the value after
/// the first `=` if there is one.
pub open spec fn long_arg(st: ArgState, body: Seq<char>) -> Result<ArgState, CliFault> {
    let (name, val) = match first_equals(body, 0) {
        Some(k) => (body.subrange(0, k as int), Some(body.subrange(k as int + 1, body.len() as int))),
        None => (body, None),
    };
    match arg_of_long(name) {
        None => Err(CliFault::UnknownArgument(seq!['-', '-'] + name)),
        Some(a) => if takes_value(a) {
            react_option(st, a, val)
        } else {
            match val {
                Some(v) => Err(CliFault::UnexpectedValue(a, v)),
                None => react_flag(st, a),
            }
        },
    }
}

/// A positional argument: it starts (or continues) the command, and ends the options.
pub open spec fn positional(st: ArgState, a: Seq<char>) -> Result<ArgState, CliFault> {
    match resolve(st) {
        Err(e) => Err(e),
        Ok(s) => Ok(ArgState { command: s.command.push(a), trailing: true, ..s }),
    }
}

/// One argument of the command line.
pub open spec fn step(st: ArgState, a: Seq<char>) -> Result<ArgState, CliFault> {
    if st.trailing {
        positional(st, a)
    } else if a == seq!['-', '-'] {
        Ok(ArgState { trailing: true, ..st })
    } else if a.len() > 2 && a[0] == '-' && a[1] == '-' {
        long_arg(st, a.subrange(2, a.len() as int))
    } else if a.len() >= 2 && a[0] == '-' {
        short_cluster(st, a.subrange(1, a.len() as int), 0)
    } else {
        match st.pending {
            Pending::Awaiting(o) => Ok(ArgState { pending: Pending::Holding(o, a), ..st }),
            _ => positional(st, a),
        }
    }
}

/// The end of the command line: the pending option is settled, audit and
/// enforce exclude each other, and a command is required.
pub open spec fn finish(st: ArgState) -> Result<ArgState, CliFault> {
    match resolve(st) {
        Err(e) => Err(e),
        Ok(s) => if s.audit && s.enforce {
            Err(CliFault::ArgumentConflict(CliArg::Audit, CliArg::Enforce))
        } else if s.command.len() == 0 {
            Err(CliFault::MissingCommand)
        } else {
            Ok(s)
        },
    }
}

/// Reads the arguments from position `i` on.
pub open spec fn run(st: ArgState, args: Seq<Seq<char>>, i: nat) -> Result<ArgState, CliFault>
    decreases args.len() - i,
{
    if i >= args.len() {
        finish(st)
    } else {
        match step(st, args[i as int]) {
            Err(e) => Err(e),
            Ok(s) => run(s, args, i + 1),
        }
    }
}

/// The meaning of a command line; its first argument names the program.
pub open spec fn parse_args(args: Seq<Seq<char>>) -> Result<ArgState, CliFault> {
    run(initial_state(), args, 1)
}

/// Once the options have ended, every remaining argument joins the command.
proof fn lemma_trailing_run(st: ArgState, args: Seq<Seq<char>>, i: nat)
    requires
        st.trailing,
        st.pending is Idle,
        i <= args.len(),
    ensures
        run(st, args, i) == finish(ArgState { command: st.command + args.subrange(i as int, args.len() as int), ..st }),
    decreases args.len() - i,
{
    if i >= args.len() {
        assert(st.command + args.subrange(i as int, args.len() as int) =~= st.command);
        assert(ArgState { command: st.command, ..st } == st);
    } else {
        let next = ArgState { command: st.command.push(args[i as int]), trailing: true, ..st };
        assert(step(st, args[i as int]) == Ok::<ArgState, CliFault>(next));
        lemma_trailing_run(next, args, i + 1);
        assert(next.command + args.subrange(i as int + 1, args.len() as int)
            =~= st.command + args.subrange(i as int, args.len() as int));
    }
}

/// Law: after `--`, every argument belongs to the command, whatever it
/// looks like, and nothing else is set.
pub proof fn law_separator_passes_everything(prog: Seq<char>, rest: Seq<Seq<char>>)
    requires
        rest.len() > 0,
    ensures
        parse_args(seq![prog, seq!['-', '-']] + rest) matches Ok(m) && m.command == rest
            && m.verbose == 0 && !m.audit && !m.enforce && m.format is None && m.policy is None,
{
    let args = seq![prog, seq!['-', '-']] + rest;
    let st = ArgState { trailing: true, ..initial_state() };
    assert(args[1] == seq!['-', '-']);
    assert(step(initial_state(), args[1]) == Ok::<ArgState, CliFault>(st));
    lemma_trailing_run(st, args, 2);
    assert(st.command + args.subrange(2, args.len() as int) =~= rest);
}

/// Law: a command line whose first argument does not look like a flag runs
/// that argument with every argument after it, unchanged.
pub proof fn law_first_positional_starts_command(prog: Seq<char>, first: Seq<char>, rest: Seq<Seq<char>>)
    requires
        first.len() < 2 || first[0] != '-',
    ensures
        parse_args(seq![prog, first] + rest) matches Ok(m) && m.command == seq![first] + rest
            && m.verbose == 0 && !m.audit && !m.enforce && m.format is None && m.policy is None,
{
    let args = seq![prog, first] + rest;
    assert(args[1] == first);
    assert(first != seq!['-', '-']) by {
        if first == seq!['-', '-'] {
            assert(first.len() == 2 && first[0] == '-');
        }
    }
    let st = ArgState { command: seq![first], trailing: true, ..initial_state() };
    assert(step(initial_state(), first) == Ok::<ArgState, CliFault>(st)) by {
        assert(initial_state().command.push(first) =~= seq![first]);
    }
    lemma_trailing_run(st, args, 2);
    assert(st.command + args.subrange(2, args.len() as int) =~= seq![first] + rest);
}

proof fn lemma_run_ok_is_finished(st: ArgState, args: Seq<Seq<char>>, i: nat)
    ensures
        run(st, args, i) matches Ok(m) ==> !(m.audit && m.enforce) && m.command.len() > 0,
    decreases args.len() - i,
{
    if i < args.len() {
        match step(st, args[i as int]) {
            Ok(s) => lemma_run_ok_is_finished(s, args, i + 1),
            Err(_) => {},
        }
    }
}

/// Law: an accepted command line never asks for audit and enforce together,
/// and always names a command.
pub proof fn law_accepted_line_has_one_mode_and_a_command(args: Seq<Seq<char>>)
    ensures
        parse_args(args) matches Ok(m) ==> !(m.audit && m.enforce) && m.command.len() > 0,
{
    lemma_run_ok_is_finished(initial_state(), args, 1);
}

/// `--policy`.
pub open spec fn long_policy() -> Seq<char> {
    seq!['-', '-', 'p', 'o', 'l', 'i', 'c', 'y']
}

/// `--format`.
pub open spec fn long_format() -> Seq<char> {
    seq!['-', '-', 'f', 'o', 'r', 'm', 'a', 't']
}

/// An argument that cannot be read as an option or as `--`.
pub open spec fn is_bare(a: Seq<char>) -> bool {
    a.len() < 2 || a[0] != '-'
}

proof fn lemma_no_equals(s: Seq<char>, i: nat)
    requires
        forall|j: int| i <= j < s.len() ==> s[j] != '=',
    ensures
        first_equals(s, i) is None,
    decreases s.len() - i,
{
    if i < s.len() {
        lemma_no_equals(s, i + 1);
    }
}

/// Reading from position `i` on depends on the arguments from `i` on alone.
proof fn lemma_run_reads_only_the_rest(st: ArgState, a: Seq<Seq<char>>, b: Seq<Seq<char>>, i: nat)
    requires
        a.len() == b.len(),
        forall|j: int| i <= j < a.len() ==> a[j] == b[j],
    ensures
        run(st, a, i) == run(st, b, i),
    decreases a.len() - i,
{
    if i < a.len() {
        match step(st, a[i as int]) {
            Ok(s) => lemma_run_reads_only_the_rest(s, a, b, i + 1),
            Err(_) => {},
        }
    }
}

/// Law: before the command starts, the long form of a value option does
/// what its short form does: it waits for its value, which the next
/// argument gives.
pub proof fn law_long_value_option_acts_like_short(st: ArgState)
    requires
        !st.trailing,
    ensures
        step(st, long_policy()) == step(st, seq!['-', 'p']),
        step(st, long_policy()) == react_option(st, CliArg::Policy, None),
        step(st, long_format()) == step(st, seq!['-', 'f']),
        step(st, long_format()) == react_option(st, CliArg::Format, None),
{
    let p = long_policy();
    let pb = p.subrange(2, p.len() as int);
    assert(pb =~= seq!['p', 'o', 'l', 'i', 'c', 'y']);
    lemma_no_equals(pb, 0);
    assert(pb != seq!['v', 'e', 'r', 'b', 'o', 's', 'e']);
    assert(pb != seq!['a', 'u', 'd', 'i', 't']);
    assert(pb != seq!['e', 'n', 'f', 'o', 'r', 'c', 'e']);
    assert(pb != seq!['f', 'o', 'r', 'm', 'a', 't']) by {
        assert(pb[0] != seq!['f', 'o', 'r', 'm', 'a', 't'][0]);
    }
    assert(arg_of_long(pb) == Some(CliArg::Policy));
    assert(p != seq!['-', '-']);
    let sp = seq!['-', 'p'];
    assert(sp.subrange(1, 2) =~= seq!['p']);
    assert(seq!['p'].subrange(1, 1) =~= Seq::<char>::empty());
    assert(sp != seq!['-', '-']);

    let f = long_format();
    let fb = f.subrange(2, f.len() as int);
    assert(fb =~= seq!['f', 'o', 'r', 'm', 'a', 't']);
    lemma_no_equals(fb, 0);
    assert(fb != seq!['v', 'e', 'r', 'b', 'o', 's', 'e']);
    assert(fb != seq!['a', 'u', 'd', 'i', 't']);
    assert(fb != seq!['e', 'n', 'f', 'o', 'r', 'c', 'e']);
    assert(arg_of_long(fb) == Some(CliArg::Format));
    assert(f != seq!['-', '-']);
    let sf = seq!['-', 'f'];
    assert(sf.subrange(1, 2) =~= seq!['f']);
    assert(seq!['f'].subrange(1, 1) =~= Seq::<char>::empty());
    assert(sf != seq!['-', '-']);
}

/// Law: whatever follows, a command line that starts with `--policy V`
/// means what it means with `-p V`, and one that starts with `--format V`
/// what it means with `-f V`.
pub proof fn law_long_and_short_value_options_agree(prog: Seq<char>, v: Seq<char>, rest: Seq<Seq<char>>)
    ensures
        parse_args(seq![prog, long_policy(), v] + rest) == parse_args(seq![prog, seq!['-', 'p'], v] + rest),
        parse_args(seq![prog, long_format(), v] + rest) == parse_args(seq![prog, seq!['-', 'f'], v] + rest),
{
    law_long_value_option_acts_like_short(initial_state());
    let a = seq![prog, long_policy(), v] + rest;
    let b = seq![prog, seq!['-', 'p'], v] + rest;
    assert(a[1] == long_policy() && b[1] == seq!['-', 'p']);
    match step(initial_state(), a[1]) {
        Ok(s) => lemma_run_reads_only_the_rest(s, a, b, 2),
        Err(_) => {},
    }
    let c = seq![prog, long_format(), v] + rest;
    let d = seq![prog, seq!['-', 'f'], v] + rest;
    assert(c[1] == long_format() && d[1] == seq!['-', 'f']);
    match step(initial_state(), c[1]) {
        Ok(s) => lemma_run_reads_only_the_rest(s, c, d, 2),
        Err(_) => {},
    }
}

/// Law: `--policy V` followed by the command sets the policy file to `V`
/// and runs the command with its arguments; `V` is never taken for the
/// command.
pub proof fn law_policy_value_is_the_next_argument(prog: Seq<char>, v: Seq<char>, cmd: Seq<char>, rest: Seq<Seq<char>>)
    requires
        is_bare(v),
        is_bare(cmd),
    ensures
        parse_args(seq![prog, long_policy(), v, cmd] + rest) matches Ok(m) && m.policy == Some(v) && m.command
            == seq![cmd] + rest && !m.audit && !m.enforce && m.format is None && m.verbose == 0,
{
    let args = seq![prog, long_policy(), v, cmd] + rest;
    law_long_value_option_acts_like_short(initial_state());
    let s1 = ArgState { pending: Pending::Awaiting(CliArg::Policy), ..initial_state() };
    assert(args[1] == long_policy());
    assert(step(initial_state(), args[1]) == Ok::<ArgState, CliFault>(s1));
    assert(args[2] == v);
    assert(v != seq!['-', '-']) by {
        if v == seq!['-', '-'] {
            assert(v[0] == '-');
        }
    }
    let s2 = ArgState { pending: Pending::Holding(CliArg::Policy, v), ..initial_state() };
    assert(step(s1, v) == Ok::<ArgState, CliFault>(s2));
    assert(args[3] == cmd);
    assert(cmd != seq!['-', '-']) by {
        if cmd == seq!['-', '-'] {
            assert(cmd[0] == '-');
        }
    }
    let s3 = ArgState { policy: Some(v), command: seq![cmd], trailing: true, ..initial_state() };
    assert(step(s2, cmd) == Ok::<ArgState, CliFault>(s3)) by {
        assert(initial_state().command.push(cmd) =~= seq![cmd]);
    }
    lemma_trailing_run(s3, args, 4);
    assert(s3.command + args.subrange(4, args.len() as int) =~= seq![cmd] + rest);
    assert(run(s2, args, 3) == run(s3, args, 4));
    assert(run(s1, args, 2) == run(s2, args, 3));
    assert(parse_args(args) == run(s1, args, 2));
}

/// The character sequences of a list of string slices.
pub open spec fn str_views(v: Seq<&str>) -> Seq<Seq<char>> {
    Seq::new(v.len(), |j: int| v[j]@)
}

impl Cli {
    /// This command line is the one that the final parse state describes.
    pub open spec fn describes(&self, m: ArgState) -> bool {
        &&& self.verbose == m.verbose
        &&& self.audit == m.audit
        &&& self.enforce == m.enforce
        &&& self.format == (match m.format { Some(f) => f, None => Format::Human })
        &&& (match (self.policy, m.policy) {
            (Some(p), Some(q)) => p@ == q,
            (None, None) => true,
            _ => false,
        })
        &&& string_views(self.command@) == m.command
    }

    /// Parses a command line, the program name first.
    pub fn try_parse_from(args: &[String]) -> (r: Result<Cli, CliError>)
        ensures
            match r {
                Ok(cli) => parse_args(string_views(args@)) matches Ok(m) && cli.describes(m),
                Err(e) => parse_args(string_views(args@)) == Err::<ArgState, CliFault>(e.fault()),
            },
    {
        let mut raw: Vec<Vec<char>> = Vec::new();
        let mut i: usize = 0;
        while i < args.len()
            invariant
                i <= args@.len(),
                raw@.len() == i,
                forall|j: int| 0 <= j < i ==> #[trigger] raw@[j]@ == args@[j]@,
            decreases args@.len() - i,
        {
            let v = chars_of(args[i].as_str());
            raw.push(v);
            i = i + 1;
        }
        assert(char_views(raw@) =~= string_views(args@));
        parse_chars(&raw)
    }

    /// Parses a command line that is known to be accepted.
    pub fn parse_from<const N: usize>(args: [&str; N]) -> (cli: Cli)
        requires
            parse_args(str_views(args@)) is Ok,
        ensures
            parse_args(str_views(args@)) matches Ok(m) && cli.describes(m),
    {
        let a = args.as_slice();
        let mut raw: Vec<Vec<char>> = Vec::new();
        let mut i: usize = 0;
        while i < a.len()
            invariant
                a@ == args@,
                i <= a@.len(),
                raw@.len() == i,
                forall|j: int| 0 <= j < i ==> #[trigger] raw@[j]@ == a@[j]@,
            decreases a@.len() - i,
        {
            let v = chars_of(a[i]);
            raw.push(v);
            i = i + 1;
        }
        assert(char_views(raw@) =~= str_views(args@));
        match parse_chars(&raw) {
            Ok(cli) => cli,
            Err(_) => {
                assert(false);
                Cli {
                    verbose: 0,
                    audit: false,
                    enforce: false,
                    format: Format::Human,
                    policy: None,
                    command: Vec::new(),
                }
            },
        }
    }
}

/// The parse state while reading.
struct ParseState {
    verbose: u8,
    audit: bool,
    enforce: bool,
    format: Option<Format>,
    policy: Option<Vec<char>>,
    command: Vec<Vec<char>>,
    pending: Option<CliArg>,
    held: Option<Vec<char>>,
    trailing: bool,
}

impl ParseState {
    spec fn model(&self) -> ArgState {
        ArgState {
            verbose: self.verbose,
            audit: self.audit,
            enforce: self.enforce,
            format: self.format,
            policy: match self.policy {
                Some(p) => Some(p@),
                None => None,
            },
            command: char_views(self.command@),
            pending: match (self.pending, self.held) {
                (None, _) => Pending::Idle,
                (Some(o), None) => Pending::Awaiting(o),
                (Some(o), Some(v)) => Pending::Holding(o, v@),
            },
            trailing: self.trailing,
        }
    }

    /// The pending option is one that takes a value.
    spec fn wf(&self) -> bool {
        self.pending matches Some(o) ==> takes_value(o)
    }
}

/// The exec outcome `r` is the abstract outcome `s`.
spec fn outcome(r: Result<ParseState, CliError>, s: Result<ArgState, CliFault>) -> bool {
    match r {
        Ok(p) => s == Ok::<ArgState, CliFault>(p.model()) && p.wf(),
        Err(e) => s == Err::<ArgState, CliFault>(e.fault()),
    }
}

fn apply_value_exec(st: ParseState, o: CliArg, v: Vec<char>) -> (r: Result<ParseState, CliError>)
    requires
        takes_value(o),
    ensures
        outcome(r, apply_value(st.model(), o, v@)),
{
    let mut st = st;
    if o == CliArg::Format {
        if st.format.is_some() {
            return Err(CliError::ArgumentConflict(o, o));
        }
        let human: Vec<char> = vec!['h', 'u', 'm', 'a', 'n'];
        let json: Vec<char> = vec!['j', 's', 'o', 'n'];
        assert(human@ =~= seq!['h', 'u', 'm', 'a', 'n']);
        assert(json@ =~= seq!['j', 's', 'o', 'n']);
        if chars_eq(v.as_slice(), human.as_slice()) {
            st.format = Some(Format::Human);
        } else if chars_eq(v.as_slice(), json.as_slice()) {
            st.format = Some(Format::Json);
        } else {
            return Err(CliError::InvalidValue(o, string_from_chars(v.as_slice())));
        }
        st.pending = None;
        st.held = None;
        Ok(st)
    } else {
        if st.policy.is_some() {
            return Err(CliError::ArgumentConflict(o, o));
        }
        st.policy = Some(v);
        st.pending = None;
        st.held = None;
        Ok(st)
    }
}

fn resolve_exec(st: ParseState) -> (r: Result<ParseState, CliError>)
    requires
        st.wf(),
    ensures
        outcome(r, resolve(st.model())),
{
    let mut st = st;
    match st.pending {
        None => Ok(st),
        Some(o) => {
            let held = st.held.take();
            match held {
                None => Err(CliError::MissingValue(o)),
                Some(v) => {
                    st.pending = None;
                    let r = apply_value_exec(st, o, v);
                    r
                },
            }
        },
    }
}

fn react_flag_exec(st: ParseState, f: CliArg) -> (r: Result<ParseState, CliError>)
    requires
        st.wf(),
        !takes_value(f),
    ensures
        outcome(r, react_flag(st.model(), f)),
{
    let mut s = match resolve_exec(st) {
        Err(e) => return Err(e),
        Ok(s) => s,
    };
    if f == CliArg::Verbose {
        s.verbose = if s.verbose < 255 { s.verbose + 1 } else { 255 };
        Ok(s)
    } else if f == CliArg::Audit {
        if s.audit {
            Err(CliError::ArgumentConflict(f, f))
        } else {
            s.audit = true;
            Ok(s)
        }
    } else if f == CliArg::Enforce {
        if s.enforce {
            Err(CliError::ArgumentConflict(f, f))
        } else {
            s.enforce = true;
            Ok(s)
        }
    } else if f == CliArg::Help {
        Err(CliError::DisplayHelp)
    } else {
        Err(CliError::DisplayVersion)
    }
}

fn react_option_exec(st: ParseState, o: CliArg, attached: Option<Vec<char>>) -> (r: Result<ParseState, CliError>)
    requires
        st.wf(),
        takes_value(o),
    ensures
        outcome(r, react_option(st.model(), o, match attached { Some(v) => Some(v@), None => None })),
{
    let mut s = match resolve_exec(st) {
        Err(e) => return Err(e),
        Ok(s) => s,
    };
    match attached {
        Some(v) => apply_value_exec(s, o, v),
        None => {
            s.pending = Some(o);
            s.held = None;
            Ok(s)
        },
    }
}

fn short_of(c: char) -> (r: Option<CliArg>)
    ensures
        r == arg_of_short(c),
{
    if c == 'v' {
        Some(CliArg::Verbose)
    } else if c == 'a' {
        Some(CliArg::Audit)
    } else if c == 'e' {
        Some(CliArg::Enforce)
    } else if c == 'f' {
        Some(CliArg::Format)
    } else if c == 'p' {
        Some(CliArg::Policy)
    } else if c == 'h' {
        Some(CliArg::Help)
    } else if c == 'V' {
        Some(CliArg::Version)
    } else {
        None
    }
}

fn is_value_arg(a: CliArg) -> (r: bool)
    ensures
        r == takes_value(a),
{
    a == CliArg::Format || a == CliArg::Policy
}

/// The characters `cs[from..]`.
fn tail_chars(cs: &Vec<char>, from: usize) -> (r: Vec<char>)
    requires
        from <= cs@.len(),
    ensures
        r@ == cs@.subrange(from as int, cs@.len() as int),
{
    let mut r: Vec<char> = Vec::new();
    let mut i = from;
    while i < cs.len()
        invariant
            from <= i <= cs@.len(),
            r@ == cs@.subrange(from as int, i as int),
        decreases cs@.len() - i,
    {
        r.push(cs[i]);
        i = i + 1;
        assert(r@ =~= cs@.subrange(from as int, i as int));
    }
    r
}

/// The characters `cs[from..to]`.
fn slice_chars(cs: &Vec<char>, from: usize, to: usize) -> (r: Vec<char>)
    requires
        from <= to <= cs@.len(),
    ensures
        r@ == cs@.subrange(from as int, to as int),
{
    let mut r: Vec<char> = Vec::new();
    let mut i = from;
    while i < to
        invariant
            from <= i <= to,
            to <= cs@.len(),
            r@ == cs@.subrange(from as int, i as int),
        decreases to - i,
    {
        r.push(cs[i]);
        i = i + 1;
        assert(r@ =~= cs@.subrange(from as int, i as int));
    }
    r
}

fn short_cluster_exec(st0: ParseState, cs: &Vec<char>) -> (r: Result<ParseState, CliError>)
    requires
        st0.wf(),
    ensures
        outcome(r, short_cluster(st0.model(), cs@, 0)),
{
    let ghost start = st0.model();
    let mut st = st0;
    let mut i: usize = 0;
    while i < cs.len()
        invariant
            i <= cs@.len(),
            st.wf(),
            short_cluster(st.model(), cs@, i as nat) == short_cluster(start, cs@, 0),
            start == st0.model(),
        decreases cs@.len() - i,
    {
        let c = cs[i];
        let ghost m = st.model();
        match short_of(c) {
            None => {
                assert(short_cluster(m, cs@, i as nat) == Err::<ArgState, CliFault>(CliFault::UnknownArgument(seq!['-', c])));
                let mut name: Vec<char> = Vec::new();
                name.push('-');
                name.push(c);
                assert(name@ =~= seq!['-', c]);
                return Err(CliError::UnknownArgument(string_from_chars(name.as_slice())));
            },
            Some(a) => {
                if is_value_arg(a) {
                    let rest = tail_chars(cs, i + 1);
                    let attached = if rest.len() == 0 {
                        None
                    } else if rest[0] == '=' {
                        let v = tail_chars(&rest, 1);
                        assert(v@ =~= rest@.drop_first());
                        Some(v)
                    } else {
                        Some(rest)
                    };
                    return react_option_exec(st, a, attached);
                } else {
                    st = match react_flag_exec(st, a) {
                        Err(e) => {
                            assert(short_cluster(m, cs@, i as nat) == Err::<ArgState, CliFault>(e.fault()));
                            return Err(e);
                        },
                        Ok(s) => s,
                    };
                }
            },
        }
        i = i + 1;
    }
    Ok(st)
}

/// The argument that a long name stands for.
fn long_of(name: &Vec<char>) -> (r: Option<CliArg>)
    ensures
        r == arg_of_long(name@),
{
    let verbose: Vec<char> = vec!['v', 'e', 'r', 'b', 'o', 's', 'e'];
    let audit: Vec<char> = vec!['a', 'u', 'd', 'i', 't'];
    let enforce: Vec<char> = vec!['e', 'n', 'f', 'o', 'r', 'c', 'e'];
    let format: Vec<char> = vec!['f', 'o', 'r', 'm', 'a', 't'];
    let policy: Vec<char> = vec!['p', 'o', 'l', 'i', 'c', 'y'];
    let help: Vec<char> = vec!['h', 'e', 'l', 'p'];
    let version: Vec<char> = vec!['v', 'e', 'r', 's', 'i', 'o', 'n'];
    assert(verbose@ =~= seq!['v', 'e', 'r', 'b', 'o', 's', 'e']);
    assert(audit@ =~= seq!['a', 'u', 'd', 'i', 't']);
    assert(enforce@ =~= seq!['e', 'n', 'f', 'o', 'r', 'c', 'e']);
    assert(format@ =~= seq!['f', 'o', 'r', 'm', 'a', 't']);
    assert(policy@ =~= seq!['p', 'o', 'l', 'i', 'c', 'y']);
    assert(help@ =~= seq!['h', 'e', 'l', 'p']);
    assert(version@ =~= seq!['v', 'e', 'r', 's', 'i', 'o', 'n']);
    if chars_eq(name.as_slice(), verbose.as_slice()) {
        Some(CliArg::Verbose)
    } else if chars_eq(name.as_slice(), audit.as_slice()) {
        Some(CliArg::Audit)
    } else if chars_eq(name.as_slice(), enforce.as_slice()) {
        Some(CliArg::Enforce)
    } else if chars_eq(name.as_slice(), format.as_slice()) {
        Some(CliArg::Format)
    } else if chars_eq(name.as_slice(), policy.as_slice()) {
        Some(CliArg::Policy)
    } else if chars_eq(name.as_slice(), help.as_slice()) {
        Some(CliArg::Help)
    } else if chars_eq(name.as_slice(), version.as_slice()) {
        Some(CliArg::Version)
    } else {
        None
    }
}

/// The position of the first `=` in `s`, if any.
fn find_equals(s: &Vec<char>) -> (r: Option<usize>)
    ensures
        match r {
            Some(k) => first_equals(s@, 0) == Some(k as nat) && k < s@.len(),
            None => first_equals(s@, 0) is None,
        },
{
    let mut i: usize = 0;
    while i < s.len()
        invariant
            i <= s@.len(),
            first_equals(s@, 0) == first_equals(s@, i as nat),
        decreases s@.len() - i,
    {
        if s[i] == '=' {
            return Some(i);
        }
        i = i + 1;
    }
    None
}

fn long_arg_exec(st: ParseState, body: &Vec<char>) -> (r: Result<ParseState, CliError>)
    requires
        st.wf(),
    ensures
        outcome(r, long_arg(st.model(), body@)),
{
    let len = body.len();
    let (name, val) = match find_equals(body) {
        Some(k) => (slice_chars(body, 0, k), Some(tail_chars(body, k + 1))),
        None => (slice_chars(body, 0, len), None),
    };
    assert(body@.subrange(0, body@.len() as int) =~= body@);
    match long_of(&name) {
        None => {
            let mut text: Vec<char> = Vec::new();
            text.push('-');
            text.push('-');
            let mut j: usize = 0;
            while j < name.len()
                invariant
                    j <= name@.len(),
                    text@ == seq!['-', '-'] + name@.subrange(0, j as int),
                decreases name@.len() - j,
            {
                text.push(name[j]);
                j = j + 1;
                assert(text@ =~= seq!['-', '-'] + name@.subrange(0, j as int));
            }
            assert(name@.subrange(0, name@.len() as int) =~= name@);
            Err(CliError::UnknownArgument(string_from_chars(text.as_slice())))
        },
        Some(a) => {
            if is_value_arg(a) {
                react_option_exec(st, a, val)
            } else {
                match val {
                    Some(v) => Err(CliError::UnexpectedValue(a, string_from_chars(v.as_slice()))),
                    None => react_flag_exec(st, a),
                }
            }
        },
    }
}

fn positional_exec(st: ParseState, a: Vec<char>) -> (r: Result<ParseState, CliError>)
    requires
        st.wf(),
    ensures
        outcome(r, positional(st.model(), a@)),
{
    let mut s = match resolve_exec(st) {
        Err(e) => return Err(e),
        Ok(s) => s,
    };
    let ghost before = char_views(s.command@);
    let ghost av = a@;
    s.command.push(a);
    assert(char_views(s.command@) =~= before.push(av));
    s.trailing = true;
    Ok(s)
}

fn step_exec(st: ParseState, a: Vec<char>) -> (r: Result<ParseState, CliError>)
    requires
        st.wf(),
    ensures
        outcome(r, step(st.model(), a@)),
{
    let mut st = st;
    if st.trailing {
        return positional_exec(st, a);
    }
    let n = a.len();
    if n == 2 && a[0] == '-' && a[1] == '-' {
        assert(a@ =~= seq!['-', '-']);
        st.trailing = true;
        return Ok(st);
    }
    if n > 2 && a[0] == '-' && a[1] == '-' {
        let body = tail_chars(&a, 2);
        return long_arg_exec(st, &body);
    }
    if n >= 2 && a[0] == '-' {
        let cs = tail_chars(&a, 1);
        return short_cluster_exec(st, &cs);
    }
    match st.pending {
        Some(o) => {
            if st.held.is_none() {
                st.held = Some(a);
                return Ok(st);
            }
            positional_exec(st, a)
        },
        None => positional_exec(st, a),
    }
}

fn finish_exec(st: ParseState) -> (r: Result<ParseState, CliError>)
    requires
        st.wf(),
    ensures
        outcome(r, finish(st.model())),
{
    let s = match resolve_exec(st) {
        Err(e) => return Err(e),
        Ok(s) => s,
    };
    if s.audit && s.enforce {
        Err(CliError::ArgumentConflict(CliArg::Audit, CliArg::Enforce))
    } else if s.command.len() == 0 {
        Err(CliError::MissingCommand)
    } else {
        Ok(s)
    }
}

/// Parses a command line given as character vectors.
fn parse_chars(args: &Vec<Vec<char>>) -> (r: Result<Cli, CliError>)
    ensures
        match r {
            Ok(cli) => parse_args(char_views(args@)) matches Ok(m) && cli.describes(m),
            Err(e) => parse_args(char_views(args@)) == Err::<ArgState, CliFault>(e.fault()),
        },
{
    let ghost views = char_views(args@);
    let mut st = ParseState {
        verbose: 0,
        audit: false,
        enforce: false,
        format: None,
        policy: None,
        command: Vec::new(),
        pending: None,
        held: None,
        trailing: false,
    };
    assert(st.model() =~= initial_state()) by {
        assert(char_views(st.command@) =~= seq![]);
    }
    let mut i: usize = 1;
    while i < args.len()
        invariant
            1 <= i,
            views == char_views(args@),
            st.wf(),
            run(st.model(), views, i as nat) == parse_args(views),
        decreases args@.len() - i,
    {
        let a = tail_chars(&args[i], 0);
        assert(a@ =~= views[i as int]);
        st = match step_exec(st, a) {
            Err(e) => return Err(e),
            Ok(s) => s,
        };
        i = i + 1;
    }
    let s = match finish_exec(st) {
        Err(e) => return Err(e),
        Ok(s) => s,
    };
    let mut command: Vec<String> = Vec::new();
    let mut j: usize = 0;
    while j < s.command.len()
        invariant
            j <= s.command@.len(),
            command@.len() == j,
            forall|k: int| 0 <= k < j ==> #[trigger] command@[k]@ == s.command@[k]@,
        decreases s.command@.len() - j,
    {
        let text = string_from_chars(s.command[j].as_slice());
        command.push(text);
        j = j + 1;
    }
    assert(string_views(command@) =~= char_views(s.command@));
    let policy = match &s.policy {
        Some(p) => Some(string_from_chars(p.as_slice())),
        None => None,
    };
    Ok(Cli {
        verbose: s.verbose,
        audit: s.audit,
        enforce: s.enforce,
        format: match s.format {
            Some(f) => f,
            None => Format::Human,
        },
        policy,
        command,
    })
}

} // verus!
