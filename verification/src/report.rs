//! The audit report: each observed event is judged against the policy,
//! counted, and shown as a line (human format) or kept for the JSON document.
use vstd::prelude::*;
use crate::cli::Format;
use crate::events::Event;
use crate::policy::Policy;
use crate::text::{decimal, decimal_string, owned, push_all, string_views};

verus! {

/// The `{:?}` text of a list of strings (std's `Debug` for `Vec<String>`).
pub uninterp spec fn debug_list_text(items: Seq<Seq<char>>) -> Seq<char>;

/// Formats a list of strings with std's `Debug`.
#[verifier::external_body]
fn debug_list(items: &Vec<String>) -> (r: String)
    ensures
        r@ == debug_list_text(string_views(items@)),
{
    format!("{:?}", items)
}

/// The status column of a line.
pub open spec fn status_label(allowed: bool) -> Seq<char> {
    if allowed {
        "[OK]      "@
    } else {
        "[VIOLATION]"@
    }
}

/// The line that shows one event.
pub open spec fn event_line(allowed: bool, event: Event) -> Seq<char> {
    let head = "  "@ + status_label(allowed);
    match event {
        Event::FileOpen { path, mode } => head + " [FILE OPEN]  "@ + path@ + " ("@ + mode@ + ")"@,
        Event::FileWrite { path } => head + " [FILE WRITE] "@ + path@,
        Event::FileDelete { path } => head + " [FILE DEL]   "@ + path@,
        Event::NetConnect { addr, port } => head + " [NET CONN]   "@ + addr@ + ":"@ + decimal(port as nat),
        Event::DnsLookup { domain } => head + " [DNS]        "@ + domain@,
        Event::ProcessSpawn { binary, args } => head + " [PROC SPAWN] "@ + binary@ + " "@
            + debug_list_text(string_views(args@)),
        Event::ProcessExec { binary } => head + " [PROC EXEC]  "@ + binary@,
        Event::EnvRead { key } => head + " [ENV READ]   "@ + key@,
    }
}

/// Whether a line is shown for an event: in the human format, every
/// violation, and allowed events too when verbose.
pub open spec fn shows_line(format: Format, verbose: u8, allowed: bool) -> bool {
    format == Format::Human && (!allowed || verbose > 0)
}

/// How many verdicts are violations.
pub open spec fn count_violations(verdicts: Seq<bool>) -> nat
    decreases verdicts.len(),
{
    if verdicts.len() == 0 {
        0
    } else {
        count_violations(verdicts.drop_last()) + if verdicts.last() { 0nat } else { 1nat }
    }
}

/// Builds the line that shows one event.
pub fn format_event_line(allowed: bool, event: &Event) -> (line: String)
    ensures
        line@ == event_line(allowed, *event),
{
    let mut s = owned("  ");
    if allowed {
        push_all(&mut s, "[OK]      ");
    } else {
        push_all(&mut s, "[VIOLATION]");
    }
    match event {
        Event::FileOpen { path, mode } => {
            push_all(&mut s, " [FILE OPEN]  ");
            push_all(&mut s, path.as_str());
            push_all(&mut s, " (");
            push_all(&mut s, mode.as_str());
            push_all(&mut s, ")");
        },
        Event::FileWrite { path } => {
            push_all(&mut s, " [FILE WRITE] ");
            push_all(&mut s, path.as_str());
        },
        Event::FileDelete { path } => {
            push_all(&mut s, " [FILE DEL]   ");
            push_all(&mut s, path.as_str());
        },
        Event::NetConnect { addr, port } => {
            push_all(&mut s, " [NET CONN]   ");
            push_all(&mut s, addr.as_str());
            push_all(&mut s, ":");
            let digits = decimal_string(*port as u64);
            push_all(&mut s, digits.as_str());
        },
        Event::DnsLookup { domain } => {
            push_all(&mut s, " [DNS]        ");
            push_all(&mut s, domain.as_str());
        },
        Event::ProcessSpawn { binary, args } => {
            push_all(&mut s, " [PROC SPAWN] ");
            push_all(&mut s, binary.as_str());
            push_all(&mut s, " ");
            let list = debug_list(args);
            push_all(&mut s, list.as_str());
        },
        Event::ProcessExec { binary } => {
            push_all(&mut s, " [PROC EXEC]  ");
            push_all(&mut s, binary.as_str());
        },
        Event::EnvRead { key } => {
            push_all(&mut s, " [ENV READ]   ");
            push_all(&mut s, key.as_str());
        },
    }
    assert(s@ =~= event_line(allowed, *event));
    s
}

/// One event of the JSON document, with its verdict.
#[derive(Debug)]
pub struct ReportEntry {
    pub is_violation: bool,
    pub event: Event,
}

/// The JSON document of an audit.
#[derive(Debug)]
pub struct JsonReport {
    pub policy_loaded: bool,
    pub violations: usize,
    pub events: Vec<ReportEntry>,
}

/// The running audit report.
pub struct AuditReport {
    format: Format,
    verbose: u8,
    total: usize,
    violations: usize,
    entries: Vec<ReportEntry>,
    events: Ghost<Seq<Event>>,
    verdicts: Ghost<Seq<bool>>,
}

impl AuditReport {
    /// The events recorded so far, in order.
    pub closed spec fn recorded(&self) -> Seq<Event> {
        self.events@
    }

    /// The verdict on each recorded event (`true` when allowed).
    pub closed spec fn verdicts(&self) -> Seq<bool> {
        self.verdicts@
    }

    pub closed spec fn format_spec(&self) -> Format {
        self.format
    }

    pub closed spec fn verbose_spec(&self) -> u8 {
        self.verbose
    }

    /// The entries kept for the JSON document.
    pub closed spec fn entries_spec(&self) -> Seq<ReportEntry> {
        self.entries@
    }

    /// The counters agree with the recorded verdicts, and in the JSON format
    /// every recorded event is kept with its verdict.
    pub closed spec fn wf(&self) -> bool {
        &&& self.events@.len() == self.verdicts@.len()
        &&& self.total == self.verdicts@.len()
        &&& self.violations == count_violations(self.verdicts@)
        &&& if self.format == Format::Json {
            &&& self.entries@.len() == self.events@.len()
            &&& forall|i: int| 0 <= i < self.entries@.len() ==> {
                &&& (#[trigger] self.entries@[i]).event == self.events@[i]
                &&& self.entries@[i].is_violation == !self.verdicts@[i]
            }
        } else {
            self.entries@.len() == 0
        }
    }

    /// An empty report.
    pub fn new(format: Format, verbose: u8) -> (r: AuditReport)
        ensures
            r.wf(),
            r.format_spec() == format,
            r.verbose_spec() == verbose,
            r.recorded() == Seq::<Event>::empty(),
            r.verdicts() == Seq::<bool>::empty(),
    {
        AuditReport {
            format,
            verbose,
            total: 0,
            violations: 0,
            entries: Vec::new(),
            events: Ghost(Seq::empty()),
            verdicts: Ghost(Seq::empty()),
        }
    }

    /// The first line of the human report.
    pub fn header(&self) -> (line: Option<String>)
        ensures
            match line {
                Some(l) => self.format_spec() == Format::Human && l@ == "\n=== Bulx Audit Report ==="@,
                None => self.format_spec() != Format::Human,
            },
    {
        if self.format == Format::Human {
            Some(owned("\n=== Bulx Audit Report ==="))
        } else {
            None
        }
    }

    /// How many events were recorded.
    pub fn total(&self) -> (n: usize)
        requires
            self.wf(),
        ensures
            n == self.recorded().len(),
    {
        self.total
    }

    /// How many recorded events were violations.
    pub fn violations(&self) -> (n: usize)
        requires
            self.wf(),
        ensures
            n == count_violations(self.verdicts()),
    {
        self.violations
    }

    /// Judges one event, counts it, and returns the line that shows it, if any.
    pub fn record(&mut self, policy: &Policy, event: Event) -> (line: Option<String>)
        requires
            old(self).wf(),
            old(self).recorded().len() < usize::MAX,
        ensures
            final(self).wf(),
            final(self).format_spec() == old(self).format_spec(),
            final(self).verbose_spec() == old(self).verbose_spec(),
            final(self).recorded() == old(self).recorded().push(event),
            final(self).verdicts() == old(self).verdicts().push(policy.allows(event)),
            match line {
                Some(l) => shows_line(old(self).format_spec(), old(self).verbose_spec(), policy.allows(event))
                    && l@ == event_line(policy.allows(event), event),
                None => !shows_line(old(self).format_spec(), old(self).verbose_spec(), policy.allows(event)),
            },
    {
        let allowed = policy.evaluate(&event);
        let ghost old_verdicts = self.verdicts@;
        proof {
            law_violations_at_most_total(old_verdicts);
        }
        self.total = self.total + 1;
        assert(old_verdicts.push(allowed).drop_last() =~= old_verdicts);
        if !allowed {
            self.violations = self.violations + 1;
        }
        self.verdicts = Ghost(self.verdicts@.push(allowed));
        self.events = Ghost(self.events@.push(event));
        if self.format == Format::Json {
            self.entries.push(ReportEntry { is_violation: !allowed, event });
            None
        } else if allowed && self.verbose == 0 {
            None
        } else {
            Some(format_event_line(allowed, &event))
        }
    }

    /// The closing lines of the human report.
    pub fn summary_lines(&self) -> (lines: Vec<String>)
        requires
            self.wf(),
        ensures
            self.format_spec() != Format::Human ==> lines@.len() == 0,
            self.format_spec() == Format::Human ==> string_views(lines@) == summary_text(
                self.recorded().len(),
                count_violations(self.verdicts()),
            ),
    {
        let mut lines: Vec<String> = Vec::new();
        if self.format != Format::Human {
            return lines;
        }
        if self.total == 0 {
            lines.push(owned("No significant events recorded."));
            lines.push(owned("========================="));
        } else if self.violations > 0 {
            lines.push(owned("-------------------------"));
            let mut found = owned("!! Found ");
            let n = decimal_string(self.violations as u64);
            push_all(&mut found, n.as_str());
            push_all(&mut found, " policy violations !!");
            lines.push(found);
            lines.push(owned("========================="));
        } else {
            lines.push(owned("-------------------------"));
            lines.push(owned("No policy violations detected."));
            lines.push(owned("========================="));
        }
        assert(string_views(lines@) =~= summary_text(self.recorded().len(), count_violations(self.verdicts())));
        lines
    }

    /// The JSON document: every recorded event with its verdict, in order,
    /// and the number of violations.
    pub fn into_json_report(self) -> (r: JsonReport)
        requires
            self.wf(),
            self.format_spec() == Format::Json,
        ensures
            r.policy_loaded,
            r.violations == count_violations(self.verdicts()),
            r.events@.len() == self.recorded().len(),
            forall|i: int| 0 <= i < r.events@.len() ==> {
                &&& (#[trigger] r.events@[i]).event == self.recorded()[i]
                &&& r.events@[i].is_violation == !self.verdicts()[i]
            },
    {
        JsonReport { policy_loaded: true, violations: self.violations, events: self.entries }
    }
}

/// The closing lines of a human report after `total` events, `violations` of
/// them violations.
pub open spec fn summary_text(total: nat, violations: nat) -> Seq<Seq<char>> {
    if total == 0 {
        seq!["No significant events recorded."@, "========================="@]
    } else if violations > 0 {
        seq![
            "-------------------------"@,
            "!! Found "@ + decimal(violations) + " policy violations !!"@,
            "========================="@,
        ]
    } else {
        seq!["-------------------------"@, "No policy violations detected."@, "========================="@]
    }
}

/// Law: a quiet human report shows a line for exactly the violations; a
/// verbose one shows every event; the JSON format shows no line while the
/// events arrive.
pub proof fn law_which_events_show_a_line(verbose: u8, allowed: bool)
    ensures
        shows_line(Format::Human, 0, allowed) == !allowed,
        verbose > 0 ==> shows_line(Format::Human, verbose, allowed),
        !shows_line(Format::Json, verbose, allowed),
{
}

/// Law: violations never outnumber the recorded events.
pub proof fn law_violations_at_most_total(verdicts: Seq<bool>)
    ensures
        count_violations(verdicts) <= verdicts.len(),
    decreases verdicts.len(),
{
    if verdicts.len() > 0 {
        law_violations_at_most_total(verdicts.drop_last());
    }
}

/// Law: a report under a policy that allows every recorded event counts no
/// violation.
pub proof fn law_no_violation_when_all_allowed(verdicts: Seq<bool>)
    requires
        forall|i: int| 0 <= i < verdicts.len() ==> #[trigger] verdicts[i],
    ensures
        count_violations(verdicts) == 0,
    decreases verdicts.len(),
{
    if verdicts.len() > 0 {
        let rest = verdicts.drop_last();
        assert forall|i: int| 0 <= i < rest.len() implies #[trigger] rest[i] by {
            assert(rest[i] == verdicts[i]);
        }
        law_no_violation_when_all_allowed(rest);
    }
}

/// Law: recording a violation adds one to the count, and recording an
/// allowed event leaves it.
pub proof fn law_each_violation_counts_once(verdicts: Seq<bool>)
    ensures
        count_violations(verdicts.push(false)) == count_violations(verdicts) + 1,
        count_violations(verdicts.push(true)) == count_violations(verdicts),
{
    assert(verdicts.push(false).drop_last() =~= verdicts);
    assert(verdicts.push(true).drop_last() =~= verdicts);
}

/// Law: the count of violations is the number of verdicts that deny.
pub proof fn law_violations_are_the_denials(verdicts: Seq<bool>)
    ensures
        count_violations(verdicts) == verdicts.filter(|b: bool| !b).len(),
    decreases verdicts.len(),
{
    reveal(Seq::filter);
    if verdicts.len() > 0 {
        law_violations_are_the_denials(verdicts.drop_last());
    }
}

} // verus!
