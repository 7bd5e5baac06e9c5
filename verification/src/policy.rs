//! The sandbox policy: what a traced process may touch, and the verdict on
//! each observed event.
use vstd::prelude::*;
use crate::events::Event;
use crate::path::{path_starts_with, starts_with, law_starts_with_reflexive, law_starts_with_transitive, law_joined_child_lies_beneath};
use crate::text::{chars_of, owned, push_all, string_views};

verus! {

/// Root configuration of a sandbox policy.
#[derive(Debug, Clone)]
pub struct Policy {
    /// File system access rules
    pub fs: FsPolicy,
    /// Network connection rules
    pub net: NetPolicy,
    /// Process spawning and execution rules
    pub process: ProcessPolicy,
    /// Environment variable access rules
    pub env: EnvPolicy,
}

#[derive(Debug, Clone)]
pub struct FsPolicy {
    pub allow_read: Vec<String>,
    pub allow_write: Vec<String>,
    pub allow_execute: Vec<String>,
}

#[derive(Debug, Clone)]
pub struct NetPolicy {
    pub allow_hosts: Vec<String>,
    pub allow_ports: Vec<u16>,
}

#[derive(Debug, Clone)]
pub struct ProcessPolicy {
    pub allow_spawn: Vec<String>,
}

#[derive(Debug, Clone)]
pub struct EnvPolicy {
    pub allow_read: Vec<String>,
}

impl Default for FsPolicy {
    fn default() -> (r: Self)
        ensures
            r.allow_read@.len() == 0,
            r.allow_write@.len() == 0,
            r.allow_execute@.len() == 0,
    {
        FsPolicy { allow_read: Vec::new(), allow_write: Vec::new(), allow_execute: Vec::new() }
    }
}

impl Default for NetPolicy {
    fn default() -> (r: Self)
        ensures
            r.allow_hosts@.len() == 0,
            r.allow_ports@.len() == 0,
    {
        NetPolicy { allow_hosts: Vec::new(), allow_ports: Vec::new() }
    }
}

impl Default for ProcessPolicy {
    fn default() -> (r: Self)
        ensures
            r.allow_spawn@.len() == 0,
    {
        ProcessPolicy { allow_spawn: Vec::new() }
    }
}

impl Default for EnvPolicy {
    fn default() -> (r: Self)
        ensures
            r.allow_read@.len() == 0,
    {
        EnvPolicy { allow_read: Vec::new() }
    }
}

impl Default for Policy {
    /// The empty policy, which allows nothing.
    fn default() -> (r: Self)
        ensures
            r.is_empty(),
    {
        Policy {
            fs: FsPolicy::default(),
            net: NetPolicy::default(),
            process: ProcessPolicy::default(),
            env: EnvPolicy::default(),
        }
    }
}

/// The list entry `*` that admits everything.
pub open spec fn wildcard() -> Seq<char> {
    seq!['*']
}

/// One list entry admits `target`: it is the wildcard, or `target` lies at
/// or beneath it, component by component.
pub open spec fn entry_admits(target: Seq<char>, entry: Seq<char>) -> bool {
    entry == wildcard() || path_starts_with(target, entry)
}

/// Some entry of `list` admits `target`. An empty list admits nothing.
pub open spec fn list_admits(target: Seq<char>, list: Seq<String>) -> bool {
    exists|i: int| 0 <= i < list.len() && #[trigger] entry_admits(target, list[i]@)
}

/// The word that marks a file open as a write.
pub open spec fn write_word() -> Seq<char> {
    seq!['w', 'r', 'i', 't', 'e']
}

/// `word` occurs in `s` as a contiguous piece.
pub open spec fn contains_word(s: Seq<char>, word: Seq<char>) -> bool {
    exists|i: int| 0 <= i && i + word.len() <= s.len() && #[trigger] s.subrange(i, i + word.len()) == word
}

/// A connection to `port` is admitted: an empty port list restricts no
/// port, and port 0 in the list admits every port.
pub open spec fn port_admitted(ports: Seq<u16>, port: u16) -> bool {
    ports.len() == 0 || ports.contains(0u16) || ports.contains(port)
}

/// The host of a connection is admitted: it is listed, or no host is listed
/// while some port is, so that a port list alone (`allow_ports = [443]`)
/// opens those ports to every host. With both lists empty no host passes.
pub open spec fn host_admitted(addr: Seq<char>, hosts: Seq<String>, ports: Seq<u16>) -> bool {
    list_admits(addr, hosts) || (hosts.len() == 0 && ports.len() > 0)
}

impl Policy {
    /// Every list of the policy is empty.
    pub open spec fn is_empty(&self) -> bool {
        &&& self.fs.allow_read@.len() == 0
        &&& self.fs.allow_write@.len() == 0
        &&& self.fs.allow_execute@.len() == 0
        &&& self.net.allow_hosts@.len() == 0
        &&& self.net.allow_ports@.len() == 0
        &&& self.process.allow_spawn@.len() == 0
        &&& self.env.allow_read@.len() == 0
    }

    /// The verdict of the policy on an event: `true` when allowed.
    pub open spec fn allows(&self, event: Event) -> bool {
        match event {
            Event::FileOpen { path, mode } => if contains_word(mode@, write_word()) {
                list_admits(path@, self.fs.allow_write@)
            } else {
                list_admits(path@, self.fs.allow_read@)
            },
            Event::FileWrite { path } => list_admits(path@, self.fs.allow_write@),
            Event::FileDelete { path } => list_admits(path@, self.fs.allow_write@),
            Event::NetConnect { addr, port } => host_admitted(
                addr@,
                self.net.allow_hosts@,
                self.net.allow_ports@,
            ) && port_admitted(self.net.allow_ports@, port),
            Event::DnsLookup { domain } => list_admits(domain@, self.net.allow_hosts@),
            Event::ProcessSpawn { binary, args } => list_admits(binary@, self.process.allow_spawn@),
            Event::ProcessExec { binary } => list_admits(binary@, self.process.allow_spawn@),
            Event::EnvRead { key } => list_admits(key@, self.env.allow_read@),
        }
    }

    /// Evaluates an event against the policy. Returns true if allowed, false
    /// if it is a violation.
    pub fn evaluate(&self, event: &Event) -> (r: bool)
        ensures
            r == self.allows(*event),
    {
        match event {
            Event::FileOpen { path, mode } => {
                if contains_write(mode) {
                    Self::match_prefix_list(path, self.fs.allow_write.as_slice())
                } else {
                    Self::match_prefix_list(path, self.fs.allow_read.as_slice())
                }
            },
            Event::FileWrite { path } => Self::match_prefix_list(path, self.fs.allow_write.as_slice()),
            Event::FileDelete { path } => Self::match_prefix_list(path, self.fs.allow_write.as_slice()),
            Event::NetConnect { addr, port } => {
                let host_allowed = Self::match_prefix_list(addr, self.net.allow_hosts.as_slice())
                    || (self.net.allow_hosts.len() == 0 && self.net.allow_ports.len() > 0);
                let port_allowed = self.net.allow_ports.len() == 0
                    || ports_contain(self.net.allow_ports.as_slice(), 0)
                    || ports_contain(self.net.allow_ports.as_slice(), *port);
                host_allowed && port_allowed
            },
            Event::DnsLookup { domain } => Self::match_prefix_list(domain, self.net.allow_hosts.as_slice()),
            Event::ProcessSpawn { binary, .. } => Self::match_prefix_list(binary, self.process.allow_spawn.as_slice()),
            Event::ProcessExec { binary } => Self::match_prefix_list(binary, self.process.allow_spawn.as_slice()),
            Event::EnvRead { key } => Self::match_prefix_list(key, self.env.allow_read.as_slice()),
        }
    }

    /// Whether some entry of `list` is `*` or a path that `target` lies at or
    /// beneath, comparing whole components (so `/etc` does not admit
    /// `/etc_hacked`).
    pub fn match_prefix_list(target: &str, list: &[String]) -> (r: bool)
        ensures
            r == list_admits(target@, list@),
    {
        if list.len() == 0 {
            return false;
        }
        let mut i: usize = 0;
        while i < list.len()
            invariant
                i <= list@.len(),
                forall|j: int| 0 <= j < i ==> !entry_admits(target@, #[trigger] list@[j]@),
            decreases list@.len() - i,
        {
            let allowed = &list[i];
            let chars = chars_of(allowed.as_str());
            let is_wildcard = chars.len() == 1 && chars[0] == '*';
            assert(is_wildcard == (list@[i as int]@ == wildcard())) by {
                if chars@.len() == 1 && chars@[0] == '*' {
                    assert(chars@ =~= wildcard());
                }
            }
            if is_wildcard {
                assert(entry_admits(target@, list@[i as int]@));
                return true;
            }
            if starts_with(target, allowed.as_str()) {
                assert(entry_admits(target@, list@[i as int]@));
                return true;
            }
            i = i + 1;
        }
        false
    }
}

/// What loading a policy does once it is known whether its file exists.
#[derive(Clone, Copy, Debug, PartialEq, Eq, Structural)]
pub enum PolicyLoad {
    /// Read and parse the file.
    ReadFile,
    /// The file that was named explicitly is missing: an error.
    NotFound,
    /// No file was named and the default one is missing: the policy that
    /// allows everything.
    UseAllowAll,
}

/// Why no policy could be loaded; each carries the file's path.
#[derive(Debug, PartialEq, Eq)]
pub enum PolicyError {
    /// The file that was named does not exist.
    NotFound(String),
    /// The file could not be read.
    Unreadable(String),
    /// The file is not a valid policy.
    Malformed(String),
}

/// The message shown for a policy error.
pub open spec fn policy_error_message(e: PolicyError) -> Seq<char> {
    match e {
        PolicyError::NotFound(p) => "policy file not found at "@ + p@,
        PolicyError::Unreadable(p) => "failed to read policy file: "@ + p@,
        PolicyError::Malformed(p) => "failed to parse policy file: "@ + p@,
    }
}

impl PolicyError {
    /// The message shown for the error.
    pub fn message(&self) -> (m: String)
        ensures
            m@ == policy_error_message(*self),
    {
        let (head, path) = match self {
            PolicyError::NotFound(p) => (owned("policy file not found at "), p),
            PolicyError::Unreadable(p) => (owned("failed to read policy file: "), p),
            PolicyError::Malformed(p) => (owned("failed to parse policy file: "), p),
        };
        let mut m = head;
        push_all(&mut m, path.as_str());
        m
    }
}

/// The file read when no policy file is named.
pub open spec fn default_policy_file() -> Seq<char> {
    "bulx.toml"@
}

impl Policy {
    /// The file the policy is read from: the one named, or `bulx.toml`.
    pub fn source_path(path_opt: Option<&String>) -> (p: String)
        ensures
            p@ == match path_opt {
                Some(s) => s@,
                None => default_policy_file(),
            },
    {
        match path_opt {
            Some(s) => s.clone(),
            None => owned("bulx.toml"),
        }
    }

    /// An existing file is read; a missing file is an error when it was
    /// named, and gives the policy that allows everything when it was the
    /// default one.
    pub fn load_action(explicit: bool, exists: bool) -> (r: PolicyLoad)
        ensures
            r == (if exists {
                PolicyLoad::ReadFile
            } else if explicit {
                PolicyLoad::NotFound
            } else {
                PolicyLoad::UseAllowAll
            }),
    {
        if exists {
            PolicyLoad::ReadFile
        } else if explicit {
            PolicyLoad::NotFound
        } else {
            PolicyLoad::UseAllowAll
        }
    }
}

/// Every list of the policy is the single entry `*`, and port 0 is the
/// single port.
pub open spec fn is_allow_all(p: Policy) -> bool {
    &&& string_views(p.fs.allow_read@) == seq![wildcard()]
    &&& string_views(p.fs.allow_write@) == seq![wildcard()]
    &&& string_views(p.fs.allow_execute@) == seq![wildcard()]
    &&& string_views(p.net.allow_hosts@) == seq![wildcard()]
    &&& p.net.allow_ports@ == seq![0u16]
    &&& string_views(p.process.allow_spawn@) == seq![wildcard()]
    &&& string_views(p.env.allow_read@) == seq![wildcard()]
}

/// The single entry `*`.
fn wildcard_list() -> (v: Vec<String>)
    ensures
        string_views(v@) == seq![wildcard()],
{
    proof {
        reveal_strlit("*");
    }
    let star = owned("*");
    assert(star@ =~= wildcard());
    let v = vec![star];
    assert(string_views(v@) =~= seq![wildcard()]);
    v
}

impl Policy {
    /// The policy used when no file is named and `bulx.toml` is missing: it
    /// allows every event.
    pub fn allow_all() -> (p: Policy)
        ensures
            is_allow_all(p),
    {
        let ports = vec![0u16];
        assert(ports@ =~= seq![0u16]);
        Policy {
            fs: FsPolicy { allow_read: wildcard_list(), allow_write: wildcard_list(), allow_execute: wildcard_list() },
            net: NetPolicy { allow_hosts: wildcard_list(), allow_ports: ports },
            process: ProcessPolicy { allow_spawn: wildcard_list() },
            env: EnvPolicy { allow_read: wildcard_list() },
        }
    }
}

/// A list whose views are the single entry `*` admits every target.
proof fn lemma_wildcard_list_admits(target: Seq<char>, list: Seq<String>)
    requires
        string_views(list) == seq![wildcard()],
    ensures
        list_admits(target, list),
{
    assert(string_views(list).len() == 1);
    assert(list[0]@ == string_views(list)[0]);
    assert(entry_admits(target, list[0]@));
}

/// Law: the policy that allows everything allows every event.
pub proof fn law_allow_all_policy_allows_everything(policy: Policy, event: Event)
    requires
        is_allow_all(policy),
    ensures
        policy.allows(event),
{
    match event {
        Event::FileOpen { path, mode } => {
            lemma_wildcard_list_admits(path@, policy.fs.allow_read@);
            lemma_wildcard_list_admits(path@, policy.fs.allow_write@);
        },
        Event::FileWrite { path } => lemma_wildcard_list_admits(path@, policy.fs.allow_write@),
        Event::FileDelete { path } => lemma_wildcard_list_admits(path@, policy.fs.allow_write@),
        Event::NetConnect { addr, port } => {
            lemma_wildcard_list_admits(addr@, policy.net.allow_hosts@);
            assert(policy.net.allow_ports@[0] == 0u16);
        },
        Event::DnsLookup { domain } => lemma_wildcard_list_admits(domain@, policy.net.allow_hosts@),
        Event::ProcessSpawn { binary, args } => lemma_wildcard_list_admits(binary@, policy.process.allow_spawn@),
        Event::ProcessExec { binary } => lemma_wildcard_list_admits(binary@, policy.process.allow_spawn@),
        Event::EnvRead { key } => lemma_wildcard_list_admits(key@, policy.env.allow_read@),
    }
}

/// Law: the empty policy (the default) denies every event.
pub proof fn law_empty_policy_denies_everything(policy: Policy, event: Event)
    requires
        policy.is_empty(),
    ensures
        !policy.allows(event),
{
}

/// Law: a list that holds `*` admits every target.
pub proof fn law_wildcard_admits_everything(target: Seq<char>, list: Seq<String>, i: int)
    requires
        0 <= i < list.len(),
        list[i]@ == wildcard(),
    ensures
        list_admits(target, list),
{
    assert(entry_admits(target, list[i]@));
}

/// Law: a list that names a path admits that path itself.
pub proof fn law_listed_path_is_admitted(target: Seq<char>, list: Seq<String>, i: int)
    requires
        0 <= i < list.len(),
        list[i]@ == target,
    ensures
        list_admits(target, list),
{
    law_starts_with_reflexive(target);
    assert(entry_admits(target, list[i]@));
}

/// Law: whatever lies beneath an admitted path is admitted too.
pub proof fn law_admitted_beneath(target: Seq<char>, deeper: Seq<char>, list: Seq<String>)
    requires
        list_admits(target, list),
        path_starts_with(deeper, target),
    ensures
        list_admits(deeper, list),
{
    let i = choose|i: int| 0 <= i < list.len() && #[trigger] entry_admits(target, list[i]@);
    if list[i]@ != wildcard() {
        law_starts_with_transitive(deeper, target, list[i]@);
    }
    assert(entry_admits(deeper, list[i]@));
}

/// Law: a child joined onto an admitted path with a separator is admitted.
pub proof fn law_admitted_child(target: Seq<char>, child: Seq<char>, list: Seq<String>)
    requires
        list_admits(target, list),
    ensures
        list_admits(target + seq!['/'] + child, list),
{
    law_joined_child_lies_beneath(target, child);
    law_admitted_beneath(target, target + seq!['/'] + child, list);
}

/// Law: port 0 in the port list admits a connection on every port.
pub proof fn law_port_zero_admits_every_port(ports: Seq<u16>, port: u16)
    requires
        ports.contains(0u16),
    ensures
        port_admitted(ports, port),
{
}

/// Law: without a port list, the host alone decides a connection.
pub proof fn law_no_port_list_leaves_ports_open(ports: Seq<u16>, port: u16)
    requires
        ports.len() == 0,
    ensures
        port_admitted(ports, port),
{
}

/// Law: a connection is allowed exactly when its host is admitted and its
/// port is admitted.
pub proof fn law_connection_needs_host_and_port(policy: Policy, addr: String, port: u16)
    ensures
        policy.allows(Event::NetConnect { addr, port }) == (host_admitted(
            addr@,
            policy.net.allow_hosts@,
            policy.net.allow_ports@,
        ) && port_admitted(policy.net.allow_ports@, port)),
{
}

/// Law: a policy that lists ports and no host admits a connection to any
/// host on a listed port, and none on a port it does not list (unless it
/// lists port 0).
pub proof fn law_ports_only_policy_admits_any_host(policy: Policy, addr: String, port: u16)
    requires
        policy.net.allow_hosts@.len() == 0,
        policy.net.allow_ports@.len() > 0,
    ensures
        policy.allows(Event::NetConnect { addr, port }) == (policy.net.allow_ports@.contains(0u16)
            || policy.net.allow_ports@.contains(port)),
{
}

/// Law: a policy with neither hosts nor ports listed admits no connection.
pub proof fn law_no_network_lists_deny_connections(policy: Policy, addr: String, port: u16)
    requires
        policy.net.allow_hosts@.len() == 0,
        policy.net.allow_ports@.len() == 0,
    ensures
        !policy.allows(Event::NetConnect { addr, port }),
{
}

/// Whether `mode` contains the word `write`.
fn contains_write(mode: &str) -> (r: bool)
    ensures
        r == contains_word(mode@, write_word()),
{
    let m = chars_of(mode);
    let w: Vec<char> = vec!['w', 'r', 'i', 't', 'e'];
    assert(w@ =~= write_word());
    if m.len() < 5 {
        assert(!contains_word(mode@, write_word()));
        return false;
    }
    let mut i: usize = 0;
    while i <= m.len() - 5
        invariant
            m@ == mode@,
            w@ == write_word(),
            m@.len() >= 5,
            i <= m@.len() - 4,
            forall|k: int| 0 <= k < i ==> #[trigger] m@.subrange(k, k + 5) != write_word(),
        decreases m@.len() - i,
    {
        let mut j: usize = 0;
        let mut same = true;
        while j < 5
            invariant
                i + 5 <= m.len(),
                m@.len() == m.len(),
                w@ == write_word(),
                j <= 5,
                same == (forall|k: int| 0 <= k < j ==> m@[i + k] == w@[k]),
            decreases 5 - j,
        {
            if m[i + j] != w[j] {
                same = false;
            }
            j = j + 1;
        }
        if same {
            assert(m@.subrange(i as int, i + 5) =~= write_word());
            return true;
        }
        assert(m@.subrange(i as int, i + 5) != write_word()) by {
            let k = choose|k: int| 0 <= k < 5 && m@[i + k] != w@[k];
            assert(m@.subrange(i as int, i + 5)[k] != write_word()[k]);
        }
        i = i + 1;
    }
    false
}

/// Whether `port` is in the list.
fn ports_contain(ports: &[u16], port: u16) -> (r: bool)
    ensures
        r == ports@.contains(port),
{
    let mut i: usize = 0;
    while i < ports.len()
        invariant
            i <= ports@.len(),
            forall|j: int| 0 <= j < i ==> ports@[j] != port,
        decreases ports@.len() - i,
    {
        if ports[i] == port {
            assert(ports@[i as int] == port);
            return true;
        }
        i = i + 1;
    }
    false
}

/// Law: a word occurs in any text that holds it, wherever it stands: at
/// the start, in the middle or at the end.
pub proof fn law_word_found_anywhere(before: Seq<char>, word: Seq<char>, after: Seq<char>)
    ensures
        contains_word(before + word + after, word),
{
    let s = before + word + after;
    let i = before.len() as int;
    assert(s.subrange(i, i + word.len()) =~= word);
}

/// Law: a word occurs only where its letters stand one after another in
/// the text; in particular, never in a shorter text.
pub proof fn law_word_found_only_where_it_stands(s: Seq<char>, word: Seq<char>)
    ensures
        contains_word(s, word) <==> exists|before: Seq<char>, after: Seq<char>| s == before + word + after,
        s.len() < word.len() ==> !contains_word(s, word),
{
    if contains_word(s, word) {
        let i = choose|i: int| 0 <= i && i + word.len() <= s.len() && #[trigger] s.subrange(i, i + word.len()) == word;
        let before = s.subrange(0, i);
        let after = s.subrange(i + word.len(), s.len() as int);
        assert(s =~= before + word + after);
    }
    if exists|before: Seq<char>, after: Seq<char>| s == before + word + after {
        let (before, after) = choose|before: Seq<char>, after: Seq<char>| s == before + word + after;
        law_word_found_anywhere(before, word, after);
    }
}

/// Law: opening a file with a mode that holds the word `write`, anywhere in
/// it, is judged by the write list alone; any other mode by the read list.
pub proof fn law_write_mode_is_judged_by_write_list(policy: Policy, path: String, mode: String, before: Seq<char>, after: Seq<char>)
    ensures
        mode@ == before + write_word() + after ==> policy.allows(Event::FileOpen { path, mode }) == list_admits(
            path@,
            policy.fs.allow_write@,
        ),
        (forall|b: Seq<char>, a: Seq<char>| mode@ != b + write_word() + a) ==> policy.allows(
            Event::FileOpen { path, mode },
        ) == list_admits(path@, policy.fs.allow_read@),
{
    law_word_found_only_where_it_stands(mode@, write_word());
}

} // verus!
