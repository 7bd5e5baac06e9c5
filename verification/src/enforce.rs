//! The kernel sandbox that a policy asks for: which file system paths get
//! read or write access, whether the network is restricted, and which TCP
//! ports stay open. The sandbox governs TCP by port; while it restricts the
//! network, the system call filter (`seccomp`) refuses every other kind of
//! network socket. Applying the plan is left to the caller, in the child
//! process.
use vstd::prelude::*;
use crate::policy::Policy;
use crate::text::{owned, string_views};

verus! {

/// The file system access rights of the sandbox ABI (Landlock's fourth).
#[derive(Clone, Copy, Debug, PartialEq, Eq, Structural)]
pub enum FsRight {
    Execute,
    WriteFile,
    ReadFile,
    ReadDir,
    RemoveDir,
    RemoveFile,
    MakeChar,
    MakeDir,
    MakeReg,
    MakeSock,
    MakeFifo,
    MakeBlock,
    MakeSym,
    Refer,
    /// Truncating a file: without it a readable file could still be emptied.
    Truncate,
}

/// Every right of the sandbox ABI: the sandbox handles all of them.
pub open spec fn all_rights_spec() -> Seq<FsRight> {
    seq![
        FsRight::Execute,
        FsRight::WriteFile,
        FsRight::ReadFile,
        FsRight::ReadDir,
        FsRight::RemoveDir,
        FsRight::RemoveFile,
        FsRight::MakeChar,
        FsRight::MakeDir,
        FsRight::MakeReg,
        FsRight::MakeSock,
        FsRight::MakeFifo,
        FsRight::MakeBlock,
        FsRight::MakeSym,
        FsRight::Refer,
        FsRight::Truncate,
    ]
}

/// The rights that count as writing, each once.
pub open spec fn write_rights_spec() -> Seq<FsRight> {
    seq![
        FsRight::WriteFile,
        FsRight::RemoveDir,
        FsRight::RemoveFile,
        FsRight::MakeChar,
        FsRight::MakeDir,
        FsRight::MakeReg,
        FsRight::MakeSock,
        FsRight::MakeFifo,
        FsRight::MakeBlock,
        FsRight::MakeSym,
        FsRight::Truncate,
    ]
}

/// The rights granted beneath a readable path: every right of the ABI but
/// the write rights.
pub open spec fn read_rights_spec() -> Seq<FsRight> {
    seq![
        FsRight::Execute,
        FsRight::ReadFile,
        FsRight::ReadDir,
        FsRight::Refer,
    ]
}

/// Every right of the sandbox ABI.
pub fn all_rights() -> (r: Vec<FsRight>)
    ensures
        r@ == all_rights_spec(),
{
    let r = vec![
        FsRight::Execute,
        FsRight::WriteFile,
        FsRight::ReadFile,
        FsRight::ReadDir,
        FsRight::RemoveDir,
        FsRight::RemoveFile,
        FsRight::MakeChar,
        FsRight::MakeDir,
        FsRight::MakeReg,
        FsRight::MakeSock,
        FsRight::MakeFifo,
        FsRight::MakeBlock,
        FsRight::MakeSym,
        FsRight::Refer,
        FsRight::Truncate,
    ];
    assert(r@ =~= all_rights_spec());
    r
}

/// The rights that count as writing.
pub fn write_rights() -> (r: Vec<FsRight>)
    ensures
        r@ == write_rights_spec(),
{
    let r = vec![
        FsRight::WriteFile,
        FsRight::RemoveDir,
        FsRight::RemoveFile,
        FsRight::MakeChar,
        FsRight::MakeDir,
        FsRight::MakeReg,
        FsRight::MakeSock,
        FsRight::MakeFifo,
        FsRight::MakeBlock,
        FsRight::MakeSym,
        FsRight::Truncate,
    ];
    assert(r@ =~= write_rights_spec());
    r
}

/// The rights granted beneath a readable path.
pub fn read_rights() -> (r: Vec<FsRight>)
    ensures
        r@ == read_rights_spec(),
{
    let r = vec![
        FsRight::Execute,
        FsRight::ReadFile,
        FsRight::ReadDir,
        FsRight::Refer,
    ];
    assert(r@ =~= read_rights_spec());
    r
}

/// Law: every right of the ABI is a read right or a write right, and none
/// is both: a readable path grants no right to modify a file.
pub proof fn law_read_and_write_rights_split_the_abi(x: FsRight)
    ensures
        all_rights_spec().contains(x),
        read_rights_spec().contains(x) != write_rights_spec().contains(x),
{
    match x {
        FsRight::Execute => assert(read_rights_spec()[0] == x),
        FsRight::WriteFile => assert(write_rights_spec()[0] == x),
        FsRight::ReadFile => assert(read_rights_spec()[1] == x),
        FsRight::ReadDir => assert(read_rights_spec()[2] == x),
        FsRight::RemoveDir => assert(write_rights_spec()[1] == x),
        FsRight::RemoveFile => assert(write_rights_spec()[2] == x),
        FsRight::MakeChar => assert(write_rights_spec()[3] == x),
        FsRight::MakeDir => assert(write_rights_spec()[4] == x),
        FsRight::MakeReg => assert(write_rights_spec()[5] == x),
        FsRight::MakeSock => assert(write_rights_spec()[6] == x),
        FsRight::MakeFifo => assert(write_rights_spec()[7] == x),
        FsRight::MakeBlock => assert(write_rights_spec()[8] == x),
        FsRight::MakeSym => assert(write_rights_spec()[9] == x),
        FsRight::Refer => assert(read_rights_spec()[3] == x),
        FsRight::Truncate => assert(write_rights_spec()[10] == x),
    }
    assert(all_rights_spec().contains(x)) by {
        match x {
            FsRight::Execute => assert(all_rights_spec()[0] == x),
            FsRight::WriteFile => assert(all_rights_spec()[1] == x),
            FsRight::ReadFile => assert(all_rights_spec()[2] == x),
            FsRight::ReadDir => assert(all_rights_spec()[3] == x),
            FsRight::RemoveDir => assert(all_rights_spec()[4] == x),
            FsRight::RemoveFile => assert(all_rights_spec()[5] == x),
            FsRight::MakeChar => assert(all_rights_spec()[6] == x),
            FsRight::MakeDir => assert(all_rights_spec()[7] == x),
            FsRight::MakeReg => assert(all_rights_spec()[8] == x),
            FsRight::MakeSock => assert(all_rights_spec()[9] == x),
            FsRight::MakeFifo => assert(all_rights_spec()[10] == x),
            FsRight::MakeBlock => assert(all_rights_spec()[11] == x),
            FsRight::MakeSym => assert(all_rights_spec()[12] == x),
            FsRight::Refer => assert(all_rights_spec()[13] == x),
            FsRight::Truncate => assert(all_rights_spec()[14] == x),
        }
    }
}

/// The sandbox that a policy asks for.
#[derive(Debug)]
pub struct SandboxConfig {
    /// The network is restricted (unless port 0 allows every port): TCP
    /// connect and bind only on `ports`, and no other network socket.
    pub handle_net: bool,
    /// Paths beneath which reading is allowed.
    pub read_paths: Vec<String>,
    /// Paths beneath which writing is allowed.
    pub write_paths: Vec<String>,
    /// Ports on which TCP connect and bind are allowed.
    pub ports: Vec<u16>,
}

/// The paths whose flag is set, in order.
pub open spec fn flagged(paths: Seq<Seq<char>>, flags: Seq<bool>) -> Seq<Seq<char>>
    decreases paths.len(),
{
    if paths.len() == 0 || flags.len() == 0 {
        seq![]
    } else {
        let rest = flagged(paths.drop_last(), flags.drop_last());
        if flags.last() { rest.push(paths.last()) } else { rest }
    }
}

/// The paths granted by one allow list: the root when the list holds `*`,
/// else the listed paths that exist.
pub open spec fn granted_paths(list: Seq<String>, exists: Seq<bool>) -> Seq<Seq<char>> {
    if string_views(list).contains(seq!['*']) {
        seq![seq!['/']]
    } else {
        flagged(string_views(list), exists)
    }
}

impl SandboxConfig {
    /// This configuration is the one that `policy` asks for, given which of
    /// its read and write paths exist.
    pub open spec fn planned_for(&self, policy: Policy, read_exists: Seq<bool>, write_exists: Seq<bool>) -> bool {
        let ports = policy.net.allow_ports@;
        &&& self.handle_net == !ports.contains(0u16)
        &&& string_views(self.read_paths@) == granted_paths(policy.fs.allow_read@, read_exists)
        &&& string_views(self.write_paths@) == granted_paths(policy.fs.allow_write@, write_exists)
        &&& self.ports@ == (if ports.len() > 0 && !ports.contains(0u16) { ports } else { seq![] })
    }
}

/// Whether the list holds the entry `*`.
fn holds_wildcard(list: &Vec<String>) -> (r: bool)
    ensures
        r == string_views(list@).contains(seq!['*']),
{
    let mut i: usize = 0;
    while i < list.len()
        invariant
            i <= list@.len(),
            forall|j: int| 0 <= j < i ==> list@[j]@ != seq!['*'],
        decreases list@.len() - i,
    {
        let c = crate::text::chars_of(list[i].as_str());
        if c.len() == 1 && c[0] == '*' {
            assert(c@ =~= seq!['*']);
            assert(string_views(list@)[i as int] == seq!['*']);
            return true;
        }
        assert(list@[i as int]@ != seq!['*']) by {
            if list@[i as int]@ == seq!['*'] {
                assert(c@.len() == 1 && c@[0] == '*');
            }
        }
        i = i + 1;
    }
    assert(!string_views(list@).contains(seq!['*'])) by {
        if string_views(list@).contains(seq!['*']) {
            let k = choose|k: int| 0 <= k < string_views(list@).len() && string_views(list@)[k] == seq!['*'];
            assert(list@[k]@ == seq!['*']);
        }
    }
    false
}

/// The paths granted by one allow list.
fn grant(list: &Vec<String>, exists: &[bool]) -> (r: Vec<String>)
    requires
        exists@.len() == list@.len(),
    ensures
        string_views(r@) == granted_paths(list@, exists@),
{
    if holds_wildcard(list) {
        proof {
            reveal_strlit("/");
        }
        let root = owned("/");
        assert(root@ =~= seq!['/']);
        let mut r: Vec<String> = Vec::new();
        r.push(root);
        assert(string_views(r@) =~= seq![seq!['/']]);
        return r;
    }
    let mut r: Vec<String> = Vec::new();
    let mut i: usize = 0;
    while i < list.len()
        invariant
            exists@.len() == list@.len(),
            i <= list@.len(),
            string_views(r@) == flagged(string_views(list@).subrange(0, i as int), exists@.subrange(0, i as int)),
        decreases list@.len() - i,
    {
        let ghost before = string_views(r@);
        if exists[i] {
            let p = owned(list[i].as_str());
            r.push(p);
            assert(string_views(r@) =~= before.push(list@[i as int]@));
        }
        i = i + 1;
        assert(string_views(list@).subrange(0, i as int).drop_last() =~= string_views(list@).subrange(0, i - 1));
        assert(exists@.subrange(0, i as int).drop_last() =~= exists@.subrange(0, i - 1));
    }
    assert(string_views(list@).subrange(0, i as int) =~= string_views(list@));
    assert(exists@.subrange(0, i as int) =~= exists@);
    r
}

/// Whether the port list holds `port`.
fn has_port(ports: &Vec<u16>, port: u16) -> (r: bool)
    ensures
        r == ports@.contains(port),
{
    let mut i: usize = 0;
    while i < ports.len()
        invariant
            i <= ports@.len(),
            forall|j: int| 0 <= j < i ==> ports@[j] != port,
        decreases ports@.len() - i,
    {
        if ports[i] == port {
            assert(ports@[i as int] == port);
            return true;
        }
        i = i + 1;
    }
    false
}

/// Plans the sandbox for a policy: TCP is restricted unless port 0 allows
/// every port; reading and writing are granted beneath `/` when the list
/// holds `*`, else beneath each listed path that exists; every listed port
/// is opened when TCP is restricted. `read_exists[i]` tells whether
/// `policy.fs.allow_read[i]` exists, and likewise for writing.
pub fn prepare_sandbox(policy: &Policy, read_exists: &[bool], write_exists: &[bool]) -> (c: SandboxConfig)
    requires
        read_exists@.len() == policy.fs.allow_read@.len(),
        write_exists@.len() == policy.fs.allow_write@.len(),
    ensures
        c.planned_for(*policy, read_exists@, write_exists@),
{
    let all_ports = has_port(&policy.net.allow_ports, 0);
    let read_paths = grant(&policy.fs.allow_read, read_exists);
    let write_paths = grant(&policy.fs.allow_write, write_exists);
    let mut ports: Vec<u16> = Vec::new();
    if policy.net.allow_ports.len() > 0 && !all_ports {
        let mut i: usize = 0;
        while i < policy.net.allow_ports.len()
            invariant
                i <= policy.net.allow_ports@.len(),
                ports@ == policy.net.allow_ports@.subrange(0, i as int),
            decreases policy.net.allow_ports@.len() - i,
        {
            ports.push(policy.net.allow_ports[i]);
            i = i + 1;
            assert(ports@ =~= policy.net.allow_ports@.subrange(0, i as int));
        }
        assert(ports@ =~= policy.net.allow_ports@);
    } else {
        assert(ports@ =~= seq![]);
    }
    SandboxConfig { handle_net: !all_ports, read_paths, write_paths, ports }
}

/// How far the kernel enforced the sandbox.
#[derive(Clone, Copy, Debug, PartialEq, Eq, Structural)]
pub enum EnforcementStatus {
    FullyEnforced,
    PartiallyEnforced,
    NotEnforced,
}

/// Why the sandbox could not be put in place.
#[derive(Debug, PartialEq, Eq, Structural)]
pub enum SandboxError {
    /// The kernel does not support the sandbox.
    NotSupported,
}

impl SandboxError {
    /// The message shown for the error.
    pub fn message(&self) -> (m: String)
        ensures
            m@ == "Landlock is not supported by your kernel. Sandbox enforcement failed."@,
    {
        owned("Landlock is not supported by your kernel. Sandbox enforcement failed.")
    }
}

/// A fully or partially enforced sandbox is accepted; one the kernel did not
/// enforce at all is an error.
pub fn check_enforcement(status: EnforcementStatus) -> (r: Result<(), SandboxError>)
    ensures
        r == (if status == EnforcementStatus::NotEnforced {
            Err::<(), SandboxError>(SandboxError::NotSupported)
        } else {
            Ok::<(), SandboxError>(())
        }),
{
    match status {
        EnforcementStatus::NotEnforced => Err(SandboxError::NotSupported),
        _ => Ok(()),
    }
}

/// Law: a policy that allows every port leaves TCP unrestricted and opens
/// no port one by one.
pub proof fn law_port_zero_leaves_tcp_open(c: SandboxConfig, policy: Policy, read_exists: Seq<bool>, write_exists: Seq<bool>)
    requires
        c.planned_for(policy, read_exists, write_exists),
        policy.net.allow_ports@.contains(0u16),
    ensures
        !c.handle_net,
        c.ports@.len() == 0,
{
}

/// Law: a policy without ports restricts TCP and opens no port: the
/// sandbox fails closed.
pub proof fn law_no_ports_fails_closed(c: SandboxConfig, policy: Policy, read_exists: Seq<bool>, write_exists: Seq<bool>)
    requires
        c.planned_for(policy, read_exists, write_exists),
        policy.net.allow_ports@.len() == 0,
    ensures
        c.handle_net,
        c.ports@.len() == 0,
{
}

/// Law: a port list without 0 restricts TCP and opens exactly the listed
/// ports.
pub proof fn law_listed_ports_are_the_open_ones(c: SandboxConfig, policy: Policy, read_exists: Seq<bool>, write_exists: Seq<bool>)
    requires
        c.planned_for(policy, read_exists, write_exists),
        policy.net.allow_ports@.len() > 0,
        !policy.net.allow_ports@.contains(0u16),
    ensures
        c.handle_net,
        c.ports@ == policy.net.allow_ports@,
{
}

/// Law: every path granted from a list without `*` is a listed path.
pub proof fn law_granted_paths_are_listed(paths: Seq<Seq<char>>, flags: Seq<bool>, k: int)
    requires
        0 <= k < flagged(paths, flags).len(),
    ensures
        paths.contains(flagged(paths, flags)[k]),
    decreases paths.len(),
{
    if paths.len() > 0 && flags.len() > 0 {
        let rest = flagged(paths.drop_last(), flags.drop_last());
        if k < rest.len() {
            law_granted_paths_are_listed(paths.drop_last(), flags.drop_last(), k);
            let j = choose|j: int| 0 <= j < paths.drop_last().len() && paths.drop_last()[j] == rest[k];
            assert(paths[j] == rest[k]);
        } else {
            assert(paths[paths.len() - 1] == paths.last());
        }
    }
}

/// Law: a list that holds `*`, at any position, grants exactly the root,
/// whatever else it lists and whichever paths exist.
pub proof fn law_wildcard_anywhere_grants_the_root(list: Seq<String>, exists: Seq<bool>, i: int)
    requires
        0 <= i < list.len(),
        list[i]@ == seq!['*'],
    ensures
        granted_paths(list, exists) == seq![seq!['/']],
{
    assert(string_views(list)[i] == seq!['*']);
}

/// Law: a policy whose read or write list holds `*`, at any position, gets
/// reading or writing beneath the root alone.
pub proof fn law_wildcard_policy_grants_the_root(c: SandboxConfig, policy: Policy, read_exists: Seq<bool>, write_exists: Seq<bool>, i: int)
    requires
        c.planned_for(policy, read_exists, write_exists),
    ensures
        0 <= i < policy.fs.allow_read@.len() && policy.fs.allow_read@[i]@ == seq!['*'] ==> string_views(c.read_paths@)
            == seq![seq!['/']],
        0 <= i < policy.fs.allow_write@.len() && policy.fs.allow_write@[i]@ == seq!['*'] ==> string_views(c.write_paths@)
            == seq![seq!['/']],
{
    if 0 <= i < policy.fs.allow_read@.len() && policy.fs.allow_read@[i]@ == seq!['*'] {
        law_wildcard_anywhere_grants_the_root(policy.fs.allow_read@, read_exists, i);
    }
    if 0 <= i < policy.fs.allow_write@.len() && policy.fs.allow_write@[i]@ == seq!['*'] {
        law_wildcard_anywhere_grants_the_root(policy.fs.allow_write@, write_exists, i);
    }
}

} // verus!
