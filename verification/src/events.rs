//! What the tracer observes of the traced process.
use vstd::prelude::*;

verus! {

/// One observed action of the traced process.
#[derive(Debug, Clone)]
pub enum Event {
    FileOpen { path: String, mode: String },
    FileWrite { path: String },
    FileDelete { path: String },
    NetConnect { addr: String, port: u16 },
    DnsLookup { domain: String },
    ProcessSpawn { binary: String, args: Vec<String> },
    ProcessExec { binary: String },
    EnvRead { key: String },
}

} // verus!
