//! Verified core of a runtime security layer: the policy model and its
//! evaluation, the command-line grammar, the audit report, the tracer's
//! decisions, the sandbox plan and the system call filter.

pub mod text;
pub mod path;
pub mod events;
pub mod policy;
pub mod cli;
pub mod report;
pub mod tracer;
pub mod enforce;
pub mod seccomp;
pub mod exec;
