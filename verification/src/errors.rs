//! Error taxonomy of the daemon: filesystem and pipe failures, a corrupt
//! PID file, daemonization failures, backend submission failures, child
//! spawn failures, a missing executable, a missing environment variable,
//! and malformed recognized lines.

use vstd::prelude::*;

verus! {

#[derive(Debug, Clone)]
pub enum OreMinerError {
    /// Filesystem or pipe failure, with its description.
    Io(String),
    /// The PID file held something that is not a decimal process identifier.
    PidParse(String),
    /// Daemonization, or stopping an existing instance, failed.
    Daemon(String),
    /// The metrics backend rejected or failed a submission.
    CloudWatch(String),
    /// Spawning or waiting on the child process failed.
    CommandExecution(String),
    /// The configured executable was not found; name and details.
    BinaryNotFound(String, String),
    /// A required environment variable is not set.
    EnvVar(String),
    /// A recognized line with a missing or malformed required token.
    ParseError(String),
}

impl PartialEq for OreMinerError {
    fn eq(&self, other: &Self) -> bool {
        match (self, other) {
            (OreMinerError::Io(a), OreMinerError::Io(b)) => a.eq(b),
            (OreMinerError::PidParse(a), OreMinerError::PidParse(b)) => a.eq(b),
            (OreMinerError::Daemon(a), OreMinerError::Daemon(b)) => a.eq(b),
            (OreMinerError::CloudWatch(a), OreMinerError::CloudWatch(b)) => a.eq(b),
            (OreMinerError::CommandExecution(a), OreMinerError::CommandExecution(b)) => a.eq(b),
            (OreMinerError::BinaryNotFound(a1, a2), OreMinerError::BinaryNotFound(b1, b2)) => (
                a1.eq(b1) && a2.eq(b2)
            ),
            (OreMinerError::EnvVar(a), OreMinerError::EnvVar(b)) => a.eq(b),
            (OreMinerError::ParseError(a), OreMinerError::ParseError(b)) => a.eq(b),
            _ => false,
        }
    }
}

impl vstd::std_specs::cmp::PartialEqSpecImpl for OreMinerError {
    open spec fn obeys_eq_spec() -> bool {
        true
    }

    open spec fn eq_spec(&self, other: &Self) -> bool {
        match (self, other) {
            (OreMinerError::Io(a), OreMinerError::Io(b)) => a@ == b@,
            (OreMinerError::PidParse(a), OreMinerError::PidParse(b)) => a@ == b@,
            (OreMinerError::Daemon(a), OreMinerError::Daemon(b)) => a@ == b@,
            (OreMinerError::CloudWatch(a), OreMinerError::CloudWatch(b)) => a@ == b@,
            (OreMinerError::CommandExecution(a), OreMinerError::CommandExecution(b)) => a@ == b@,
            (OreMinerError::BinaryNotFound(a1, a2), OreMinerError::BinaryNotFound(b1, b2)) => (
                a1@ == b1@ && a2@ == b2@
            ),
            (OreMinerError::EnvVar(a), OreMinerError::EnvVar(b)) => a@ == b@,
            (OreMinerError::ParseError(a), OreMinerError::ParseError(b)) => a@ == b@,
            _ => false,
        }
    }
}

} // verus!
