//! The daemon lifecycle: single-instance enforcement through the PID
//! file. Reading the file, probing liveness, terminating a live instance,
//! removing the file and daemonizing are outside effects; this module
//! decides, from the file's content and the probe's answer, exactly which
//! of those steps are owed and in what order.

use vstd::prelude::*;

use crate::errors::OreMinerError;
use crate::num::{i32_of, i32_token_valid};
use crate::num::parse_i32_token;
use crate::text::{trim, trimmed};

verus! {

/// One externally-performed step of bringing the daemon up.
#[derive(Clone, Copy, Debug, PartialEq, Eq, Structural)]
pub enum StartupAction {
    /// Send a termination request to the process with this identifier.
    Terminate(i32),
    /// Delete the PID file.
    RemovePidFile,
    /// Detach into daemon mode, redirect output, and record the current
    /// process's identifier in the PID file.
    Daemonize,
}

/// Whether a PID file's content, once trimmed, is a decimal process
/// identifier.
pub open spec fn pid_valid(s: Seq<char>) -> bool {
    i32_token_valid(trimmed(s))
}

pub open spec fn pid_value(s: Seq<char>) -> int {
    i32_of(trimmed(s))
}

/// Parses the content of a PID file; whitespace around the number is
/// ignored.
pub fn parse_pid(s: &str) -> (r: Result<i32, OreMinerError>)
    ensures
        r is Ok <==> pid_valid(s@),
        r matches Ok(p) ==> p as int == pid_value(s@),
        r matches Err(e) ==> (e matches OreMinerError::PidParse(m) && m@
            == "invalid PID file contents"@),
{
    match parse_i32_token(trim(s)) {
        Some(p) => Ok(p),
        None => Err(OreMinerError::PidParse(String::from_str("invalid PID file contents"))),
    }
}

/// The steps owed at startup, given the PID file's content (if the file
/// exists) and, for a file naming a parseable identifier, whether that
/// process answered the liveness probe.
pub open spec fn startup_plan(pid_file: Option<Seq<char>>, live: bool) -> Result<
    Seq<StartupAction>,
    (),
> {
    match pid_file {
        None => Ok(seq![StartupAction::Daemonize]),
        Some(s) => if !pid_valid(s) {
            Err(())
        } else if live {
            Ok(
                seq![
                    StartupAction::Terminate(pid_value(s) as i32),
                    StartupAction::RemovePidFile,
                    StartupAction::Daemonize,
                ],
            )
        } else {
            Ok(seq![StartupAction::RemovePidFile, StartupAction::Daemonize])
        },
    }
}

/// Decides the startup steps. `pid_file` is the PID file's content if the
/// file exists; `live` is the liveness probe's answer for the process the
/// file names (ignored when the file is absent). A file that does not name
/// a process identifier is fatal.
pub fn plan_startup(pid_file: Option<&String>, live: bool) -> (r: Result<
    Vec<StartupAction>,
    OreMinerError,
>)
    ensures
        r matches Ok(a) ==> (startup_plan(
            match pid_file {
                Some(s) => Some(s@),
                None => None,
            },
            live,
        ) matches Ok(p) && a@ == p),
        r is Err <==> (pid_file matches Some(s) && !pid_valid(s@)),
        r matches Err(e) ==> e is PidParse,
{
    let mut actions: Vec<StartupAction> = Vec::new();
    match pid_file {
        None => {},
        Some(s) => {
            let pid = match parse_pid(s.as_str()) {
                Ok(p) => p,
                Err(e) => {
                    return Err(e);
                },
            };
            if live {
                actions.push(StartupAction::Terminate(pid));
            }
            actions.push(StartupAction::RemovePidFile);
        },
    }
    actions.push(StartupAction::Daemonize);
    proof {
        let planned = startup_plan(
            match pid_file {
                Some(s) => Some(s@),
                None => None,
            },
            live,
        );
        assert(planned matches Ok(p) && actions@ =~= p);
    }
    Ok(actions)
}

/// How many termination requests a plan issues.
pub open spec fn terminate_count(a: Seq<StartupAction>) -> int
    decreases a.len(),
{
    if a.len() == 0 {
        0
    } else {
        (if a[0] is Terminate {
            1int
        } else {
            0int
        }) + terminate_count(a.drop_first())
    }
}

/// How many times a plan writes the PID file; only daemonizing writes it.
pub open spec fn pid_write_count(a: Seq<StartupAction>) -> int
    decreases a.len(),
{
    if a.len() == 0 {
        0
    } else {
        (if a[0] is Daemonize {
            1int
        } else {
            0int
        }) + pid_write_count(a.drop_first())
    }
}

/// With no PID file present, startup never issues a termination request
/// and writes the PID file exactly once.
pub proof fn lemma_startup_absent(live: bool)
    ensures
        startup_plan(None, live) matches Ok(a) && terminate_count(a) == 0 && pid_write_count(a)
            == 1,
{
    reveal_with_fuel(terminate_count, 4);
    reveal_with_fuel(pid_write_count, 4);
    let a = seq![StartupAction::Daemonize];
    assert(a.drop_first() =~= Seq::<StartupAction>::empty());
    assert(terminate_count(a) == 0);
    assert(pid_write_count(a) == 1);
}

/// With a PID file naming a dead process, startup removes the file and
/// proceeds without a termination request, writing the PID file exactly
/// once.
pub proof fn lemma_startup_stale(s: Seq<char>)
    requires
        pid_valid(s),
    ensures
        startup_plan(Some(s), false) matches Ok(a) && terminate_count(a) == 0 && pid_write_count(a)
            == 1 && a[0] is RemovePidFile,
{
    reveal_with_fuel(terminate_count, 4);
    reveal_with_fuel(pid_write_count, 4);
    let a = seq![StartupAction::RemovePidFile, StartupAction::Daemonize];
    assert(a.drop_first() =~= seq![StartupAction::Daemonize]);
    assert(a.drop_first().drop_first() =~= Seq::<StartupAction>::empty());
    assert(terminate_count(a) == 0);
    assert(pid_write_count(a) == 1);
}

/// With a PID file naming a live process, startup issues exactly one
/// termination request, to that process, then removes the file, then
/// daemonizes, writing the PID file exactly once.
pub proof fn lemma_startup_live(s: Seq<char>)
    requires
        pid_valid(s),
    ensures
        startup_plan(Some(s), true) matches Ok(a) && terminate_count(a) == 1 && pid_write_count(a)
            == 1 && a[0] == StartupAction::Terminate(pid_value(s) as i32) && a[1]
            is RemovePidFile && a[2] is Daemonize,
{
    reveal_with_fuel(terminate_count, 4);
    reveal_with_fuel(pid_write_count, 4);
    let a = seq![
        StartupAction::Terminate(pid_value(s) as i32),
        StartupAction::RemovePidFile,
        StartupAction::Daemonize,
    ];
    assert(a.drop_first() =~= seq![StartupAction::RemovePidFile, StartupAction::Daemonize]);
    assert(a.drop_first().drop_first() =~= seq![StartupAction::Daemonize]);
    assert(a.drop_first().drop_first().drop_first() =~= Seq::<StartupAction>::empty());
    assert(terminate_count(a) == 1);
    assert(pid_write_count(a) == 1);
}

} // verus!
