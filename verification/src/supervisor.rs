//! The process supervisor: builds the child miner's invocation from the
//! externally-supplied configuration, and steps the spawn/run/drain/exit
//! state machine. Spawning, waiting and joining are outside effects; the
//! surrounding binary performs each action this module hands it.

use vstd::prelude::*;

verus! {

/// Mathematical image of the configuration.
pub struct MinerConfigV {
    pub cores: Seq<char>,
    pub keypair: Seq<char>,
    pub fee_payer: Seq<char>,
    pub dynamic_fee: bool,
    pub dynamic_fee_url: Seq<char>,
    pub rpc: Seq<char>,
}

/// The child miner's configuration: opaque pass-through values chosen by
/// the operator.
#[derive(Debug, Clone)]
pub struct MinerConfig {
    pub cores: String,
    pub keypair: String,
    pub fee_payer: String,
    pub dynamic_fee: bool,
    pub dynamic_fee_url: String,
    pub rpc: String,
}

impl View for MinerConfig {
    type V = MinerConfigV;

    open spec fn view(&self) -> MinerConfigV {
        MinerConfigV {
            cores: self.cores@,
            keypair: self.keypair@,
            fee_payer: self.fee_payer@,
            dynamic_fee: self.dynamic_fee,
            dynamic_fee_url: self.dynamic_fee_url@,
            rpc: self.rpc@,
        }
    }
}

/// The arguments of the child invocation: the fixed subcommand, the
/// required flags, then each optional flag exactly when its value asks for
/// it.
pub open spec fn command_args_spec(c: MinerConfigV) -> Seq<Seq<char>> {
    seq!["mine"@, "--cores"@, c.cores, "--keypair"@, c.keypair, "--rpc"@, c.rpc] + (if c.fee_payer.len()
        > 0 {
        seq!["--fee-payer"@, c.fee_payer]
    } else {
        Seq::empty()
    }) + (if c.dynamic_fee {
        seq!["--dynamic-fee"@]
    } else {
        Seq::empty()
    }) + (if c.dynamic_fee_url.len() > 0 {
        seq!["--dynamic-fee-url"@, c.dynamic_fee_url]
    } else {
        Seq::empty()
    })
}

/// Builds the child invocation's argument list.
pub fn build_command_args(cfg: &MinerConfig) -> (r: Vec<String>)
    ensures
        r.deep_view() == command_args_spec(cfg@),
{
    let mut args: Vec<String> = Vec::new();
    args.push(String::from_str("mine"));
    args.push(String::from_str("--cores"));
    args.push(cfg.cores.clone());
    args.push(String::from_str("--keypair"));
    args.push(cfg.keypair.clone());
    args.push(String::from_str("--rpc"));
    args.push(cfg.rpc.clone());
    if cfg.fee_payer.as_str().unicode_len() > 0 {
        args.push(String::from_str("--fee-payer"));
        args.push(cfg.fee_payer.clone());
    }
    if cfg.dynamic_fee {
        args.push(String::from_str("--dynamic-fee"));
    }
    if cfg.dynamic_fee_url.as_str().unicode_len() > 0 {
        args.push(String::from_str("--dynamic-fee-url"));
        args.push(cfg.dynamic_fee_url.clone());
    }
    proof {
        assert(args.deep_view() =~= command_args_spec(cfg@));
    }
    args
}

/// The supervisor's state: not yet started; spawning the child; running
/// with both stream pumps attached while awaiting the child's exit;
/// draining the pumps after the child exited with the recorded status;
/// exited with that status; or failed to spawn.
#[derive(Clone, Copy, Debug, PartialEq, Eq, Structural)]
pub enum SupervisorState {
    NotStarted,
    Spawning,
    Running,
    Draining(i32),
    Exited(i32),
    Failed,
}

/// What the surrounding binary observed since the last step.
#[derive(Clone, Copy, Debug, PartialEq, Eq, Structural)]
pub enum SupervisorEvent {
    Start,
    SpawnSucceeded,
    SpawnFailed,
    ChildExited(i32),
    PumpsJoined,
}

/// What the surrounding binary must do next.
#[derive(Clone, Copy, Debug, PartialEq, Eq, Structural)]
pub enum SupervisorAction {
    /// Spawn the child with its output and error streams piped.
    SpawnChild,
    /// Start both stream pumps, then block awaiting the child's exit.
    StartPumpsAndAwaitExit,
    /// Await completion of both pumps, so no line emitted before the
    /// child's death is dropped.
    AwaitPumps,
    /// Report the child's exit status upward; a non-zero status is
    /// informational, not an error.
    ReportExit(i32),
    /// Report that the child could not be spawned; fatal to the run.
    ReportSpawnFailure,
    /// Nothing: the event does not belong to the current state.
    Ignore,
}

/// The supervisor's transition table.
pub open spec fn supervisor_step_spec(s: SupervisorState, e: SupervisorEvent) -> (
    SupervisorState,
    SupervisorAction,
) {
    match (s, e) {
        (SupervisorState::NotStarted, SupervisorEvent::Start) => (
            SupervisorState::Spawning,
            SupervisorAction::SpawnChild,
        ),
        (SupervisorState::Spawning, SupervisorEvent::SpawnSucceeded) => (
            SupervisorState::Running,
            SupervisorAction::StartPumpsAndAwaitExit,
        ),
        (SupervisorState::Spawning, SupervisorEvent::SpawnFailed) => (
            SupervisorState::Failed,
            SupervisorAction::ReportSpawnFailure,
        ),
        (SupervisorState::Running, SupervisorEvent::ChildExited(code)) => (
            SupervisorState::Draining(code),
            SupervisorAction::AwaitPumps,
        ),
        (SupervisorState::Draining(code), SupervisorEvent::PumpsJoined) => (
            SupervisorState::Exited(code),
            SupervisorAction::ReportExit(code),
        ),
        _ => (s, SupervisorAction::Ignore),
    }
}

/// Steps the supervisor: from the current state and the observed event to
/// the next state and the action owed.
pub fn supervisor_step(s: SupervisorState, e: SupervisorEvent) -> (r: (
    SupervisorState,
    SupervisorAction,
))
    ensures
        r == supervisor_step_spec(s, e),
{
    match (s, e) {
        (SupervisorState::NotStarted, SupervisorEvent::Start) => (
            SupervisorState::Spawning,
            SupervisorAction::SpawnChild,
        ),
        (SupervisorState::Spawning, SupervisorEvent::SpawnSucceeded) => (
            SupervisorState::Running,
            SupervisorAction::StartPumpsAndAwaitExit,
        ),
        (SupervisorState::Spawning, SupervisorEvent::SpawnFailed) => (
            SupervisorState::Failed,
            SupervisorAction::ReportSpawnFailure,
        ),
        (SupervisorState::Running, SupervisorEvent::ChildExited(code)) => (
            SupervisorState::Draining(code),
            SupervisorAction::AwaitPumps,
        ),
        (SupervisorState::Draining(code), SupervisorEvent::PumpsJoined) => (
            SupervisorState::Exited(code),
            SupervisorAction::ReportExit(code),
        ),
        _ => (s, SupervisorAction::Ignore),
    }
}

/// The child's exit status is reported only after both pumps have been
/// awaited, and it is reported unchanged, whether zero or not.
pub proof fn lemma_report_after_drain(s: SupervisorState, e: SupervisorEvent)
    ensures
        supervisor_step_spec(s, e).1 matches SupervisorAction::ReportExit(code) ==> (s matches
            SupervisorState::Draining(c) && c == code && e is PumpsJoined),
{
}

} // verus!
