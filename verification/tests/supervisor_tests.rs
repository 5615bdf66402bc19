use ore_miner::supervisor::{
    build_command_args, supervisor_step, MinerConfig, SupervisorAction, SupervisorEvent,
    SupervisorState,
};

fn full_config() -> MinerConfig {
    MinerConfig {
        cores: String::from("4"),
        keypair: String::from("/home/miner/id.json"),
        fee_payer: String::from("/home/miner/fee.json"),
        dynamic_fee: true,
        dynamic_fee_url: String::from("https://fees.example"),
        rpc: String::from("https://rpc.example"),
    }
}

#[test]
fn command_args_with_all_options() {
    let args = build_command_args(&full_config());
    assert_eq!(
        args,
        vec![
            String::from("mine"),
            String::from("--cores"),
            String::from("4"),
            String::from("--keypair"),
            String::from("/home/miner/id.json"),
            String::from("--rpc"),
            String::from("https://rpc.example"),
            String::from("--fee-payer"),
            String::from("/home/miner/fee.json"),
            String::from("--dynamic-fee"),
            String::from("--dynamic-fee-url"),
            String::from("https://fees.example"),
        ]
    );
}

#[test]
fn command_args_without_options() {
    let mut cfg = full_config();
    cfg.fee_payer = String::new();
    cfg.dynamic_fee = false;
    cfg.dynamic_fee_url = String::new();
    let args = build_command_args(&cfg);
    assert_eq!(
        args,
        vec![
            String::from("mine"),
            String::from("--cores"),
            String::from("4"),
            String::from("--keypair"),
            String::from("/home/miner/id.json"),
            String::from("--rpc"),
            String::from("https://rpc.example"),
        ]
    );
}

#[test]
fn supervisor_happy_path() {
    let (s, a) = supervisor_step(SupervisorState::NotStarted, SupervisorEvent::Start);
    assert_eq!(s, SupervisorState::Spawning);
    assert_eq!(a, SupervisorAction::SpawnChild);

    let (s, a) = supervisor_step(s, SupervisorEvent::SpawnSucceeded);
    assert_eq!(s, SupervisorState::Running);
    assert_eq!(a, SupervisorAction::StartPumpsAndAwaitExit);

    let (s, a) = supervisor_step(s, SupervisorEvent::ChildExited(3));
    assert_eq!(s, SupervisorState::Draining(3));
    assert_eq!(a, SupervisorAction::AwaitPumps);

    let (s, a) = supervisor_step(s, SupervisorEvent::PumpsJoined);
    assert_eq!(s, SupervisorState::Exited(3));
    assert_eq!(a, SupervisorAction::ReportExit(3));
}

#[test]
fn supervisor_spawn_failure_is_fatal() {
    let (s, a) = supervisor_step(SupervisorState::Spawning, SupervisorEvent::SpawnFailed);
    assert_eq!(s, SupervisorState::Failed);
    assert_eq!(a, SupervisorAction::ReportSpawnFailure);
}

#[test]
fn supervisor_ignores_out_of_place_events() {
    let (s, a) = supervisor_step(SupervisorState::NotStarted, SupervisorEvent::PumpsJoined);
    assert_eq!(s, SupervisorState::NotStarted);
    assert_eq!(a, SupervisorAction::Ignore);

    let (s, a) = supervisor_step(SupervisorState::Exited(0), SupervisorEvent::Start);
    assert_eq!(s, SupervisorState::Exited(0));
    assert_eq!(a, SupervisorAction::Ignore);
}
