use ore_miner::errors::OreMinerError;
use ore_miner::num::Decimal;
use ore_miner::pump::{process_line, pump_stdout_lines};

fn dec(negative: bool, mantissa: u64, scale: u32) -> Decimal {
    Decimal { negative, mantissa, scale }
}

#[test]
fn pump_preserves_line_order() {
    let lines = vec![String::from("Stake: 10"), String::from("Change: 2")];
    let batches = pump_stdout_lines(&lines);
    assert_eq!(batches.len(), 2);
    assert_eq!(batches[0].len(), 1);
    assert_eq!(batches[0][0].name, "Stake");
    assert_eq!(batches[0][0].value, dec(false, 10, 0));
    assert_eq!(batches[1].len(), 1);
    assert_eq!(batches[1][0].name, "Change");
    assert_eq!(batches[1][0].value, dec(false, 2, 0));
}

#[test]
fn pump_skips_noise_and_keeps_order() {
    let lines = vec![
        String::from("Mining..."),
        String::from("Stake: 1"),
        String::from(""),
        String::from("Timestamp: 2024-05-01 10:00:00"),
        String::from("Change: bad"),
        String::from("OK somehash"),
        String::from("Best hash: 3f9a (difficulty: 7)"),
    ];
    let batches = pump_stdout_lines(&lines);
    assert_eq!(batches.len(), 2);
    assert_eq!(batches[0][0].name, "Stake");
    assert_eq!(batches[0][0].value, dec(false, 1, 0));
    assert_eq!(batches[1][0].name, "Difficulty");
    assert_eq!(batches[1][0].value, dec(false, 7, 0));
}

#[test]
fn process_line_reports_malformed_lines() {
    let r = process_line("Stake: oops");
    assert_eq!(
        r,
        Err(OreMinerError::ParseError(String::from("Failed to parse float")))
    );
}

#[test]
fn process_line_multiplier_scenario() {
    let batch = process_line("Multiplier: 1.5x").unwrap().unwrap();
    assert_eq!(batch.len(), 1);
    assert_eq!(batch[0].name, "Multiplier");
    assert_eq!(batch[0].value, dec(false, 15, 1));
}

#[test]
fn process_line_timestamp_yields_no_batch() {
    assert_eq!(process_line("Timestamp: 2024-05-01 10:00:00"), Ok(None));
}

#[test]
fn process_line_difficulty_scenario() {
    let batch = process_line("Best hash: 3f9a (difficulty: 12345)").unwrap().unwrap();
    assert_eq!(batch.len(), 1);
    assert_eq!(batch[0].name, "Difficulty");
    assert_eq!(batch[0].value, dec(false, 12345, 0));
}
