use ore_miner::forward::{build_metric_datum, forward};
use ore_miner::metrics::Metrics;
use ore_miner::num::Decimal;

fn dec(negative: bool, mantissa: u64, scale: u32) -> Decimal {
    Decimal { negative, mantissa, scale }
}

#[test]
fn new_record_is_empty() {
    let m = Metrics::new();
    assert_eq!(m.stake, None);
    assert_eq!(m.change, None);
    assert_eq!(m.multiplier, None);
    assert_eq!(m.difficulty, None);
    assert_eq!(m.timestamp, None);
    assert_eq!(m.tx_hash, None);
}

#[test]
fn empty_record_needs_no_backend_call() {
    assert!(forward(&Metrics::new()).is_none());
}

#[test]
fn informational_record_needs_no_backend_call() {
    let mut m = Metrics::new();
    m.timestamp = Some(String::from("2024-05-01T10:00:00Z"));
    m.tx_hash = Some(String::from("abc"));
    assert!(forward(&m).is_none());
}

#[test]
fn single_stake_yields_batch_of_one() {
    let mut m = Metrics::new();
    m.stake = Some(dec(false, 10, 0));
    let batch = forward(&m).unwrap();
    assert_eq!(batch.len(), 1);
    assert_eq!(batch[0].name, "Stake");
    assert_eq!(batch[0].value, dec(false, 10, 0));
    assert_eq!(batch[0].dimension_name, "Environment");
    assert_eq!(batch[0].dimension_value, "MainnetBeta");
}

#[test]
fn four_numeric_fields_yield_batch_of_four_in_order() {
    let mut m = Metrics::new();
    m.stake = Some(dec(false, 1, 0));
    m.change = Some(dec(true, 2, 0));
    m.multiplier = Some(dec(false, 15, 1));
    m.difficulty = Some(99);
    let batch = forward(&m).unwrap();
    assert_eq!(batch.len(), 4);
    assert_eq!(batch[0].name, "Stake");
    assert_eq!(batch[1].name, "Change");
    assert_eq!(batch[2].name, "Multiplier");
    assert_eq!(batch[3].name, "Difficulty");
    assert_eq!(batch[3].value, dec(false, 99, 0));
}

#[test]
fn difficulty_becomes_whole_number_entry() {
    let mut m = Metrics::new();
    m.difficulty = Some(12345);
    let batch = forward(&m).unwrap();
    assert_eq!(batch.len(), 1);
    assert_eq!(batch[0].name, "Difficulty");
    assert_eq!(batch[0].value, dec(false, 12345, 0));
}

#[test]
fn datum_is_built_only_for_populated_values() {
    assert!(build_metric_datum("Stake", None).is_none());
    let e = build_metric_datum("Stake", Some(dec(false, 3, 0))).unwrap();
    assert_eq!(e.name, "Stake");
    assert_eq!(e.value, dec(false, 3, 0));
}
