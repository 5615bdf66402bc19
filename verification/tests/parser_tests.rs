use ore_miner::errors::OreMinerError;
use ore_miner::num::Decimal;
use ore_miner::parser::parse_metrics;

fn dec(negative: bool, mantissa: u64, scale: u32) -> Decimal {
    Decimal { negative, mantissa, scale }
}

#[test]
fn stake_line_parses() {
    let m = parse_metrics("Stake: 10").unwrap().unwrap();
    assert_eq!(m.stake, Some(dec(false, 10, 0)));
    assert_eq!(m.change, None);
    assert_eq!(m.multiplier, None);
    assert_eq!(m.difficulty, None);
    assert_eq!(m.timestamp, None);
    assert_eq!(m.tx_hash, None);
}

#[test]
fn change_line_parses() {
    let m = parse_metrics("Change: 2.5").unwrap().unwrap();
    assert_eq!(m.change, Some(dec(false, 25, 1)));
    assert_eq!(m.stake, None);
}

#[test]
fn negative_change_parses() {
    let m = parse_metrics("Change: -0.75").unwrap().unwrap();
    assert_eq!(m.change, Some(dec(true, 75, 2)));
}

#[test]
fn multiplier_line_strips_x() {
    let m = parse_metrics("Multiplier: 1.5x").unwrap().unwrap();
    assert_eq!(m.multiplier, Some(dec(false, 15, 1)));
    assert_eq!(m.stake, None);
    assert_eq!(m.difficulty, None);
}

#[test]
fn difficulty_line_parses_fifth_token() {
    let m = parse_metrics("Best hash: 3f9a (difficulty: 12345)").unwrap().unwrap();
    assert_eq!(m.difficulty, Some(12345));
    assert_eq!(m.stake, None);
    assert_eq!(m.tx_hash, None);
}

#[test]
fn difficulty_line_without_hash_token_is_malformed() {
    let r = parse_metrics("Best hash: (difficulty: 12345)");
    assert_eq!(
        r,
        Err(OreMinerError::ParseError(String::from("Missing difficulty value")))
    );
}

#[test]
fn timestamp_line_joins_date_and_time() {
    let m = parse_metrics("Timestamp: 2024-05-01 10:00:00").unwrap().unwrap();
    assert_eq!(m.timestamp, Some(String::from("2024-05-01T10:00:00Z")));
    assert_eq!(m.difficulty, None);
}

#[test]
fn ok_line_carries_tx_hash() {
    let m = parse_metrics("OK 5GheSqvL2QprW2kcaZXEAhk6r7GboZ9").unwrap().unwrap();
    assert_eq!(m.tx_hash, Some(String::from("5GheSqvL2QprW2kcaZXEAhk6r7GboZ9")));
    assert_eq!(m.timestamp, None);
}

#[test]
fn unrecognized_line_yields_no_record() {
    assert_eq!(parse_metrics("Mining started on 4 cores"), Ok(None));
    assert_eq!(parse_metrics("stake: 10"), Ok(None));
    assert_eq!(parse_metrics("Best guess: 10"), Ok(None));
}

#[test]
fn blank_line_is_ignored() {
    assert_eq!(parse_metrics(""), Ok(None));
    assert_eq!(parse_metrics("   \t  "), Ok(None));
}

#[test]
fn surrounding_whitespace_is_trimmed() {
    let m = parse_metrics("   Stake:   7   ").unwrap().unwrap();
    assert_eq!(m.stake, Some(dec(false, 7, 0)));
}

#[test]
fn missing_tokens_are_errors() {
    assert_eq!(
        parse_metrics("Stake:"),
        Err(OreMinerError::ParseError(String::from("Missing value")))
    );
    assert_eq!(
        parse_metrics("Multiplier:"),
        Err(OreMinerError::ParseError(String::from("Missing multiplier value")))
    );
    assert_eq!(
        parse_metrics("Best hash:"),
        Err(OreMinerError::ParseError(String::from("Missing difficulty value")))
    );
    assert_eq!(
        parse_metrics("Timestamp: 2024-05-01"),
        Err(OreMinerError::ParseError(String::from("Invalid timestamp format")))
    );
    assert_eq!(
        parse_metrics("OK"),
        Err(OreMinerError::ParseError(String::from("Missing tx_hash")))
    );
}

#[test]
fn non_numeric_tokens_are_errors() {
    assert_eq!(
        parse_metrics("Stake: abc"),
        Err(OreMinerError::ParseError(String::from("Failed to parse float")))
    );
    assert_eq!(
        parse_metrics("Change: 1.2.3"),
        Err(OreMinerError::ParseError(String::from("Failed to parse float")))
    );
    assert_eq!(
        parse_metrics("Multiplier: x"),
        Err(OreMinerError::ParseError(String::from("Failed to parse multiplier")))
    );
    assert_eq!(
        parse_metrics("Best hash: 3f9a (difficulty: 12a45)"),
        Err(OreMinerError::ParseError(String::from("Failed to parse difficulty")))
    );
}

#[test]
fn multiplier_strips_all_trailing_x() {
    let m = parse_metrics("Multiplier: 2xx").unwrap().unwrap();
    assert_eq!(m.multiplier, Some(dec(false, 2, 0)));
}
