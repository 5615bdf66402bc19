use ore_miner::num::{parse_dec_token, parse_i32_token, parse_u64_token, Decimal};

fn dec(negative: bool, mantissa: u64, scale: u32) -> Decimal {
    Decimal { negative, mantissa, scale }
}

#[test]
fn decimal_whole_numbers() {
    assert_eq!(parse_dec_token("10"), Some(dec(false, 10, 0)));
    assert_eq!(parse_dec_token("0"), Some(dec(false, 0, 0)));
    assert_eq!(parse_dec_token("+3"), Some(dec(false, 3, 0)));
    assert_eq!(parse_dec_token("-12"), Some(dec(true, 12, 0)));
}

#[test]
fn decimal_fractions() {
    assert_eq!(parse_dec_token("1.5"), Some(dec(false, 15, 1)));
    assert_eq!(parse_dec_token("-2.75"), Some(dec(true, 275, 2)));
    assert_eq!(parse_dec_token("0.001"), Some(dec(false, 1, 3)));
    assert_eq!(parse_dec_token("007"), Some(dec(false, 7, 0)));
}

#[test]
fn decimal_dot_edge_cases() {
    assert_eq!(parse_dec_token("1."), Some(dec(false, 1, 0)));
    assert_eq!(parse_dec_token(".5"), Some(dec(false, 5, 1)));
    assert_eq!(parse_dec_token("."), None);
    assert_eq!(parse_dec_token("1.2.3"), None);
}

#[test]
fn decimal_rejects_malformed() {
    assert_eq!(parse_dec_token(""), None);
    assert_eq!(parse_dec_token("abc"), None);
    assert_eq!(parse_dec_token("--1"), None);
    assert_eq!(parse_dec_token("+"), None);
    assert_eq!(parse_dec_token("1e5"), None);
    assert_eq!(parse_dec_token("1 2"), None);
}

#[test]
fn decimal_mantissa_range() {
    assert_eq!(
        parse_dec_token("18446744073709551615"),
        Some(dec(false, u64::MAX, 0))
    );
    assert_eq!(parse_dec_token("18446744073709551616"), None);
}

#[test]
fn unsigned_tokens() {
    assert_eq!(parse_u64_token("12345"), Some(12345));
    assert_eq!(parse_u64_token("+7"), Some(7));
    assert_eq!(parse_u64_token("012"), Some(12));
    assert_eq!(parse_u64_token(""), None);
    assert_eq!(parse_u64_token("-3"), None);
    assert_eq!(parse_u64_token("12a"), None);
    assert_eq!(parse_u64_token("18446744073709551615"), Some(u64::MAX));
    assert_eq!(parse_u64_token("18446744073709551616"), None);
}

#[test]
fn signed_tokens() {
    assert_eq!(parse_i32_token("123"), Some(123));
    assert_eq!(parse_i32_token("-45"), Some(-45));
    assert_eq!(parse_i32_token("+6"), Some(6));
    assert_eq!(parse_i32_token("2147483647"), Some(i32::MAX));
    assert_eq!(parse_i32_token("2147483648"), None);
    assert_eq!(parse_i32_token("-2147483648"), Some(i32::MIN));
    assert_eq!(parse_i32_token("-2147483649"), None);
    assert_eq!(parse_i32_token("1.5"), None);
    assert_eq!(parse_i32_token(""), None);
}
