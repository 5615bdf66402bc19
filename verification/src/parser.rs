//! The line parser: one raw output line becomes a metric record, the
//! unrecognized outcome, or a parse error. The miner emits a fixed set of
//! line prefixes; anything else is ignored rather than rejected.

use vstd::prelude::*;

use crate::errors::OreMinerError;
use crate::metrics::{empty_record, populated_count, Metrics, MetricsV};
use crate::num::{
    dec_of, dec_token_valid, parse_dec_token, parse_u64_token, u64_of, u64_token_valid, Decimal,
};
use crate::text::{str_eq, strip_trailing, strip_trailing_char, tokenize, tokens_of};

verus! {

/// What one line yields: no record (blank or unrecognized), a malformed
/// recognized line with its report, or a record with exactly one populated
/// field.
pub enum LineOutcome {
    NoRecord,
    Malformed(Seq<char>),
    Record(MetricsV),
}

pub open spec fn with_stake(d: Decimal) -> MetricsV {
    MetricsV { stake: Some(d), ..empty_record() }
}

pub open spec fn with_change(d: Decimal) -> MetricsV {
    MetricsV { change: Some(d), ..empty_record() }
}

pub open spec fn with_multiplier(d: Decimal) -> MetricsV {
    MetricsV { multiplier: Some(d), ..empty_record() }
}

pub open spec fn with_difficulty(d: u64) -> MetricsV {
    MetricsV { difficulty: Some(d), ..empty_record() }
}

pub open spec fn with_timestamp(t: Seq<char>) -> MetricsV {
    MetricsV { timestamp: Some(t), ..empty_record() }
}

pub open spec fn with_tx_hash(t: Seq<char>) -> MetricsV {
    MetricsV { tx_hash: Some(t), ..empty_record() }
}

/// The timestamp the record carries: date and time joined as
/// `{date}T{time}Z`.
pub open spec fn joined_timestamp(date: Seq<char>, time: Seq<char>) -> Seq<char> {
    date + seq!['T'] + time + seq!['Z']
}

/// Whether the token list starts with one of the six recognized prefixes.
pub open spec fn recognized(toks: Seq<Seq<char>>) -> bool {
    toks.len() > 0 && (toks[0] == "Stake:"@ || toks[0] == "Change:"@ || toks[0]
        == "Multiplier:"@ || (toks[0] == "Best"@ && toks.len() >= 2 && toks[1] == "hash:"@)
        || toks[0] == "Timestamp:"@ || toks[0] == "OK"@)
}

/// Whether a recognized token list carries its required token, well formed.
pub open spec fn well_formed(toks: Seq<Seq<char>>) -> bool
    recommends
        recognized(toks),
{
    if toks[0] == "Stake:"@ || toks[0] == "Change:"@ {
        toks.len() >= 2 && dec_token_valid(toks[1])
    } else if toks[0] == "Multiplier:"@ {
        toks.len() >= 2 && dec_token_valid(strip_trailing(toks[1], 'x'))
    } else if toks[0] == "Best"@ {
        toks.len() >= 5 && u64_token_valid(strip_trailing(toks[4], ')'))
    } else if toks[0] == "Timestamp:"@ {
        toks.len() >= 3
    } else {
        toks.len() >= 2
    }
}

/// The parser, as a function of the line's tokens: the table of recognized
/// prefixes and their extraction rules.
pub open spec fn parse_spec(line: Seq<char>) -> LineOutcome {
    let toks = tokens_of(line);
    if toks.len() == 0 {
        LineOutcome::NoRecord
    } else if toks[0] == "Stake:"@ {
        if toks.len() < 2 {
            LineOutcome::Malformed("Missing value"@)
        } else if dec_token_valid(toks[1]) {
            LineOutcome::Record(with_stake(dec_of(toks[1])))
        } else {
            LineOutcome::Malformed("Failed to parse float"@)
        }
    } else if toks[0] == "Change:"@ {
        if toks.len() < 2 {
            LineOutcome::Malformed("Missing value"@)
        } else if dec_token_valid(toks[1]) {
            LineOutcome::Record(with_change(dec_of(toks[1])))
        } else {
            LineOutcome::Malformed("Failed to parse float"@)
        }
    } else if toks[0] == "Multiplier:"@ {
        if toks.len() < 2 {
            LineOutcome::Malformed("Missing multiplier value"@)
        } else if dec_token_valid(strip_trailing(toks[1], 'x')) {
            LineOutcome::Record(with_multiplier(dec_of(strip_trailing(toks[1], 'x'))))
        } else {
            LineOutcome::Malformed("Failed to parse multiplier"@)
        }
    } else if toks[0] == "Best"@ && toks.len() >= 2 && toks[1] == "hash:"@ {
        if toks.len() < 5 {
            LineOutcome::Malformed("Missing difficulty value"@)
        } else if u64_token_valid(strip_trailing(toks[4], ')')) {
            LineOutcome::Record(with_difficulty(u64_of(strip_trailing(toks[4], ')'))))
        } else {
            LineOutcome::Malformed("Failed to parse difficulty"@)
        }
    } else if toks[0] == "Timestamp:"@ {
        if toks.len() < 3 {
            LineOutcome::Malformed("Invalid timestamp format"@)
        } else {
            LineOutcome::Record(with_timestamp(joined_timestamp(toks[1], toks[2])))
        }
    } else if toks[0] == "OK"@ {
        if toks.len() < 2 {
            LineOutcome::Malformed("Missing tx_hash"@)
        } else {
            LineOutcome::Record(with_tx_hash(toks[1]))
        }
    } else {
        LineOutcome::NoRecord
    }
}

/// A recognized line with well-formed tokens yields a record populating
/// exactly one field, the one its prefix names in the table; any other
/// outcome populates none.
pub proof fn lemma_record_single_field(line: Seq<char>)
    ensures
        parse_spec(line) matches LineOutcome::Record(v) ==> populated_count(v) == 1,
        parse_spec(line) matches LineOutcome::Record(v) ==> (tokens_of(line)[0] == "Stake:"@
            ==> v.stake is Some),
        parse_spec(line) matches LineOutcome::Record(v) ==> (tokens_of(line)[0] == "Change:"@
            ==> v.change is Some),
        parse_spec(line) matches LineOutcome::Record(v) ==> (tokens_of(line)[0] == "Multiplier:"@
            ==> v.multiplier is Some),
        parse_spec(line) matches LineOutcome::Record(v) ==> (tokens_of(line)[0] == "Best"@
            ==> v.difficulty is Some),
        parse_spec(line) matches LineOutcome::Record(v) ==> (tokens_of(line)[0] == "Timestamp:"@
            ==> v.timestamp is Some),
        parse_spec(line) matches LineOutcome::Record(v) ==> (tokens_of(line)[0] == "OK"@
            ==> v.tx_hash is Some),
{
        reveal_strlit("Stake:");
        reveal_strlit("Change:");
        reveal_strlit("Multiplier:");
        reveal_strlit("Best");
        reveal_strlit("hash:");
        reveal_strlit("Timestamp:");
        reveal_strlit("OK");
        assert("Stake:"@.len() == 6);
        assert("Change:"@.len() == 7);
        assert("Multiplier:"@.len() == 11);
        assert("Best"@.len() == 4);
        assert("hash:"@.len() == 5);
        assert("Timestamp:"@.len() == 10);
        assert("OK"@.len() == 2);
}

/// A line is parsed to no record, with no error, exactly when no recognized
/// prefix matches it; it is parsed to an error exactly when a recognized
/// prefix matches but the required token is missing or malformed; it yields
/// a record exactly when a recognized prefix matches and its token is well
/// formed.
pub proof fn lemma_parse_trichotomy(line: Seq<char>)
    ensures
        parse_spec(line) is NoRecord <==> !recognized(tokens_of(line)),
        parse_spec(line) is Malformed <==> recognized(tokens_of(line)) && !well_formed(
            tokens_of(line),
        ),
        parse_spec(line) is Record <==> recognized(tokens_of(line)) && well_formed(
            tokens_of(line),
        ),
{
        reveal_strlit("Stake:");
        reveal_strlit("Change:");
        reveal_strlit("Multiplier:");
        reveal_strlit("Best");
        reveal_strlit("hash:");
        reveal_strlit("Timestamp:");
        reveal_strlit("OK");
        assert("Stake:"@.len() == 6);
        assert("Change:"@.len() == 7);
        assert("Multiplier:"@.len() == 11);
        assert("Best"@.len() == 4);
        assert("hash:"@.len() == 5);
        assert("Timestamp:"@.len() == 10);
        assert("OK"@.len() == 2);
}

fn parse_error(msg: &str) -> (r: OreMinerError)
    ensures
        r matches OreMinerError::ParseError(m) && m@ == msg@,
{
    OreMinerError::ParseError(String::from_str(msg))
}

/// Parses `parts[index]` as a decimal value; reports a missing or
/// malformed token.
pub fn parse_float(parts: &Vec<String>, index: usize) -> (r: Result<
    Option<Decimal>,
    OreMinerError,
>)
    ensures
        index < parts.deep_view().len() && dec_token_valid(parts.deep_view()[index as int])
            ==> (r matches Ok(d) && d == Some(dec_of(parts.deep_view()[index as int]))),
        index >= parts.deep_view().len() ==> (r matches Err(e) && (e matches
            OreMinerError::ParseError(m) && m@ == "Missing value"@)),
        index < parts.deep_view().len() && !dec_token_valid(parts.deep_view()[index as int])
            ==> (r matches Err(e) && (e matches OreMinerError::ParseError(m) && m@
            == "Failed to parse float"@)),
{
    if index >= parts.len() {
        return Err(parse_error("Missing value"));
    }
    match parse_dec_token(parts[index].as_str()) {
        Some(d) => Ok(Some(d)),
        None => Err(parse_error("Failed to parse float")),
    }
}

/// Parses `parts[1]`, with any trailing `x` stripped, as the multiplier.
pub fn parse_multiplier(parts: &Vec<String>) -> (r: Result<Option<Decimal>, OreMinerError>)
    ensures
        parts.deep_view().len() >= 2 && dec_token_valid(strip_trailing(parts.deep_view()[1], 'x'))
            ==> (r matches Ok(d) && d == Some(dec_of(strip_trailing(parts.deep_view()[1], 'x')))),
        parts.deep_view().len() < 2 ==> (r matches Err(e) && (e matches
            OreMinerError::ParseError(m) && m@ == "Missing multiplier value"@)),
        parts.deep_view().len() >= 2 && !dec_token_valid(strip_trailing(parts.deep_view()[1], 'x'))
            ==> (r matches Err(e) && (e matches OreMinerError::ParseError(m) && m@
            == "Failed to parse multiplier"@)),
{
    if parts.len() < 2 {
        return Err(parse_error("Missing multiplier value"));
    }
    match parse_dec_token(strip_trailing_char(parts[1].as_str(), 'x')) {
        Some(d) => Ok(Some(d)),
        None => Err(parse_error("Failed to parse multiplier")),
    }
}

/// Parses `parts[4]`, with any trailing `)` stripped, as the difficulty.
pub fn parse_difficulty(parts: &Vec<String>) -> (r: Result<Option<u64>, OreMinerError>)
    ensures
        parts.deep_view().len() >= 5 && u64_token_valid(strip_trailing(parts.deep_view()[4], ')'))
            ==> (r matches Ok(d) && d == Some(u64_of(strip_trailing(parts.deep_view()[4], ')')))),
        parts.deep_view().len() < 5 ==> (r matches Err(e) && (e matches
            OreMinerError::ParseError(m) && m@ == "Missing difficulty value"@)),
        parts.deep_view().len() >= 5 && !u64_token_valid(strip_trailing(parts.deep_view()[4], ')'))
            ==> (r matches Err(e) && (e matches OreMinerError::ParseError(m) && m@
            == "Failed to parse difficulty"@)),
{
    if parts.len() < 5 {
        return Err(parse_error("Missing difficulty value"));
    }
    match parse_u64_token(strip_trailing_char(parts[4].as_str(), ')')) {
        Some(d) => Ok(Some(d)),
        None => Err(parse_error("Failed to parse difficulty")),
    }
}

/// Joins `parts[1]` and `parts[2]` as the record's `{date}T{time}Z`
/// timestamp.
pub fn parse_timestamp(parts: &Vec<String>) -> (r: Result<Option<String>, OreMinerError>)
    ensures
        parts.deep_view().len() >= 3 ==> (r matches Ok(t) && (t matches Some(ts) && ts@
            == joined_timestamp(parts.deep_view()[1], parts.deep_view()[2]))),
        parts.deep_view().len() < 3 ==> (r matches Err(e) && (e matches
            OreMinerError::ParseError(m) && m@ == "Invalid timestamp format"@)),
{
    if parts.len() < 3 {
        return Err(parse_error("Invalid timestamp format"));
    }
    let mut out = parts[1].clone();
    out.append("T");
    out.append(parts[2].as_str());
    out.append("Z");
    proof {
        reveal_strlit("T");
        reveal_strlit("Z");
        assert("T"@ =~= seq!['T']);
        assert("Z"@ =~= seq!['Z']);
    }
    Ok(Some(out))
}

/// Parses one raw output line. A blank or unrecognized line yields no
/// record and no error; a recognized line yields a record with exactly one
/// populated field, or the error that `parse_spec` names for it.
pub fn parse_metrics(line: &str) -> (r: Result<Option<Metrics>, OreMinerError>)
    ensures
        parse_spec(line@) matches LineOutcome::Record(v) ==> (r matches Ok(o) && (o matches
            Some(m) && m@ == v)),
        parse_spec(line@) is NoRecord ==> (r matches Ok(o) && o is None),
        parse_spec(line@) matches LineOutcome::Malformed(msg) ==> (r matches Err(e) && (e
            matches OreMinerError::ParseError(m) && m@ == msg)),
{
    let parts = tokenize(line);
    let ghost toks = tokens_of(line@);
    if parts.len() == 0 {
        return Ok(None);
    }
    let mut m = Metrics::new();
    let head = parts[0].as_str();
    if str_eq(head, "Stake:") {
        m.stake = match parse_float(&parts, 1) {
            Ok(d) => d,
            Err(e) => {
                return Err(e);
            },
        };
    } else if str_eq(head, "Change:") {
        m.change = match parse_float(&parts, 1) {
            Ok(d) => d,
            Err(e) => {
                return Err(e);
            },
        };
    } else if str_eq(head, "Multiplier:") {
        m.multiplier = match parse_multiplier(&parts) {
            Ok(d) => d,
            Err(e) => {
                return Err(e);
            },
        };
    } else if str_eq(head, "Best") && parts.len() >= 2 && str_eq(parts[1].as_str(), "hash:") {
        m.difficulty = match parse_difficulty(&parts) {
            Ok(d) => d,
            Err(e) => {
                return Err(e);
            },
        };
    } else if str_eq(head, "Timestamp:") {
        m.timestamp = match parse_timestamp(&parts) {
            Ok(t) => t,
            Err(e) => {
                return Err(e);
            },
        };
    } else if str_eq(head, "OK") {
        m.tx_hash = match parse_tx_hash(&parts) {
            Ok(t) => t,
            Err(e) => {
                return Err(e);
            },
        };
    } else {
        return Ok(None);
    }
    Ok(Some(m))
}

/// Takes `parts[1]` as the transaction hash.
fn parse_tx_hash(parts: &Vec<String>) -> (r: Result<Option<String>, OreMinerError>)
    ensures
        parts.deep_view().len() >= 2 ==> (r matches Ok(t) && (t matches Some(h) && h@
            == parts.deep_view()[1])),
        parts.deep_view().len() < 2 ==> (r matches Err(e) && (e matches
            OreMinerError::ParseError(m) && m@ == "Missing tx_hash"@)),
{
    if parts.len() < 2 {
        return Err(parse_error("Missing tx_hash"));
    }
    Ok(Some(parts[1].clone()))
}

} // verus!
