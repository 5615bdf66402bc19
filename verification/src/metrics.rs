//! The metric record: a sparse bag of optional fields observed from one
//! output line. Each recognized line populates exactly one field; the
//! record is built fresh per line and consumed immediately.

use vstd::prelude::*;

use crate::num::Decimal;

verus! {

/// Mathematical image of a record: numeric fields as they are, textual
/// fields as character sequences.
pub struct MetricsV {
    pub stake: Option<Decimal>,
    pub change: Option<Decimal>,
    pub multiplier: Option<Decimal>,
    pub difficulty: Option<u64>,
    pub timestamp: Option<Seq<char>>,
    pub tx_hash: Option<Seq<char>>,
}

/// The metrics collected from one line of the mining process's output.
#[derive(Debug, Clone, PartialEq)]
pub struct Metrics {
    pub stake: Option<Decimal>,
    pub change: Option<Decimal>,
    pub multiplier: Option<Decimal>,
    pub difficulty: Option<u64>,
    pub timestamp: Option<String>,
    pub tx_hash: Option<String>,
}

impl View for Metrics {
    type V = MetricsV;

    open spec fn view(&self) -> MetricsV {
        MetricsV {
            stake: self.stake,
            change: self.change,
            multiplier: self.multiplier,
            difficulty: self.difficulty,
            timestamp: match self.timestamp {
                Some(t) => Some(t@),
                None => None,
            },
            tx_hash: match self.tx_hash {
                Some(t) => Some(t@),
                None => None,
            },
        }
    }
}

/// The record with no field populated.
pub open spec fn empty_record() -> MetricsV {
    MetricsV {
        stake: None,
        change: None,
        multiplier: None,
        difficulty: None,
        timestamp: None,
        tx_hash: None,
    }
}

pub open spec fn count_one<T>(o: Option<T>) -> int {
    if o is Some {
        1
    } else {
        0
    }
}

/// How many of the six fields are populated.
pub open spec fn populated_count(v: MetricsV) -> int {
    count_one(v.stake) + count_one(v.change) + count_one(v.multiplier) + count_one(v.difficulty)
        + count_one(v.timestamp) + count_one(v.tx_hash)
}

/// How many of the four numeric fields, the ones forwarded as metrics,
/// are populated.
pub open spec fn numeric_count(v: MetricsV) -> int {
    count_one(v.stake) + count_one(v.change) + count_one(v.multiplier) + count_one(v.difficulty)
}

impl Metrics {
    /// Creates a new record with all fields unpopulated.
    pub fn new() -> (r: Self)
        ensures
            r@ == empty_record(),
    {
        Self {
            stake: None,
            change: None,
            multiplier: None,
            difficulty: None,
            timestamp: None,
            tx_hash: None,
        }
    }
}

} // verus!
