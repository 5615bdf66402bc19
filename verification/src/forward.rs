//! The metric forwarder: a record becomes a batch of named metric entries,
//! one per populated numeric field, each tagged with the fixed deployment
//! dimension. An empty batch means no backend call is owed.

use vstd::prelude::*;

use crate::metrics::{numeric_count, Metrics, MetricsV};
use crate::num::Decimal;

verus! {

/// Mathematical image of one batch entry.
pub struct MetricEntryV {
    pub name: Seq<char>,
    pub value: Decimal,
    pub dimension_name: Seq<char>,
    pub dimension_value: Seq<char>,
}

/// One named metric value, tagged with the deployment dimension, ready for
/// the backend.
#[derive(Debug, Clone, PartialEq)]
pub struct MetricEntry {
    pub name: String,
    pub value: Decimal,
    pub dimension_name: String,
    pub dimension_value: String,
}

impl View for MetricEntry {
    type V = MetricEntryV;

    open spec fn view(&self) -> MetricEntryV {
        MetricEntryV {
            name: self.name@,
            value: self.value,
            dimension_name: self.dimension_name@,
            dimension_value: self.dimension_value@,
        }
    }
}

impl DeepView for MetricEntry {
    type V = MetricEntryV;

    open spec fn deep_view(&self) -> MetricEntryV {
        self.view()
    }
}

/// The entry carrying `value` under `name`, tagged with the fixed
/// deployment dimension.
pub open spec fn entry_spec(name: Seq<char>, value: Decimal) -> MetricEntryV {
    MetricEntryV {
        name,
        value,
        dimension_name: "Environment"@,
        dimension_value: "MainnetBeta"@,
    }
}

pub open spec fn opt_entry(name: Seq<char>, value: Option<Decimal>) -> Seq<MetricEntryV> {
    match value {
        Some(d) => seq![entry_spec(name, d)],
        None => Seq::empty(),
    }
}

/// An unsigned difficulty as a whole-number decimal value.
pub open spec fn difficulty_value(d: u64) -> Decimal {
    Decimal { negative: false, mantissa: d, scale: 0 }
}

/// The batch a record yields: its populated numeric fields, in the fixed
/// order stake, change, multiplier, difficulty.
pub open spec fn batch_spec(v: MetricsV) -> Seq<MetricEntryV> {
    opt_entry("Stake"@, v.stake) + opt_entry("Change"@, v.change) + opt_entry(
        "Multiplier"@,
        v.multiplier,
    ) + opt_entry(
        "Difficulty"@,
        match v.difficulty {
            Some(d) => Some(difficulty_value(d)),
            None => None,
        },
    )
}

/// The batch holds one entry per populated numeric field.
pub proof fn lemma_batch_len(v: MetricsV)
    ensures
        batch_spec(v).len() == numeric_count(v),
{
}

/// Builds the entry for one named value, or nothing if the field is not
/// populated.
pub fn build_metric_datum(name: &str, value: Option<Decimal>) -> (r: Option<MetricEntry>)
    ensures
        value matches Some(d) ==> (r matches Some(e) && e@ == entry_spec(name@, d)),
        value is None ==> r is None,
{
    match value {
        Some(d) => Some(
            MetricEntry {
                name: String::from_str(name),
                value: d,
                dimension_name: String::from_str("Environment"),
                dimension_value: String::from_str("MainnetBeta"),
            },
        ),
        None => None,
    }
}

/// Plans the forwarding of one record. `None` means the record populates no
/// numeric field, so zero backend calls are owed and forwarding succeeds
/// trivially; `Some(batch)` means exactly one backend call is owed, whose
/// batch holds one entry per populated numeric field.
pub fn forward(m: &Metrics) -> (r: Option<Vec<MetricEntry>>)
    ensures
        r is None <==> numeric_count(m@) == 0,
        r matches Some(b) ==> b.deep_view() == batch_spec(m@) && b@.len() == numeric_count(m@),
{
    let mut batch: Vec<MetricEntry> = Vec::new();
    if let Some(e) = build_metric_datum("Stake", m.stake) {
        batch.push(e);
    }
    proof {
        assert(batch.deep_view() =~= opt_entry("Stake"@, m@.stake));
    }
    if let Some(e) = build_metric_datum("Change", m.change) {
        batch.push(e);
    }
    proof {
        assert(batch.deep_view() =~= opt_entry("Stake"@, m@.stake) + opt_entry(
            "Change"@,
            m@.change,
        ));
    }
    if let Some(e) = build_metric_datum("Multiplier", m.multiplier) {
        batch.push(e);
    }
    proof {
        assert(batch.deep_view() =~= opt_entry("Stake"@, m@.stake) + opt_entry(
            "Change"@,
            m@.change,
        ) + opt_entry("Multiplier"@, m@.multiplier));
    }
    let difficulty = match m.difficulty {
        Some(d) => Some(Decimal { negative: false, mantissa: d, scale: 0 }),
        None => None,
    };
    if let Some(e) = build_metric_datum("Difficulty", difficulty) {
        batch.push(e);
    }
    proof {
        assert(batch.deep_view() =~= batch_spec(m@));
    }
    if batch.len() == 0 {
        None
    } else {
        Some(batch)
    }
}

} // verus!
