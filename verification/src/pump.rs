//! The stream pump's decision core: what one standard-output line
//! contributes to the backend, and what a whole stream of lines yields, in
//! the order the lines were read. The surrounding binary drains the child's
//! pipes and performs the submissions.

use vstd::prelude::*;

use crate::errors::OreMinerError;
use crate::forward::{batch_spec, forward, MetricEntry, MetricEntryV};
use crate::metrics::numeric_count;
use crate::parser::{parse_metrics, parse_spec, LineOutcome};

verus! {

/// The batch one line contributes: the batch of its record if it has
/// populated numeric fields, and nothing for blank, unrecognized,
/// malformed, or purely informational lines.
pub open spec fn line_batch(line: Seq<char>) -> Option<Seq<MetricEntryV>> {
    match parse_spec(line) {
        LineOutcome::Record(v) => if numeric_count(v) > 0 {
            Some(batch_spec(v))
        } else {
            None
        },
        _ => None,
    }
}

/// The batches a stream of lines yields, one per contributing line, in
/// line order.
pub open spec fn batches_of(lines: Seq<Seq<char>>) -> Seq<Seq<MetricEntryV>>
    decreases lines.len(),
{
    if lines.len() == 0 {
        Seq::empty()
    } else {
        (match line_batch(lines[0]) {
            Some(b) => seq![b],
            None => Seq::empty(),
        }) + batches_of(lines.drop_first())
    }
}

/// Feeding one more line to the pump appends that line's contribution and
/// leaves the batches of the earlier lines unchanged: per-stream order is
/// preserved.
pub proof fn lemma_batches_of_push(lines: Seq<Seq<char>>, line: Seq<char>)
    ensures
        batches_of(lines.push(line)) == batches_of(lines) + (match line_batch(line) {
            Some(b) => seq![b],
            None => Seq::empty(),
        }),
    decreases lines.len(),
{
    let c = (match line_batch(line) {
        Some(b) => seq![b],
        None => Seq::<Seq<MetricEntryV>>::empty(),
    });
    if lines.len() == 0 {
        assert(lines.push(line)[0] == line);
        assert(lines.push(line).drop_first() =~= Seq::<Seq<char>>::empty());
        assert(batches_of(lines.push(line)) == c + batches_of(Seq::<Seq<char>>::empty()));
        assert(c + batches_of(Seq::<Seq<char>>::empty()) =~= c);
        assert(batches_of(lines) + c =~= c);
    } else {
        assert(lines.push(line)[0] == lines[0]);
        assert(lines.push(line).drop_first() =~= lines.drop_first().push(line));
        lemma_batches_of_push(lines.drop_first(), line);
        assert(batches_of(lines.push(line)) =~= batches_of(lines) + (match line_batch(line) {
            Some(b) => seq![b],
            None => Seq::empty(),
        }));
    }
}

/// Handles one line read from the child's standard output: parse, then
/// plan the forwarding. A malformed recognized line is the only error; it
/// is reported, not fatal, and contributes no batch.
pub fn process_line(line: &str) -> (r: Result<Option<Vec<MetricEntry>>, OreMinerError>)
    ensures
        r is Err <==> parse_spec(line@) is Malformed,
        r matches Err(e) ==> (e matches OreMinerError::ParseError(m) && (parse_spec(
            line@,
        ) matches LineOutcome::Malformed(msg) && m@ == msg)),
        r matches Ok(o) ==> match (o, line_batch(line@)) {
            (Some(b), Some(sb)) => b.deep_view() == sb,
            (None, None) => true,
            _ => false,
        },
{
    match parse_metrics(line) {
        Err(e) => Err(e),
        Ok(None) => Ok(None),
        Ok(Some(m)) => Ok(forward(&m)),
    }
}

/// Drains a captured sequence of standard-output lines in order, skipping
/// lines that contribute nothing (including malformed ones, which the
/// caller reports), and returns the batches owed to the backend, in the
/// order their source lines were read.
pub fn pump_stdout_lines(lines: &Vec<String>) -> (r: Vec<Vec<MetricEntry>>)
    ensures
        r.deep_view() == batches_of(lines.deep_view()),
{
    let ghost lv = lines.deep_view();
    let mut out: Vec<Vec<MetricEntry>> = Vec::new();
    let mut i: usize = 0;
    proof {
        assert(lv.take(0) =~= Seq::<Seq<char>>::empty());
        assert(out.deep_view() =~= Seq::<Seq<MetricEntryV>>::empty());
    }
    while i < lines.len()
        invariant
            i <= lines.len(),
            lv == lines.deep_view(),
            lv.len() == lines.len(),
            out.deep_view() == batches_of(lv.take(i as int)),
        decreases lines.len() - i,
    {
        proof {
            lemma_batches_of_push(lv.take(i as int), lv[i as int]);
            assert(lv.take(i as int).push(lv[i as int]) =~= lv.take(i as int + 1));
        }
        let ghost prev = out.deep_view();
        match process_line(lines[i].as_str()) {
            Ok(Some(b)) => {
                let ghost bv = b.deep_view();
                out.push(b);
                proof {
                    assert(out.deep_view() =~= prev.push(bv));
                    assert(prev.push(bv) =~= prev + seq![bv]);
                }
            },
            _ => {},
        }
        i = i + 1;
    }
    proof {
        assert(lv.take(lines.len() as int) =~= lv);
    }
    out
}

} // verus!
