//! Query execution engine, pure side: the dispatch decision, the
//! translation of checkout failures, and the collection of results.
//!
//! A call runs strictly in sequence: encode, classify, acquire,
//! dispatch, collect, materialize. The runtime performs the network
//! steps and hands their outcomes back here; everything decided
//! about those outcomes is stated and proved in this module.

use vstd::prelude::*;
use vstd::string::StringSliceAdditionalSpecFns;
use crate::bytes_util::{contains_needle, slice_contains};
use crate::classifier::{classify, spec_classify, StatementKind};
use crate::columns::ExecutionResult;
use crate::errors::Error;
use crate::materialize::{materialize, spec_cell_value, CellData};
use crate::wire_tag::WireTag;

verus! {

/// Which protocol entry a batch goes to: the row-returning query
/// stream or the affected-count execute path.
#[derive(Clone, Copy, Debug, PartialEq, Eq, Structural)]
pub enum Dispatch {
    /// Fetch a result-set stream.
    Query,
    /// Run for an affected-row count only.
    Execute,
}

/// Routes a batch by the statement classifier: row-returning batches
/// go to the query stream, every other batch to the execute path.
pub fn plan_dispatch(sql: &str) -> (d: Dispatch)
    ensures
        d == Dispatch::Query <==> spec_classify(sql.spec_bytes()) == StatementKind::ReturnsRows,
{
    match classify(sql) {
        StatementKind::ReturnsRows => Dispatch::Query,
        StatementKind::NoRows => Dispatch::Execute,
    }
}

/// The byte text `timed out`.
pub open spec fn timed_out_needle() -> Seq<u8> {
    seq![116u8, 105u8, 109u8, 101u8, 100u8, 32u8, 111u8, 117u8, 116u8]
}

fn timed_out_vec() -> (r: Vec<u8>)
    ensures
        r@ == timed_out_needle(),
{
    let mut v: Vec<u8> = Vec::new();
    v.push(116);
    v.push(105);
    v.push(109);
    v.push(101);
    v.push(100);
    v.push(32);
    v.push(111);
    v.push(117);
    v.push(116);
    proof {
        assert(v@ =~= timed_out_needle());
    }
    v
}

/// Translates a checkout failure by its message: a report containing
/// `timed out` becomes the retryable pool-exhaustion error with its
/// remediation hint, any other report a connect error carrying the
/// runtime's text.
pub fn classify_acquire_error(msg: &str) -> (r: Error)
    ensures
        r is PoolExhausted <==> contains_needle(msg.spec_bytes(), timed_out_needle()),
        contains_needle(msg.spec_bytes(), timed_out_needle()) ==> r.spec_message()
            == "Connection pool timeout - all connections are busy. Try reducing concurrent requests or increasing pool size."@,
        !contains_needle(msg.spec_bytes(), timed_out_needle()) ==> r is Connect
            && r.spec_message() == "Failed to get connection from pool: "@ + msg@,
{
    let needle = timed_out_vec();
    if slice_contains(msg.as_bytes(), needle.as_slice()) {
        Error::PoolExhausted(String::from_str(
            "Connection pool timeout - all connections are busy. Try reducing concurrent requests or increasing pool size.",
        ))
    } else {
        let mut text = String::from_str("Failed to get connection from pool: ");
        text.append(msg);
        Error::Connect(text)
    }
}

// --- the affected-count sum ----------------------------------------------

/// The mathematical sum of the per-statement affected counts.
pub open spec fn spec_sum(counts: Seq<u64>) -> int
    decreases counts.len(),
{
    if counts.len() == 0 {
        0
    } else {
        counts[0] + spec_sum(counts.skip(1))
    }
}

proof fn lemma_sum_nonneg(counts: Seq<u64>)
    ensures
        spec_sum(counts) >= 0,
    decreases counts.len(),
{
    if counts.len() > 0 {
        lemma_sum_nonneg(counts.skip(1));
    }
}

proof fn lemma_sum_split(counts: Seq<u64>, i: int)
    requires
        0 <= i <= counts.len(),
    ensures
        spec_sum(counts) == spec_sum(counts.take(i)) + spec_sum(counts.skip(i)),
    decreases i,
{
    if i == 0 {
        assert(counts.take(0) =~= Seq::<u64>::empty());
        assert(counts.skip(0) =~= counts);
    } else {
        lemma_sum_split(counts, i - 1);
        let a = counts.take(i - 1);
        let b = counts.take(i);
        assert(b[0] == if i == 1 {
            counts[0]
        } else {
            a[0]
        });
        assert(spec_sum(counts.skip(i - 1)) == counts[i - 1] + spec_sum(counts.skip(i))) by {
            assert(counts.skip(i - 1)[0] == counts[i - 1]);
            assert(counts.skip(i - 1).skip(1) =~= counts.skip(i));
        }
        lemma_sum_snoc(a, counts[i - 1]);
        assert(b =~= a.push(counts[i - 1]));
    }
}

proof fn lemma_sum_snoc(counts: Seq<u64>, c: u64)
    ensures
        spec_sum(counts.push(c)) == spec_sum(counts) + c,
    decreases counts.len(),
{
    let w = counts.push(c);
    if counts.len() == 0 {
        assert(w[0] == c);
        assert(w.skip(1) =~= Seq::<u64>::empty());
        assert(spec_sum(Seq::<u64>::empty()) == 0);
    } else {
        assert(w[0] == counts[0]);
        assert(w.skip(1) =~= counts.skip(1).push(c));
        lemma_sum_snoc(counts.skip(1), c);
    }
}

/// Sums the per-statement affected counts of a multi-statement
/// batch: the reported total is the sum of every statement's count,
/// not the last one's. Absent exactly when the mathematical sum
/// overflows the counter.
pub fn total_affected(counts: &Vec<u64>) -> (r: Option<u64>)
    ensures
        r is Some <==> spec_sum(counts@) <= u64::MAX,
        r matches Some(total) ==> total == spec_sum(counts@),
{
    let n = counts.len();
    let mut acc: u64 = 0;
    let mut i: usize = 0;
    proof {
        assert(counts@.take(0) =~= Seq::<u64>::empty());
    }
    while i < n
        invariant
            n == counts@.len(),
            i <= n,
            acc == spec_sum(counts@.take(i as int)),
        decreases n - i,
    {
        let c = counts[i];
        let next = acc.checked_add(c);
        match next {
            Some(v) => {
                proof {
                    lemma_sum_snoc(counts@.take(i as int), c);
                    assert(counts@.take(i as int + 1) =~= counts@.take(i as int).push(c));
                }
                acc = v;
            },
            None => {
                proof {
                    lemma_sum_split(counts@, i as int);
                    assert(spec_sum(counts@.skip(i as int)) == counts@[i as int] + spec_sum(
                        counts@.skip(i as int + 1),
                    )) by {
                        assert(counts@.skip(i as int)[0] == counts@[i as int]);
                        assert(counts@.skip(i as int).skip(1) =~= counts@.skip(i as int + 1));
                    }
                    lemma_sum_nonneg(counts@.skip(i as int + 1));
                    assert(spec_sum(counts@) > u64::MAX);
                }
                return None;
            },
        }
        i = i + 1;
    }
    proof {
        assert(counts@.take(n as int) =~= counts@);
    }
    Some(acc)
}

/// Collects the execute path's outcome: the summed affected count,
/// or a server-shaped error when the sum cannot be represented.
pub fn collect_affected(counts: &Vec<u64>) -> (r: Result<ExecutionResult, Error>)
    ensures
        r is Ok <==> spec_sum(counts@) <= u64::MAX,
        r matches Ok(res) ==> res matches ExecutionResult::Affected(total) && total == spec_sum(
            counts@,
        ),
        r matches Err(e) ==> e is ExecutionFailed,
{
    let total = total_affected(counts);
    match total {
        Some(t) => Ok(ExecutionResult::Affected(t)),
        None => Err(Error::ExecutionFailed(String::from_str(
            "affected-row total overflows the 64-bit counter",
        ))),
    }
}

/// Collects the query path's outcome: the materialized result set
/// over the one shared schema.
pub fn collect_rows(names: Vec<String>, tags: Vec<WireTag>, raw: Vec<Vec<CellData>>) -> (r: Result<
    ExecutionResult,
    Error,
>)
    ensures
        r is Ok <==> names@.len() == tags@.len() && (forall|i: int|
            0 <= i < raw@.len() ==> (#[trigger] raw@[i])@.len() == names@.len()),
        r matches Ok(res) ==> res matches ExecutionResult::Rows(rs) && {
            &&& rs@.wf()
            &&& rs.shares_schema()
            &&& rs@.schema.names == names@.map_values(|n: String| n@)
            &&& rs@.schema.tags == tags@
            &&& rs@.rows.len() == raw@.len()
            &&& forall|i: int, j: int|
                0 <= i < raw@.len() && 0 <= j < names@.len() ==> rs@.rows[i][j] == spec_cell_value(
                    tags@[j],
                    raw@[i]@[j],
                )
        },
        r matches Err(e) ==> e is ExecutionFailed,
{
    let built = materialize(names, tags, raw);
    match built {
        Ok(rs) => Ok(ExecutionResult::Rows(rs)),
        Err(e) => Err(e),
    }
}

} // verus!
