//! The names under which the service reports what it measures.
//!
//! Every call of a backend is timed and its latency recorded in one
//! histogram, labelled with the kind of record, the operation and the cell.
//! The lag poller records its observations in a histogram of its own.

use vstd::prelude::*;

verus! {

/// The histogram of backend latencies, in milliseconds.
pub const LATENCY_METRIC: &'static str = "latency_tracker_e";

/// The metric whose buckets are configured at start-up.
pub const BUCKETED_METRIC: &'static str = "latency_tracker";

/// The histogram of replication lag, in milliseconds.
pub const REPLICATION_LAG_METRIC: &'static str = "replication_lag";

/// The number of bucket bounds of the latency histogram.
pub const BUCKET_COUNT: usize = 11;

/// The upper bounds of the buckets of the latency histogram.
pub open spec fn bucket_bounds() -> Seq<u32> {
    seq![10u32, 50u32, 100u32, 300u32, 500u32, 750u32, 1000u32, 1500u32, 2000u32, 3000u32, 5000u32]
}

/// The upper bounds of the buckets of the latency histogram, in ascending
/// order.
pub fn latency_buckets() -> (bounds: Vec<u32>)
    ensures
        bounds@ == bucket_bounds(),
        bounds@.len() == BUCKET_COUNT,
        forall|i: int, j: int| 0 <= i < j < bounds@.len() ==> bounds@[i] < bounds@[j],
{
    let mut bounds: Vec<u32> = Vec::new();
    bounds.push(10);
    bounds.push(50);
    bounds.push(100);
    bounds.push(300);
    bounds.push(500);
    bounds.push(750);
    bounds.push(1000);
    bounds.push(1500);
    bounds.push(2000);
    bounds.push(3000);
    bounds.push(5000);
    assert(bounds@ =~= bucket_bounds());
    bounds
}

/// The labels of a latency observation, as pairs of name and value.
pub open spec fn spec_latency_labels(model: Seq<char>, operation: Seq<char>, cell: Seq<char>)
    -> Seq<(Seq<char>, Seq<char>)> {
    seq![("model"@, model), ("operation"@, operation), ("cell"@, cell)]
}

/// A list of labels, as sequences of characters.
pub open spec fn labels(list: Seq<(String, String)>) -> Seq<(Seq<char>, Seq<char>)> {
    list.map_values(|l: (String, String)| (l.0@, l.1@))
}

/// The labels of a latency observation: the kind of record, the operation
/// and the cell.
pub fn latency_labels(model_name: &str, op: &str, cell: &str) -> (list: Vec<(String, String)>)
    ensures
        labels(list@) == spec_latency_labels(model_name@, op@, cell@),
{
    let mut list: Vec<(String, String)> = Vec::new();
    list.push(("model".to_owned(), model_name.to_owned()));
    list.push(("operation".to_owned(), op.to_owned()));
    list.push(("cell".to_owned(), cell.to_owned()));
    assert(labels(list@) =~= spec_latency_labels(model_name@, op@, cell@));
    list
}

} // verus!
