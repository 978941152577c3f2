//! Record identifiers: `{cell}_{table}_{epoch_ms}_{seed}`.
//!
//! An identifier embeds the cell that created the record, a short tag for the
//! kind of record, the creation time in milliseconds since the Unix epoch and
//! a seed supplied by the caller.

use crate::text::{
    decimal, free_of, lemma_decimal_free_of_underscore, lemma_decimal_injective,
    lemma_split_at_first, push_decimal,
};
use vstd::prelude::*;
use vstd::string::StringExecFns;

verus! {

/// The character that separates the parts of an identifier.
pub open spec fn separator() -> Seq<char> {
    seq!['_']
}

/// What stands in front of the seed: cell, table tag and creation time, each
/// followed by a separator.
pub open spec fn id_prefix(cell: Seq<char>, table: Seq<char>, epoch_ms: int) -> Seq<char> {
    cell + separator() + table + separator() + decimal(epoch_ms) + separator()
}

/// The identifier of a record created in `cell`, of the kind tagged `table`,
/// at `epoch_ms`, with the caller's `seed`.
pub open spec fn record_id(cell: Seq<char>, table: Seq<char>, epoch_ms: int, seed: Seq<char>) -> Seq<
    char,
> {
    id_prefix(cell, table, epoch_ms) + seed
}

/// Builds the identifier of a record from its four parts.
pub fn compose_id(cell: &str, table: &str, epoch_ms: i64, seed: &str) -> (id: String)
    ensures
        id@ == record_id(cell@, table@, epoch_ms as int, seed@),
{
    proof {
        reveal_strlit("_");
    }
    let mut id = String::from_str(cell);
    id.append("_");
    id.append(table);
    id.append("_");
    push_decimal(&mut id, epoch_ms);
    id.append("_");
    id.append(seed);
    assert(id@ =~= record_id(cell@, table@, epoch_ms as int, seed@));
    id
}

/// The current time in milliseconds since the Unix epoch.
///
/// Calls `chrono::Utc::now().timestamp_millis()`. The value depends on the
/// system clock, so nothing is claimed about it.
#[verifier::external_body]
pub(crate) fn now_millis() -> (now: i64) {
    chrono::Utc::now().timestamp_millis()
}

/// The identifiers that one cell gives to records of one kind, created in the
/// same millisecond, one for each seed.
pub open spec fn ids_for_seeds(
    cell: Seq<char>,
    table: Seq<char>,
    epoch_ms: int,
    seeds: Seq<Seq<char>>,
) -> Seq<Seq<char>> {
    Seq::new(seeds.len(), |i: int| record_id(cell, table, epoch_ms, seeds[i]))
}

/// Two identifiers that differ only in the seed are different.
pub proof fn lemma_distinct_seeds_give_distinct_ids(
    cell: Seq<char>,
    table: Seq<char>,
    epoch_ms: int,
    seed_a: Seq<char>,
    seed_b: Seq<char>,
)
    requires
        seed_a != seed_b,
    ensures
        record_id(cell, table, epoch_ms, seed_a) != record_id(cell, table, epoch_ms, seed_b),
{
    let prefix = id_prefix(cell, table, epoch_ms);
    let a = record_id(cell, table, epoch_ms, seed_a);
    let b = record_id(cell, table, epoch_ms, seed_b);
    if a == b {
        assert(a.subrange(prefix.len() as int, a.len() as int) =~= seed_a);
        assert(b.subrange(prefix.len() as int, b.len() as int) =~= seed_b);
        assert(false);
    }
}

/// For any cell and kind of record, pairwise distinct seeds used within one
/// millisecond give pairwise distinct identifiers.
pub proof fn lemma_ids_unique_within_millisecond(
    cell: Seq<char>,
    table: Seq<char>,
    epoch_ms: int,
    seeds: Seq<Seq<char>>,
)
    requires
        seeds.no_duplicates(),
    ensures
        ids_for_seeds(cell, table, epoch_ms, seeds).len() == seeds.len(),
        ids_for_seeds(cell, table, epoch_ms, seeds).no_duplicates(),
{
    let ids = ids_for_seeds(cell, table, epoch_ms, seeds);
    assert forall|i: int, j: int| 0 <= i < ids.len() && 0 <= j < ids.len() && i != j implies ids[i]
        != ids[j] by {
        lemma_distinct_seeds_give_distinct_ids(cell, table, epoch_ms, seeds[i], seeds[j]);
    }
}

/// An identifier determines the four parts it was built from, as long as
/// neither the cell nor the table tag holds the separator: two identifiers
/// are the same only if cell, kind of record, creation time and seed all are.
/// So records of different cells never share an identifier.
pub proof fn lemma_record_id_injective(
    cell_a: Seq<char>,
    table_a: Seq<char>,
    epoch_ms_a: int,
    seed_a: Seq<char>,
    cell_b: Seq<char>,
    table_b: Seq<char>,
    epoch_ms_b: int,
    seed_b: Seq<char>,
)
    requires
        free_of(cell_a, '_'),
        free_of(cell_b, '_'),
        free_of(table_a, '_'),
        free_of(table_b, '_'),
        record_id(cell_a, table_a, epoch_ms_a, seed_a) == record_id(
            cell_b,
            table_b,
            epoch_ms_b,
            seed_b,
        ),
    ensures
        cell_a == cell_b,
        table_a == table_b,
        epoch_ms_a == epoch_ms_b,
        seed_a == seed_b,
{
    let sep = seq!['_'];
    let time_a = decimal(epoch_ms_a);
    let time_b = decimal(epoch_ms_b);
    let rest2_a = time_a + sep + seed_a;
    let rest2_b = time_b + sep + seed_b;
    let rest1_a = table_a + sep + rest2_a;
    let rest1_b = table_b + sep + rest2_b;
    assert(record_id(cell_a, table_a, epoch_ms_a, seed_a) =~= cell_a + sep + rest1_a);
    assert(record_id(cell_b, table_b, epoch_ms_b, seed_b) =~= cell_b + sep + rest1_b);
    lemma_split_at_first(cell_a, rest1_a, cell_b, rest1_b, '_');
    lemma_split_at_first(table_a, rest2_a, table_b, rest2_b, '_');
    lemma_decimal_free_of_underscore(epoch_ms_a);
    lemma_decimal_free_of_underscore(epoch_ms_b);
    lemma_split_at_first(time_a, seed_a, time_b, seed_b, '_');
    lemma_decimal_injective(epoch_ms_a, epoch_ms_b);
}

/// A kind of record whose identifiers are made here.
pub trait GenerateId {
    /// The tag that the identifiers of this kind of record carry.
    spec fn table_name() -> Seq<char>;

    /// The tag that the identifiers of this kind of record carry.
    fn get_table_name() -> (s: String)
        ensures
            s@ == Self::table_name(),
    ;

    /// The identifier of a record of this kind, created in `cell` at
    /// `now_ms` with the caller's seed.
    fn generate_id_at(cell: &str, client_identifier: &str, now_ms: i64) -> (id: String)
        ensures
            id@ == record_id(cell@, Self::table_name(), now_ms as int, client_identifier@),
    {
        let table = Self::get_table_name();
        compose_id(cell, table.as_str(), now_ms, client_identifier)
    }

    /// The identifier of a record of this kind, created in `cell` now with
    /// the caller's seed. The creation time is read from the system clock.
    fn generate_id(cell: &str, client_identifier: &str) -> (id: String)
        ensures
            exists|now_ms: i64|
                id@ == #[trigger] record_id(
                    cell@,
                    Self::table_name(),
                    now_ms as int,
                    client_identifier@,
                ),
    {
        let now_ms = now_millis();
        Self::generate_id_at(cell, client_identifier, now_ms)
    }
}

} // verus!
