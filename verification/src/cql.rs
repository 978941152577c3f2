//! The texts of the statements of the query language.
//!
//! A statement names its table and its columns and has a placeholder for
//! each value. The texts are put together here, so that the number of
//! placeholders is known: as many as the statement has values.

use crate::statement::placeholders;
use crate::text::{
    free_of, joined, lemma_free_of_means_none, lemma_occurrences_concat,
    lemma_occurrences_joined, occurrences, occurrences_in_all, push_joined,
};
use vstd::prelude::*;
use vstd::string::StringExecFns;

verus! {

/// A list of `n` placeholders.
pub open spec fn marks(n: nat) -> Seq<Seq<char>> {
    Seq::new(n, |i: int| seq!['?'])
}

/// The text of the statement that inserts a row into `table` unless a row
/// with the same key is there already: the names of the columns, and one
/// placeholder for each.
pub open spec fn insert_text(table: Seq<char>, columns: Seq<Seq<char>>) -> Seq<char> {
    "INSERT INTO "@ + table + " ("@ + joined(columns, ", "@) + ") VALUES("@ + joined(
        marks(columns.len()),
        ", "@,
    ) + ") IF NOT EXISTS;"@
}

/// Whether no name of a list holds a placeholder.
pub open spec fn plain_names(names: Seq<Seq<char>>) -> bool {
    forall|i: int| 0 <= i < names.len() ==> free_of(#[trigger] names[i], '?')
}

/// The texts of a list of string slices.
pub open spec fn slices(list: Seq<&'static str>) -> Seq<Seq<char>> {
    list.map_values(|p: &'static str| p@)
}

proof fn lemma_plain_names_hold_no_mark(names: Seq<Seq<char>>)
    requires
        plain_names(names),
    ensures
        occurrences_in_all(names, '?') == 0,
    decreases names.len(),
{
    if names.len() > 0 {
        assert forall|i: int| 0 <= i < names.drop_last().len() implies free_of(
            #[trigger] names.drop_last()[i],
            '?',
        ) by {
            assert(names.drop_last()[i] == names[i]);
        }
        lemma_plain_names_hold_no_mark(names.drop_last());
        assert(free_of(names[names.len() - 1], '?'));
        lemma_free_of_means_none(names.last(), '?');
    }
}

proof fn lemma_marks_hold_one_each(n: nat)
    ensures
        occurrences_in_all(marks(n), '?') == n,
    decreases n,
{
    if n > 0 {
        assert(marks(n).drop_last() =~= marks((n - 1) as nat));
        lemma_marks_hold_one_each((n - 1) as nat);
        let mark = seq!['?'];
        assert(marks(n).last() == mark);
        assert(mark.drop_last().len() == 0);
        assert(occurrences(mark.drop_last(), '?') == 0);
        assert(occurrences(mark, '?') == 1);
    }
}

/// An insert statement has as many parameters as columns, as long as the
/// names of table and columns hold no placeholder.
pub proof fn lemma_insert_text_placeholders(table: Seq<char>, columns: Seq<Seq<char>>)
    requires
        free_of(table, '?'),
        plain_names(columns),
    ensures
        placeholders(insert_text(table, columns)) == columns.len(),
{
    reveal_strlit("INSERT INTO ");
    reveal_strlit(" (");
    reveal_strlit(", ");
    reveal_strlit(") VALUES(");
    reveal_strlit(") IF NOT EXISTS;");
    let a = "INSERT INTO "@;
    let b = " ("@;
    let sep = ", "@;
    let c = ") VALUES("@;
    let d = ") IF NOT EXISTS;"@;
    assert(free_of(a, '?'));
    assert(free_of(b, '?'));
    assert(free_of(sep, '?'));
    assert(free_of(c, '?'));
    assert(free_of(d, '?'));
    lemma_free_of_means_none(a, '?');
    lemma_free_of_means_none(b, '?');
    lemma_free_of_means_none(c, '?');
    lemma_free_of_means_none(d, '?');
    lemma_free_of_means_none(table, '?');
    let names = joined(columns, sep);
    let values = joined(marks(columns.len()), sep);
    lemma_occurrences_joined(columns, sep, '?');
    lemma_occurrences_joined(marks(columns.len()), sep, '?');
    lemma_plain_names_hold_no_mark(columns);
    lemma_marks_hold_one_each(columns.len());
    lemma_occurrences_concat(a, table, '?');
    lemma_occurrences_concat(a + table, b, '?');
    lemma_occurrences_concat(a + table + b, names, '?');
    lemma_occurrences_concat(a + table + b + names, c, '?');
    lemma_occurrences_concat(a + table + b + names + c, values, '?');
    lemma_occurrences_concat(a + table + b + names + c + values, d, '?');
}

/// The text of the statement that inserts a row into `table` unless a row
/// with the same key is there already.
pub fn insert_cql(table: &str, columns: &Vec<&'static str>) -> (text: String)
    ensures
        text@ == insert_text(table@, slices(columns@)),
{
    let mut values: Vec<&'static str> = Vec::new();
    let mut i: usize = 0;
    while i < columns.len()
        invariant
            i <= columns@.len(),
            values@.len() == i,
            forall|j: int| 0 <= j < i ==> (#[trigger] values@[j])@ == seq!['?'],
        decreases columns@.len() - i,
    {
        proof {
            reveal_strlit("?");
        }
        values.push("?");
        assert("?"@ =~= seq!['?']);
        i = i + 1;
    }
    assert(slices(values@) =~= marks(columns@.len()));
    let mut text = "INSERT INTO ".to_owned();
    text.append(table);
    text.append(" (");
    push_joined(&mut text, columns, ", ");
    text.append(") VALUES(");
    push_joined(&mut text, &values, ", ");
    text.append(") IF NOT EXISTS;");
    text
}

/// The conditions that select by the given keys: each key is to equal the
/// value of its placeholder.
pub open spec fn conditions(keys: Seq<Seq<char>>) -> Seq<Seq<char>> {
    Seq::new(keys.len(), |i: int| keys[i] + " = ?"@)
}

/// The text of the statement that selects the rows of `table` with given
/// values of the keys.
pub open spec fn select_text(table: Seq<char>, keys: Seq<Seq<char>>) -> Seq<char> {
    "SELECT * FROM "@ + table + " WHERE "@ + joined(conditions(keys), " AND "@) + ";"@
}

/// The text of the statement that sets `column` in the rows of `table` with
/// given values of the keys.
pub open spec fn update_text(table: Seq<char>, column: Seq<char>, keys: Seq<Seq<char>>) -> Seq<
    char,
> {
    "UPDATE "@ + table + " set "@ + column + " = ? WHERE "@ + joined(conditions(keys), " AND "@)
        + ";"@
}

proof fn lemma_conditions_hold_one_each(keys: Seq<Seq<char>>)
    requires
        plain_names(keys),
    ensures
        occurrences_in_all(conditions(keys), '?') == keys.len(),
    decreases keys.len(),
{
    if keys.len() > 0 {
        let front = keys.drop_last();
        assert forall|i: int| 0 <= i < front.len() implies free_of(#[trigger] front[i], '?') by {
            assert(front[i] == keys[i]);
        }
        assert(conditions(keys).drop_last() =~= conditions(front));
        lemma_conditions_hold_one_each(front);
        reveal_strlit(" = ?");
        let tail = " = ?"@;
        assert(free_of(tail.drop_last(), '?'));
        lemma_free_of_means_none(tail.drop_last(), '?');
        assert(occurrences(tail, '?') == 1);
        assert(free_of(keys[keys.len() - 1], '?'));
        lemma_free_of_means_none(keys.last(), '?');
        lemma_occurrences_concat(keys.last(), tail, '?');
        assert(conditions(keys).last() == keys.last() + tail);
    }
}

/// A select statement has as many parameters as keys, as long as the names
/// of table and keys hold no placeholder.
pub proof fn lemma_select_text_placeholders(table: Seq<char>, keys: Seq<Seq<char>>)
    requires
        free_of(table, '?'),
        plain_names(keys),
    ensures
        placeholders(select_text(table, keys)) == keys.len(),
{
    reveal_strlit("SELECT * FROM ");
    reveal_strlit(" WHERE ");
    reveal_strlit(" AND ");
    reveal_strlit(";");
    let a = "SELECT * FROM "@;
    let b = " WHERE "@;
    let sep = " AND "@;
    let d = ";"@;
    assert(free_of(a, '?'));
    assert(free_of(b, '?'));
    assert(free_of(sep, '?'));
    assert(free_of(d, '?'));
    lemma_free_of_means_none(a, '?');
    lemma_free_of_means_none(b, '?');
    lemma_free_of_means_none(d, '?');
    lemma_free_of_means_none(table, '?');
    let wheres = joined(conditions(keys), sep);
    lemma_occurrences_joined(conditions(keys), sep, '?');
    lemma_conditions_hold_one_each(keys);
    lemma_occurrences_concat(a, table, '?');
    lemma_occurrences_concat(a + table, b, '?');
    lemma_occurrences_concat(a + table + b, wheres, '?');
    lemma_occurrences_concat(a + table + b + wheres, d, '?');
}

/// An update statement has one parameter for the new value and one for each
/// key, as long as the names of table, column and keys hold no placeholder.
pub proof fn lemma_update_text_placeholders(
    table: Seq<char>,
    column: Seq<char>,
    keys: Seq<Seq<char>>,
)
    requires
        free_of(table, '?'),
        free_of(column, '?'),
        plain_names(keys),
    ensures
        placeholders(update_text(table, column, keys)) == keys.len() + 1,
{
    reveal_strlit("UPDATE ");
    reveal_strlit(" set ");
    reveal_strlit(" = ? WHERE ");
    reveal_strlit(" AND ");
    reveal_strlit(";");
    let a = "UPDATE "@;
    let b = " set "@;
    let c = " = ? WHERE "@;
    let sep = " AND "@;
    let d = ";"@;
    assert(free_of(a, '?'));
    assert(free_of(b, '?'));
    assert(free_of(sep, '?'));
    assert(free_of(d, '?'));
    lemma_free_of_means_none(a, '?');
    lemma_free_of_means_none(b, '?');
    lemma_free_of_means_none(d, '?');
    lemma_free_of_means_none(table, '?');
    lemma_free_of_means_none(column, '?');
    assert(occurrences(c, '?') == 1) by {
        let before = c.take(3);
        let after = c.skip(4);
        assert(free_of(before, '?'));
        assert(free_of(after, '?'));
        lemma_free_of_means_none(before, '?');
        lemma_free_of_means_none(after, '?');
        let mark = seq!['?'];
        assert(mark.drop_last().len() == 0);
        assert(occurrences(mark.drop_last(), '?') == 0);
        assert(occurrences(mark, '?') == 1);
        lemma_occurrences_concat(before, mark, '?');
        lemma_occurrences_concat(before + mark, after, '?');
        assert(c =~= before + mark + after);
    }
    let wheres = joined(conditions(keys), sep);
    lemma_occurrences_joined(conditions(keys), sep, '?');
    lemma_conditions_hold_one_each(keys);
    lemma_occurrences_concat(a, table, '?');
    lemma_occurrences_concat(a + table, b, '?');
    lemma_occurrences_concat(a + table + b, column, '?');
    lemma_occurrences_concat(a + table + b + column, c, '?');
    lemma_occurrences_concat(a + table + b + column + c, wheres, '?');
    lemma_occurrences_concat(a + table + b + column + c + wheres, d, '?');
}

/// Appends the conditions that select by the given keys to `out`.
fn push_conditions(out: &mut String, keys: &Vec<&'static str>)
    ensures
        final(out)@ == old(out)@ + joined(conditions(slices(keys@)), " AND "@),
{
    let ghost all = conditions(slices(keys@));
    let mut i: usize = 0;
    assert(all.take(0) =~= Seq::<Seq<char>>::empty());
    assert(out@ =~= old(out)@ + joined(all.take(0), " AND "@));
    while i < keys.len()
        invariant
            i <= keys@.len(),
            all == conditions(slices(keys@)),
            out@ == old(out)@ + joined(all.take(i as int), " AND "@),
        decreases keys@.len() - i,
    {
        proof {
            assert(all.take(i + 1).drop_last() =~= all.take(i as int));
            assert(all.take(i + 1).last() == keys@[i as int]@ + " = ?"@);
        }
        if i > 0 {
            out.append(" AND ");
        }
        out.append(keys[i]);
        out.append(" = ?");
        i = i + 1;
        assert(out@ =~= old(out)@ + joined(all.take(i as int), " AND "@));
    }
    assert(all.take(keys@.len() as int) =~= all);
}

/// The text of the statement that selects the rows of `table` with given
/// values of the keys.
pub fn select_cql(table: &str, keys: &Vec<&'static str>) -> (text: String)
    ensures
        text@ == select_text(table@, slices(keys@)),
{
    let mut text = "SELECT * FROM ".to_owned();
    text.append(table);
    text.append(" WHERE ");
    push_conditions(&mut text, keys);
    text.append(";");
    text
}

/// The text of the statement that sets `column` in the rows of `table` with
/// given values of the keys.
pub fn update_cql(table: &str, column: &str, keys: &Vec<&'static str>) -> (text: String)
    ensures
        text@ == update_text(table@, column@, slices(keys@)),
{
    let mut text = "UPDATE ".to_owned();
    text.append(table);
    text.append(" set ");
    text.append(column);
    text.append(" = ? WHERE ");
    push_conditions(&mut text, keys);
    text.append(";");
    text
}

} // verus!
