//! The statements that the Cassandra backend executes, and what their
//! results mean.
//!
//! Each operation of the storage interface is one statement: a query text,
//! the values bound to its parameters and the consistency level. They are
//! built here. Executing them is left to the caller, who hands the number of
//! rows back to [`rows_found`] where the operation is a lookup.

use crate::attempt::{PaymentAttempt, ATTEMPT_COLUMNS};
use crate::cql::{
    insert_cql, insert_text, lemma_insert_text_placeholders, lemma_select_text_placeholders,
    lemma_update_text_placeholders, plain_names, select_cql, select_text, slices, update_cql,
    update_text,
};
use crate::enums::AttemptStatus;
use crate::error::StoreError;
use crate::intent::{PaymentIntent, INTENT_COLUMNS};
use crate::statement::{
    bind_views, placeholders, text_of, Bind, BindView, Consistency, EncodableView, Statement,
    StatementView,
};
use crate::text::free_of;
use vstd::prelude::*;

verus! {

/// The merchant that all payments of this deployment belong to.
pub const MERCHANT: &'static str = "kaps";

/// The status that an update gives to an intent.
pub const SUCCESS: &'static str = "SUCCESS";

/// The table of payment intents.
pub const INTENT_TABLE: &'static str = "payments.payment_intents";

/// The table of payment attempts.
pub const ATTEMPT_TABLE: &'static str = "payments.payment_attempts";

/// The column that an update sets.
pub const STATUS_COLUMN: &'static str = "status";

/// The keys by which the records of a payment are found.
pub open spec fn payment_keys() -> Seq<Seq<char>> {
    seq!["payment_id"@, "merchant_id"@]
}

/// The keys by which one attempt is found.
pub open spec fn attempt_keys() -> Seq<Seq<char>> {
    seq!["payment_id"@, "merchant_id"@, "attempt_id"@]
}

/// The names of tables, columns and keys hold no placeholder.
pub proof fn lemma_names_are_plain()
    ensures
        free_of(INTENT_TABLE@, '?'),
        free_of(ATTEMPT_TABLE@, '?'),
        free_of(STATUS_COLUMN@, '?'),
        plain_names(payment_keys()),
        plain_names(attempt_keys()),
{
    reveal_strlit("payments.payment_intents");
    reveal_strlit("payments.payment_attempts");
    reveal_strlit("status");
    reveal_strlit("payment_id");
    reveal_strlit("merchant_id");
    reveal_strlit("attempt_id");
    assert(free_of("payment_id"@, '?'));
    assert(free_of("merchant_id"@, '?'));
    assert(free_of("attempt_id"@, '?'));
}

/// The keys by which the records of a payment are found.
fn payment_key_names() -> (keys: Vec<&'static str>)
    ensures
        slices(keys@) == payment_keys(),
{
    let mut keys: Vec<&'static str> = Vec::new();
    keys.push("payment_id");
    keys.push("merchant_id");
    assert(slices(keys@) =~= payment_keys());
    keys
}

/// The keys by which one attempt is found.
fn attempt_key_names() -> (keys: Vec<&'static str>)
    ensures
        slices(keys@) == attempt_keys(),
{
    let mut keys: Vec<&'static str> = Vec::new();
    keys.push("payment_id");
    keys.push("merchant_id");
    keys.push("attempt_id");
    assert(slices(keys@) =~= attempt_keys());
    keys
}

/// The statement that inserts a payment intent unless it is there already,
/// with one parameter for each column of the table.
pub fn insert_intent_cql() -> (s: String)
    ensures
        s@ == insert_text(INTENT_TABLE@, PaymentIntent::names()),
        placeholders(s@) == INTENT_COLUMNS,
{
    let names = PaymentIntent::column_names();
    proof {
        lemma_names_are_plain();
        lemma_insert_text_placeholders(INTENT_TABLE@, PaymentIntent::names());
    }
    insert_cql(INTENT_TABLE, &names)
}

/// The statement that inserts a payment attempt unless it is there already,
/// with one parameter for each column of the table.
pub fn insert_attempt_cql() -> (s: String)
    ensures
        s@ == insert_text(ATTEMPT_TABLE@, PaymentAttempt::names()),
        placeholders(s@) == ATTEMPT_COLUMNS,
{
    let names = PaymentAttempt::column_names();
    proof {
        lemma_names_are_plain();
        lemma_insert_text_placeholders(ATTEMPT_TABLE@, PaymentAttempt::names());
    }
    insert_cql(ATTEMPT_TABLE, &names)
}

/// The statement that selects the attempts at a payment.
pub fn select_payment_attempt_all() -> (s: String)
    ensures
        s@ == select_text(ATTEMPT_TABLE@, payment_keys()),
        placeholders(s@) == 2,
{
    proof {
        lemma_names_are_plain();
        lemma_select_text_placeholders(ATTEMPT_TABLE@, payment_keys());
    }
    select_cql(ATTEMPT_TABLE, &payment_key_names())
}

/// The statement that updates the status of an attempt.
pub fn update_attempt_cql() -> (s: String)
    ensures
        s@ == update_text(ATTEMPT_TABLE@, STATUS_COLUMN@, attempt_keys()),
        placeholders(s@) == 4,
{
    proof {
        lemma_names_are_plain();
        lemma_update_text_placeholders(ATTEMPT_TABLE@, STATUS_COLUMN@, attempt_keys());
    }
    update_cql(ATTEMPT_TABLE, STATUS_COLUMN, &attempt_key_names())
}

/// The statement that updates the status of an intent.
pub fn update_intent_cql() -> (s: String)
    ensures
        s@ == update_text(INTENT_TABLE@, STATUS_COLUMN@, payment_keys()),
        placeholders(s@) == 3,
{
    proof {
        lemma_names_are_plain();
        lemma_update_text_placeholders(INTENT_TABLE@, STATUS_COLUMN@, payment_keys());
    }
    update_cql(INTENT_TABLE, STATUS_COLUMN, &payment_key_names())
}

/// The statement that selects one attempt at a payment.
pub fn retrieve_by_id() -> (s: String)
    ensures
        s@ == select_text(ATTEMPT_TABLE@, attempt_keys()),
        placeholders(s@) == 3,
{
    proof {
        lemma_names_are_plain();
        lemma_select_text_placeholders(ATTEMPT_TABLE@, attempt_keys());
    }
    select_cql(ATTEMPT_TABLE, &attempt_key_names())
}

/// The statement that selects a payment intent.
pub fn retrieve_payment_cql() -> (s: String)
    ensures
        s@ == select_text(INTENT_TABLE@, payment_keys()),
        placeholders(s@) == 2,
{
    proof {
        lemma_names_are_plain();
        lemma_select_text_placeholders(INTENT_TABLE@, payment_keys());
    }
    select_cql(INTENT_TABLE, &payment_key_names())
}

/// The statement for `query` with exactly the values of `row` as its
/// parameters, at the consistency level `level`.
pub open spec fn complete(query: Seq<char>, row: Seq<BindView>, level: Consistency)
    -> StatementView {
    StatementView { query, params: row, consistency: Some(level) }
}

/// Builds the statement for a query that has exactly one parameter for
/// each value of `row`.
fn complete_statement(query: String, row: Vec<Bind>, level: Consistency) -> (s: Statement)
    requires
        placeholders(query@) == row@.len(),
    ensures
        s@ == complete(query@, bind_views(row@), level),
{
    let mut statement = Statement::new(query);
    let bound = statement.bind_row(row);
    statement.set_consistency(level);
    assert(statement@.params =~= bind_views(row@));
    statement
}

/// The values that select the records of a payment: the payment and the
/// merchant.
pub open spec fn payment_row(payment_id: Seq<char>) -> Seq<BindView> {
    seq![text_of(payment_id), text_of(MERCHANT@)]
}

/// The values that select one attempt: the payment, the merchant and the
/// attempt.
pub open spec fn attempt_row(payment_id: Seq<char>, attempt_id: Seq<char>) -> Seq<BindView> {
    seq![text_of(payment_id), text_of(MERCHANT@), text_of(attempt_id)]
}

/// The values of an update of an intent: the new status, then the payment
/// and the merchant.
pub open spec fn intent_update_row(payment_id: Seq<char>) -> Seq<BindView> {
    seq![text_of(SUCCESS@), text_of(payment_id), text_of(MERCHANT@)]
}

/// The values of an update of an attempt: the new status, then the payment,
/// the merchant and the attempt.
pub open spec fn attempt_update_row(payment_id: Seq<char>, attempt_id: Seq<char>) -> Seq<BindView> {
    seq![
        BindView::Json(EncodableView::Status(AttemptStatus::Charged)),
        text_of(payment_id),
        text_of(MERCHANT@),
        text_of(attempt_id),
    ]
}

/// The values that select the records of a payment.
fn payment_binds(payment_id: &str) -> (row: Vec<Bind>)
    ensures
        bind_views(row@) == payment_row(payment_id@),
        row@.len() == 2,
{
    let mut row: Vec<Bind> = Vec::new();
    row.push(Bind::Text(payment_id.to_owned()));
    row.push(Bind::Text(MERCHANT.to_owned()));
    assert(bind_views(row@) =~= payment_row(payment_id@));
    row
}

/// The values that select one attempt.
fn attempt_binds(payment_id: &str, attempt_id: &str) -> (row: Vec<Bind>)
    ensures
        bind_views(row@) == attempt_row(payment_id@, attempt_id@),
        row@.len() == 3,
{
    let mut row: Vec<Bind> = Vec::new();
    row.push(Bind::Text(payment_id.to_owned()));
    row.push(Bind::Text(MERCHANT.to_owned()));
    row.push(Bind::Text(attempt_id.to_owned()));
    assert(bind_views(row@) =~= attempt_row(payment_id@, attempt_id@));
    row
}

/// The statement that stores a new intent unless it is there already: every
/// column of the record bound to its parameter, at consistency level one.
pub fn create_intent_statement(record: &PaymentIntent) -> (s: Statement)
    ensures
        s@ == complete(
            insert_text(INTENT_TABLE@, PaymentIntent::names()),
            record.row(),
            Consistency::One,
        ),
{
    complete_statement(insert_intent_cql(), record.binds(), Consistency::One)
}

/// The statement that looks an intent up, at local quorum.
pub fn retrieve_intent_statement(payment_id: &str) -> (s: Statement)
    ensures
        s@ == complete(
            select_text(INTENT_TABLE@, payment_keys()),
            payment_row(payment_id@),
            Consistency::LocalQuorum,
        ),
{
    complete_statement(retrieve_payment_cql(), payment_binds(payment_id), Consistency::LocalQuorum)
}

/// The statement that sets the status of an intent to `SUCCESS`, at
/// consistency level one.
pub fn update_intent_statement(payment_id: &str) -> (s: Statement)
    ensures
        s@ == complete(
            update_text(INTENT_TABLE@, STATUS_COLUMN@, payment_keys()),
            intent_update_row(payment_id@),
            Consistency::One,
        ),
{
    let mut row: Vec<Bind> = Vec::new();
    row.push(Bind::Text(SUCCESS.to_owned()));
    row.push(Bind::Text(payment_id.to_owned()));
    row.push(Bind::Text(MERCHANT.to_owned()));
    assert(bind_views(row@) =~= intent_update_row(payment_id@));
    complete_statement(update_intent_cql(), row, Consistency::One)
}

/// The statement that stores a new attempt unless it is there already:
/// every column of the record bound to its parameter, at consistency level
/// one.
pub fn create_attempt_statement(record: &PaymentAttempt) -> (s: Statement)
    ensures
        s@ == complete(
            insert_text(ATTEMPT_TABLE@, PaymentAttempt::names()),
            record.row(),
            Consistency::One,
        ),
{
    complete_statement(insert_attempt_cql(), record.binds(), Consistency::One)
}

/// The statement that looks up the attempts at a payment, at local quorum.
pub fn retrieve_all_statement(payment_id: &str) -> (s: Statement)
    ensures
        s@ == complete(
            select_text(ATTEMPT_TABLE@, payment_keys()),
            payment_row(payment_id@),
            Consistency::LocalQuorum,
        ),
{
    complete_statement(
        select_payment_attempt_all(),
        payment_binds(payment_id),
        Consistency::LocalQuorum,
    )
}

/// The statement that sets the status of an attempt at a payment to
/// `Charged`, at consistency level one. `version` is the identifier of the
/// attempt.
pub fn update_attempt_statement(payment_id: &str, version: &str) -> (s: Statement)
    ensures
        s@ == complete(
            update_text(ATTEMPT_TABLE@, STATUS_COLUMN@, attempt_keys()),
            attempt_update_row(payment_id@, version@),
            Consistency::One,
        ),
{
    let mut row: Vec<Bind> = Vec::new();
    row.push(Bind::json(&AttemptStatus::Charged));
    row.push(Bind::Text(payment_id.to_owned()));
    row.push(Bind::Text(MERCHANT.to_owned()));
    row.push(Bind::Text(version.to_owned()));
    assert(bind_views(row@) =~= attempt_update_row(payment_id@, version@));
    complete_statement(update_attempt_cql(), row, Consistency::One)
}

/// The statement that looks one attempt up by the identifiers of attempt
/// and payment, at local quorum.
pub fn retrieve_by_id_statement(payment_attempt_id: &str, payment_id: &str) -> (s: Statement)
    ensures
        s@ == complete(
            select_text(ATTEMPT_TABLE@, attempt_keys()),
            attempt_row(payment_id@, payment_attempt_id@),
            Consistency::LocalQuorum,
        ),
{
    complete_statement(
        retrieve_by_id(),
        attempt_binds(payment_id, payment_attempt_id),
        Consistency::LocalQuorum,
    )
}

/// The consistency level at which a merchant account is created.
pub fn create_account_consistency() -> (level: Consistency)
    ensures
        level == Consistency::EachQuorum,
{
    Consistency::EachQuorum
}

/// The consistency level at which a merchant account is looked up.
pub fn retrieve_account_consistency() -> (level: Consistency)
    ensures
        level == Consistency::LocalQuorum,
{
    Consistency::LocalQuorum
}

/// What the result of a lookup means: no row, no record.
pub fn rows_found(row_count: u64) -> (r: Result<(), StoreError>)
    ensures
        r == if row_count == 0 {
            Err::<(), StoreError>(StoreError::NotFound)
        } else {
            Ok::<(), StoreError>(())
        },
{
    if row_count == 0 {
        Err(StoreError::NotFound)
    } else {
        Ok(())
    }
}

} // verus!
