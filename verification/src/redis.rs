//! What the Redis backend writes and reads, and what the answers mean.
//!
//! All records of a payment live in one hash, whose key is made of the
//! merchant and the payment. The intent and the attempt are fields of that
//! hash. The account of a merchant is a field of the merchant's own hash. Records are created with a write that leaves an existing field as
//! it is, and updated with one that replaces it.

use crate::error::StoreError;
use vstd::prelude::*;
use vstd::string::StringExecFns;

verus! {

/// The pattern that matches the fields of attempts in the hash of a payment.
pub const ATTEMPT_PATTERN: &'static str = "pa_*";

/// The key of the hash that holds the records of a payment.
pub open spec fn payment_key(payment_id: Seq<char>) -> Seq<char> {
    "mer_kaps_pay_"@ + payment_id
}

/// The field of the hash that holds the intent.
pub open spec fn intent_field(payment_id: Seq<char>) -> Seq<char> {
    "pi_"@ + payment_id
}

/// The field of the hash that holds the attempt.
pub open spec fn attempt_field(payment_id: Seq<char>) -> Seq<char> {
    "pa_"@ + payment_id
}

/// The field that holds the account of a merchant.
pub const ACCOUNT_FIELD: &'static str = "account";

/// The key of the hash that holds the account of a merchant.
pub open spec fn account_key(merchant_id: Seq<char>) -> Seq<char> {
    "mer_"@ + merchant_id
}

/// How a field is written.
#[derive(Clone, Copy, Debug, PartialEq, Eq, Structural)]
pub enum WriteMode {
    /// Write the field only if the hash does not have it yet.
    IfAbsent,
    /// Write the field whether or not the hash has it.
    Overwrite,
}

/// Which record a field holds.
#[derive(Clone, Copy, Debug, PartialEq, Eq, Structural)]
pub enum RecordKind {
    Intent,
    Attempt,
}

/// A field of a hash: where a record is written or read.
#[derive(Debug)]
pub struct HashField {
    pub key: String,
    pub field: String,
}

/// The write of one record.
#[derive(Debug)]
pub struct HashWrite {
    pub target: HashField,
    pub mode: WriteMode,
}

/// The field in which a payment keeps a record of the given kind.
pub open spec fn spec_field_of(kind: RecordKind, payment_id: Seq<char>) -> (Seq<char>, Seq<char>) {
    (
        payment_key(payment_id),
        match kind {
            RecordKind::Intent => intent_field(payment_id),
            RecordKind::Attempt => attempt_field(payment_id),
        },
    )
}

/// The field in which a payment keeps a record of the given kind.
pub fn field_of(kind: RecordKind, payment_id: &str) -> (f: HashField)
    ensures
        (f.key@, f.field@) == spec_field_of(kind, payment_id@),
{
    let mut key = "mer_kaps_pay_".to_owned();
    key.append(payment_id);
    let mut field = match kind {
        RecordKind::Intent => "pi_".to_owned(),
        RecordKind::Attempt => "pa_".to_owned(),
    };
    field.append(payment_id);
    HashField { key, field }
}

/// The field in which a merchant's account is kept.
pub fn account_field(merchant_id: &str) -> (f: HashField)
    ensures
        f.key@ == account_key(merchant_id@),
        f.field@ == ACCOUNT_FIELD@,
{
    let mut key = "mer_".to_owned();
    key.append(merchant_id);
    HashField { key, field: ACCOUNT_FIELD.to_owned() }
}

/// The write that creates the account of a merchant: it leaves an account
/// that is there already as it is.
pub fn create_account_write(merchant_id: &str) -> (w: HashWrite)
    ensures
        w.target.key@ == account_key(merchant_id@),
        w.target.field@ == ACCOUNT_FIELD@,
        w.mode == WriteMode::IfAbsent,
{
    HashWrite { target: account_field(merchant_id), mode: WriteMode::IfAbsent }
}

/// The write that creates a record: it leaves a record that is there
/// already as it is.
pub fn create_write(kind: RecordKind, payment_id: &str) -> (w: HashWrite)
    ensures
        (w.target.key@, w.target.field@) == spec_field_of(kind, payment_id@),
        w.mode == WriteMode::IfAbsent,
{
    HashWrite { target: field_of(kind, payment_id), mode: WriteMode::IfAbsent }
}

/// The write that updates a record: it replaces what is there.
pub fn update_write(kind: RecordKind, payment_id: &str) -> (w: HashWrite)
    ensures
        (w.target.key@, w.target.field@) == spec_field_of(kind, payment_id@),
        w.mode == WriteMode::Overwrite,
{
    HashWrite { target: field_of(kind, payment_id), mode: WriteMode::Overwrite }
}

/// What the answer to the read of a field means: a field that is not there
/// is a record that is not there.
pub fn field_found(present: bool) -> (r: Result<(), StoreError>)
    ensures
        r == if present {
            Ok::<(), StoreError>(())
        } else {
            Err::<(), StoreError>(StoreError::NotFound)
        },
{
    if present {
        Ok(())
    } else {
        Err(StoreError::NotFound)
    }
}

/// What the answer to a scan for attempts means: no field, no attempt.
pub fn fields_found(count: usize) -> (r: Result<(), StoreError>)
    ensures
        r == if count == 0 {
            Err::<(), StoreError>(StoreError::NotFound)
        } else {
            Ok::<(), StoreError>(())
        },
{
    if count == 0 {
        Err(StoreError::NotFound)
    } else {
        Ok(())
    }
}

/// The account of a merchant is kept in a field that no payment uses for
/// its records, and different merchants keep theirs in different hashes.
pub proof fn lemma_account_field_is_apart(
    merchant_a: Seq<char>,
    merchant_b: Seq<char>,
    payment_id: Seq<char>,
)
    ensures
        ACCOUNT_FIELD@ != intent_field(payment_id),
        ACCOUNT_FIELD@ != attempt_field(payment_id),
        merchant_a != merchant_b ==> account_key(merchant_a) != account_key(merchant_b),
{
    reveal_strlit("account");
    reveal_strlit("mer_");
    reveal_strlit("pi_");
    reveal_strlit("pa_");
    assert(ACCOUNT_FIELD@[0] == 'a');
    assert(intent_field(payment_id)[0] == 'p');
    assert(attempt_field(payment_id)[0] == 'p');
    if merchant_a != merchant_b {
        let key = "mer_"@;
        assert((key + merchant_a).subrange(4, (key + merchant_a).len() as int) =~= merchant_a);
        assert((key + merchant_b).subrange(4, (key + merchant_b).len() as int) =~= merchant_b);
    }
}

/// The intent and the attempt of a payment are kept in different fields of
/// the same hash, and different payments in different hashes.
pub proof fn lemma_fields_do_not_collide(payment_a: Seq<char>, payment_b: Seq<char>)
    ensures
        intent_field(payment_a) != attempt_field(payment_b),
        payment_a != payment_b ==> payment_key(payment_a) != payment_key(payment_b),
        payment_a != payment_b ==> intent_field(payment_a) != intent_field(payment_b),
        payment_a != payment_b ==> attempt_field(payment_a) != attempt_field(payment_b),
{
    reveal_strlit("mer_kaps_pay_");
    reveal_strlit("pi_");
    reveal_strlit("pa_");
    let pi_a = intent_field(payment_a);
    let pa_b = attempt_field(payment_b);
    assert(pi_a[1] == 'i');
    assert(pa_b[1] == 'a');
    if payment_a != payment_b {
        let key = "mer_kaps_pay_"@;
        assert((key + payment_a).subrange(13, (key + payment_a).len() as int) =~= payment_a);
        assert((key + payment_b).subrange(13, (key + payment_b).len() as int) =~= payment_b);
        assert(intent_field(payment_a).subrange(3, intent_field(payment_a).len() as int)
            =~= payment_a);
        assert(intent_field(payment_b).subrange(3, intent_field(payment_b).len() as int)
            =~= payment_b);
        assert(attempt_field(payment_a).subrange(3, attempt_field(payment_a).len() as int)
            =~= payment_a);
        assert(attempt_field(payment_b).subrange(3, attempt_field(payment_b).len() as int)
            =~= payment_b);
    }
}

} // verus!
