//! What the DynamoDB backend asks for, and what it does with the answers.
//!
//! Records are items: lists of named attributes. A lookup is a query by the
//! payment's identifier, and for one attempt also by the attempt's. An
//! update reads the item, sets its `status` attribute and writes the item
//! back. Sending the requests is left to the caller.

use crate::error::StoreError;
use aws_sdk_dynamodb::types::AttributeValue;
use vstd::prelude::*;
use vstd::string::StringExecFns;

verus! {

/// The value of an attribute, as the DynamoDB client has it. Nothing of
/// its inside is visible here.
#[verifier::external_type_specification]
#[verifier::external_body]
pub struct ExAttributeValue(AttributeValue);

/// The attribute value of type string that holds `text`.
pub uninterp spec fn string_attribute(text: Seq<char>) -> AttributeValue;

/// Makes the attribute value of type string that holds `text`.
///
/// Calls the constructor `AttributeValue::S`. The contract claims no more
/// than that the value is determined by the text.
#[verifier::external_body]
fn attribute_s(text: String) -> (value: AttributeValue)
    ensures
        value == string_attribute(text@),
{
    AttributeValue::S(text)
}

/// The table of payment intents.
pub const INTENT_TABLE: &'static str = "payment_intents";

/// The table of payment attempts.
pub const ATTEMPT_TABLE: &'static str = "payment_attempts";

/// The table of merchant accounts.
pub const ACCOUNT_TABLE: &'static str = "merchant_accounts";

/// The key attribute of payment intents and attempts.
pub const PAYMENT_KEY: &'static str = "payment_id";

/// The key attribute of merchant accounts.
pub const MERCHANT_KEY: &'static str = "merchant_id";

/// The attribute that holds the status of a record.
pub const STATUS_ATTRIBUTE: &'static str = "status";

/// The status that an update gives to an intent.
pub const SUCCESS: &'static str = "SUCCESS";

/// The status that an update gives to an attempt.
pub const CHARGED: &'static str = "Charged";

/// A query for the items with given key attributes.
#[derive(Debug)]
pub struct Query {
    /// The table to look in.
    pub table: String,
    /// The condition on the key, over the placeholders below.
    pub key_condition: String,
    /// The attribute that each name placeholder stands for.
    pub names: Vec<(String, String)>,
    /// The string that each value placeholder stands for.
    pub values: Vec<(String, String)>,
}

/// What a [`Query`] holds, with strings as sequences of characters.
pub struct QueryView {
    pub table: Seq<char>,
    pub key_condition: Seq<char>,
    pub names: Seq<(Seq<char>, Seq<char>)>,
    pub values: Seq<(Seq<char>, Seq<char>)>,
}

/// A list of pairs of strings, as sequences of characters.
pub open spec fn pairs(list: Seq<(String, String)>) -> Seq<(Seq<char>, Seq<char>)> {
    list.map_values(|p: (String, String)| (p.0@, p.1@))
}

impl View for Query {
    type V = QueryView;

    open spec fn view(&self) -> QueryView {
        QueryView {
            table: self.table@,
            key_condition: self.key_condition@,
            names: pairs(self.names@),
            values: pairs(self.values@),
        }
    }
}

/// The query for the items of `table` whose payment is `payment_id`.
pub open spec fn by_payment(table: Seq<char>, payment_id: Seq<char>) -> QueryView {
    QueryView {
        table,
        key_condition: "#key = :value"@,
        names: seq![("#key"@, "payment_id"@)],
        values: seq![(":value"@, payment_id)],
    }
}

/// The query for the account of the merchant `merchant_id`.
pub open spec fn by_merchant(merchant_id: Seq<char>) -> QueryView {
    QueryView {
        table: ACCOUNT_TABLE@,
        key_condition: "#key = :value"@,
        names: seq![("#key"@, MERCHANT_KEY@)],
        values: seq![(":value"@, merchant_id)],
    }
}

/// The condition under which a record is created: that no record has a
/// value of the key attribute `key` yet.
pub open spec fn spec_unless_exists(key: Seq<char>) -> Seq<char> {
    "attribute_not_exists("@ + key + ")"@
}

/// The query for the attempt `attempt_id` at the payment `payment_id`.
pub open spec fn by_payment_and_attempt(payment_id: Seq<char>, attempt_id: Seq<char>) -> QueryView {
    QueryView {
        table: ATTEMPT_TABLE@,
        key_condition: "#key = :value AND #sort = :sort"@,
        names: seq![("#key"@, "payment_id"@), ("#sort"@, "attempt_id"@)],
        values: seq![(":value"@, payment_id), (":sort"@, attempt_id)],
    }
}

/// The query that looks an intent up.
pub fn intent_query(payment_id: &str) -> (q: Query)
    ensures
        q@ == by_payment(INTENT_TABLE@, payment_id@),
{
    let mut names: Vec<(String, String)> = Vec::new();
    names.push(("#key".to_owned(), "payment_id".to_owned()));
    let mut values: Vec<(String, String)> = Vec::new();
    values.push((":value".to_owned(), payment_id.to_owned()));
    let q = Query {
        table: INTENT_TABLE.to_owned(),
        key_condition: "#key = :value".to_owned(),
        names,
        values,
    };
    assert(q@.names =~= by_payment(INTENT_TABLE@, payment_id@).names);
    assert(q@.values =~= by_payment(INTENT_TABLE@, payment_id@).values);
    q
}

/// The query that looks the account of a merchant up.
pub fn account_query(merchant_id: &str) -> (q: Query)
    ensures
        q@ == by_merchant(merchant_id@),
{
    let mut names: Vec<(String, String)> = Vec::new();
    names.push(("#key".to_owned(), MERCHANT_KEY.to_owned()));
    let mut values: Vec<(String, String)> = Vec::new();
    values.push((":value".to_owned(), merchant_id.to_owned()));
    let q = Query {
        table: ACCOUNT_TABLE.to_owned(),
        key_condition: "#key = :value".to_owned(),
        names,
        values,
    };
    assert(q@.names =~= by_merchant(merchant_id@).names);
    assert(q@.values =~= by_merchant(merchant_id@).values);
    q
}

/// The condition under which a record is created: that no record has a
/// value of the key attribute `key` yet.
pub fn unless_exists(key: &str) -> (condition: String)
    ensures
        condition@ == spec_unless_exists(key@),
{
    let mut condition = "attribute_not_exists(".to_owned();
    condition.append(key);
    condition.append(")");
    condition
}

/// The query that looks attempts up: all attempts at a payment, or the one
/// attempt that `version` names.
pub fn attempt_query(payment_id: &str, version: Option<&str>) -> (q: Query)
    ensures
        q@ == match version {
            Some(v) => by_payment_and_attempt(payment_id@, v@),
            None => by_payment(ATTEMPT_TABLE@, payment_id@),
        },
{
    let mut names: Vec<(String, String)> = Vec::new();
    names.push(("#key".to_owned(), "payment_id".to_owned()));
    let mut values: Vec<(String, String)> = Vec::new();
    values.push((":value".to_owned(), payment_id.to_owned()));
    match version {
        Some(v) => {
            names.push(("#sort".to_owned(), "attempt_id".to_owned()));
            values.push((":sort".to_owned(), v.to_owned()));
            let q = Query {
                table: ATTEMPT_TABLE.to_owned(),
                key_condition: "#key = :value AND #sort = :sort".to_owned(),
                names,
                values,
            };
            assert(q@.names =~= by_payment_and_attempt(payment_id@, v@).names);
            assert(q@.values =~= by_payment_and_attempt(payment_id@, v@).values);
            q
        },
        None => {
            let q = Query {
                table: ATTEMPT_TABLE.to_owned(),
                key_condition: "#key = :value".to_owned(),
                names,
                values,
            };
            assert(q@.names =~= by_payment(ATTEMPT_TABLE@, payment_id@).names);
            assert(q@.values =~= by_payment(ATTEMPT_TABLE@, payment_id@).values);
            q
        },
    }
}

/// What the answer to a query means: the last of the items that came back,
/// or `NotFound` if none did.
pub fn last_item<T>(items: Option<Vec<T>>) -> (r: Result<T, StoreError>)
    ensures
        match r {
            Ok(item) => items matches Some(v) && v@.len() > 0 && item == v@.last(),
            Err(e) => e == StoreError::NotFound && (items matches Some(v) ==> v@.len() == 0),
        },
{
    match items {
        Some(mut v) => match v.pop() {
            Some(item) => Ok(item),
            None => Err(StoreError::NotFound),
        },
        None => Err(StoreError::NotFound),
    }
}

/// What the answer to a query for all attempts means: success if an item
/// came back, `NotFound` if none did.
pub fn items_found<T>(items: &Option<Vec<T>>) -> (r: Result<(), StoreError>)
    ensures
        r == if items matches Some(v) && v@.len() > 0 {
            Ok::<(), StoreError>(())
        } else {
            Err::<(), StoreError>(StoreError::NotFound)
        },
{
    match items {
        Some(v) => if v.len() > 0 {
            Ok(())
        } else {
            Err(StoreError::NotFound)
        },
        None => Err(StoreError::NotFound),
    }
}

/// The attributes of an item, with names as sequences of characters.
pub open spec fn attributes(item: Seq<(String, AttributeValue)>) -> Seq<
    (Seq<char>, AttributeValue),
> {
    item.map_values(|a: (String, AttributeValue)| (a.0@, a.1))
}

/// Whether `i` is the position of the first attribute of an item that has
/// the given name.
pub open spec fn is_first_named(
    item: Seq<(Seq<char>, AttributeValue)>,
    name: Seq<char>,
    i: int,
) -> bool {
    &&& 0 <= i < item.len()
    &&& item[i].0 == name
    &&& forall|j: int| 0 <= j < i ==> (#[trigger] item[j]).0 != name
}

/// Whether an item has an attribute of the given name.
pub open spec fn has_attribute(item: Seq<(Seq<char>, AttributeValue)>, name: Seq<char>) -> bool {
    exists|i: int| 0 <= i < item.len() && (#[trigger] item[i]).0 == name
}

/// Whether `after` is `before` with the value of its first attribute of the
/// given name replaced by `value`, and every other attribute as it was.
pub open spec fn is_with_attribute(
    before: Seq<(Seq<char>, AttributeValue)>,
    name: Seq<char>,
    value: AttributeValue,
    after: Seq<(Seq<char>, AttributeValue)>,
) -> bool {
    exists|i: int|
        #![trigger before[i]]
        is_first_named(before, name, i) && after == before.update(i, (name, value))
}

/// Gives the attribute `name` of an item the value `value`. Where several
/// attributes have that name, the first one gets it. Fails with a write
/// error, and hands nothing back, if the item has no such attribute.
pub fn set_attribute(item: Vec<(String, AttributeValue)>, name: &str, value: AttributeValue) -> (r:
    Result<Vec<(String, AttributeValue)>, StoreError>)
    ensures
        match r {
            Ok(changed) => is_with_attribute(attributes(item@), name@, value, attributes(changed@)),
            Err(e) => {
                &&& e == StoreError::BackendWriteError
                &&& !has_attribute(attributes(item@), name@)
            },
        },
{
    let wanted = name.to_owned();
    let ghost before = attributes(item@);
    let mut entries = item;
    let mut i: usize = 0;
    while i < entries.len()
        invariant
            i <= entries@.len(),
            before == attributes(item@),
            attributes(entries@) == before,
            wanted@ == name@,
            forall|j: int| 0 <= j < i ==> (#[trigger] before[j]).0 != name@,
        decreases entries@.len() - i,
    {
        assert(before[i as int].0 == entries@[i as int].0@);
        if entries[i].0 == wanted {
            entries.set(i, (wanted, value));
            assert(is_first_named(before, name@, i as int));
            assert(attributes(entries@) =~= before.update(i as int, (name@, value)));
            assert(is_with_attribute(before, name@, value, attributes(entries@)));
            return Ok(entries);
        }
        i = i + 1;
    }
    Err(StoreError::BackendWriteError)
}

/// Sets the status of an attempt's item to `Charged`. Fails with a write
/// error, and hands nothing back, if the item has no status.
pub fn mark_charged(item: Vec<(String, AttributeValue)>) -> (r: Result<
    Vec<(String, AttributeValue)>,
    StoreError,
>)
    ensures
        match r {
            Ok(marked) => is_with_attribute(
                attributes(item@),
                STATUS_ATTRIBUTE@,
                string_attribute(CHARGED@),
                attributes(marked@),
            ),
            Err(e) => {
                &&& e == StoreError::BackendWriteError
                &&& !has_attribute(attributes(item@), STATUS_ATTRIBUTE@)
            },
        },
{
    set_attribute(item, STATUS_ATTRIBUTE, attribute_s(CHARGED.to_owned()))
}

/// Sets the status of an intent's item to `SUCCESS`. Fails with a write
/// error, and hands nothing back, if the item has no status.
pub fn mark_success(item: Vec<(String, AttributeValue)>) -> (r: Result<
    Vec<(String, AttributeValue)>,
    StoreError,
>)
    ensures
        match r {
            Ok(marked) => is_with_attribute(
                attributes(item@),
                STATUS_ATTRIBUTE@,
                string_attribute(SUCCESS@),
                attributes(marked@),
            ),
            Err(e) => {
                &&& e == StoreError::BackendWriteError
                &&& !has_attribute(attributes(item@), STATUS_ATTRIBUTE@)
            },
        },
{
    set_attribute(item, STATUS_ATTRIBUTE, attribute_s(SUCCESS.to_owned()))
}

} // verus!
