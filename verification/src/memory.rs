//! A store that keeps its records in memory.
//!
//! It offers the storage interface without a backend behind it, and never
//! fails for want of one: every answer is the one that the model gives.

use crate::account::{MerchantAccount, MerchantAccountView};
use crate::attempt::{PaymentAttempt, PaymentAttemptResponse};
use crate::error::StoreError;
use crate::intent::{PaymentIntent, PaymentIntentResponse};
use crate::statement::BindView;
use crate::store::{
    found_or_not, has_attempts, initial_attempt_status, initial_intent_status, new_attempt_row,
    new_intent_row, updated_attempt_row, updated_intent_row, with_account, with_attempt,
    with_intent, with_updated_attempt, with_updated_intent, Init, MerchantAccountInterface,
    Modelled, PaymentAttemptInterface, PaymentIntentInterface, StorageInterface, StoreModel,
};
use vstd::hash_map::StringHashMap;
use vstd::prelude::*;

verus! {

/// The identifiers of payment and attempt under which an attempt is kept.
pub open spec fn attempt_key(a: PaymentAttempt) -> (Seq<char>, Seq<char>) {
    (a.payment_id@, a.attempt_id@)
}

/// The columns of each attempt in a list of attempts, by its key. Where two
/// attempts have the same key, the earlier one counts.
pub open spec fn attempts_of(rows: Seq<PaymentAttempt>) -> Map<
    (Seq<char>, Seq<char>),
    Seq<BindView>,
>
    decreases rows.len(),
{
    if rows.len() == 0 {
        Map::empty()
    } else {
        let earlier = attempts_of(rows.drop_last());
        let key = attempt_key(rows.last());
        if earlier.dom().contains(key) {
            earlier
        } else {
            earlier.insert(key, rows.last().row())
        }
    }
}

/// The columns of each intent in a table of intents, by its identifier.
pub open spec fn intents_of(table: Map<Seq<char>, PaymentIntent>) -> Map<
    Seq<char>,
    Seq<BindView>,
> {
    Map::new(|id: Seq<char>| table.dom().contains(id), |id: Seq<char>| table[id].row())
}

/// What each account in a table of accounts holds, by its merchant.
pub open spec fn accounts_of(table: Map<Seq<char>, MerchantAccount>) -> Map<
    Seq<char>,
    MerchantAccountView,
> {
    Map::new(|id: Seq<char>| table.dom().contains(id), |id: Seq<char>| table[id]@)
}

/// A key is in the map of a list of attempts if and only if some attempt of
/// the list has it.
pub proof fn lemma_attempts_dom(rows: Seq<PaymentAttempt>, key: (Seq<char>, Seq<char>))
    ensures
        attempts_of(rows).dom().contains(key) <==> exists|i: int|
            0 <= i < rows.len() && attempt_key(#[trigger] rows[i]) == key,
    decreases rows.len(),
{
    if rows.len() > 0 {
        let front = rows.drop_last();
        lemma_attempts_dom(front, key);
        if attempts_of(rows).dom().contains(key) {
            if attempts_of(front).dom().contains(key) {
                let i = choose|i: int|
                    0 <= i < front.len() && attempt_key(#[trigger] front[i]) == key;
                assert(rows[i] == front[i]);
            } else {
                assert(attempt_key(rows[rows.len() - 1]) == key);
            }
        }
        if exists|i: int| 0 <= i < rows.len() && attempt_key(#[trigger] rows[i]) == key {
            let i = choose|i: int| 0 <= i < rows.len() && attempt_key(#[trigger] rows[i]) == key;
            if i < front.len() {
                assert(front[i] == rows[i]);
            }
        }
    }
}

/// Putting an attempt behind a list is creating it in the map: it is added
/// unless its key is there already.
pub proof fn lemma_attempts_push(rows: Seq<PaymentAttempt>, row: PaymentAttempt)
    ensures
        attempts_of(rows.push(row)) == if attempts_of(rows).dom().contains(attempt_key(row)) {
            attempts_of(rows)
        } else {
            attempts_of(rows).insert(attempt_key(row), row.row())
        },
{
    assert(rows.push(row).drop_last() =~= rows);
}

/// The first attempt of a list that has some key is the one whose columns
/// the map holds for that key.
pub proof fn lemma_attempts_value(rows: Seq<PaymentAttempt>, i: int)
    requires
        0 <= i < rows.len(),
        forall|j: int| 0 <= j < i ==> attempt_key(#[trigger] rows[j]) != attempt_key(rows[i]),
    ensures
        attempts_of(rows).dom().contains(attempt_key(rows[i])),
        attempts_of(rows)[attempt_key(rows[i])] == rows[i].row(),
    decreases rows.len(),
{
    let key = attempt_key(rows[i]);
    let front = rows.drop_last();
    if i == rows.len() - 1 {
        lemma_attempts_dom(front, key);
    } else {
        assert(front[i] == rows[i]);
        assert forall|j: int| 0 <= j < i implies attempt_key(#[trigger] front[j]) != key by {
            assert(front[j] == rows[j]);
        }
        lemma_attempts_value(front, i);
    }
}

/// Replacing the first attempt that has some key by one with the same key
/// sets the columns of that key in the map.
pub proof fn lemma_attempts_update(rows: Seq<PaymentAttempt>, i: int, row: PaymentAttempt)
    requires
        0 <= i < rows.len(),
        attempt_key(row) == attempt_key(rows[i]),
        forall|j: int| 0 <= j < i ==> attempt_key(#[trigger] rows[j]) != attempt_key(row),
    ensures
        attempts_of(rows.update(i, row)) == attempts_of(rows).insert(attempt_key(row), row.row()),
    decreases rows.len(),
{
    let key = attempt_key(row);
    let changed = rows.update(i, row);
    let front = rows.drop_last();
    if i == rows.len() - 1 {
        assert(changed.drop_last() =~= front);
        lemma_attempts_dom(front, key);
        assert(attempts_of(changed) =~= attempts_of(rows).insert(key, row.row()));
    } else {
        assert(changed.drop_last() =~= front.update(i, row));
        assert(changed.last() == rows.last());
        assert forall|j: int| 0 <= j < i implies attempt_key(#[trigger] front[j]) != key by {
            assert(front[j] == rows[j]);
        }
        lemma_attempts_update(front, i, row);
        assert(attempts_of(changed) =~= attempts_of(rows).insert(key, row.row()));
    }
}

/// A store in memory.
pub struct MemoryStore {
    cell: String,
    intents: StringHashMap<PaymentIntent>,
    attempts: Vec<PaymentAttempt>,
    accounts: StringHashMap<MerchantAccount>,
}

impl Modelled for MemoryStore {
    closed spec fn model(&self) -> StoreModel {
        StoreModel {
            cell: self.cell@,
            intents: intents_of(self.intents@),
            attempts: attempts_of(self.attempts@),
            accounts: accounts_of(self.accounts@),
        }
    }

    /// A store in memory has no backend to fail for want of.
    open spec fn faultless(&self) -> bool {
        true
    }
}

/// The model of a store of `cell` that holds nothing.
pub open spec fn empty_model(cell: Seq<char>) -> StoreModel {
    StoreModel { cell, intents: Map::empty(), attempts: Map::empty(), accounts: Map::empty() }
}

impl MemoryStore {
    /// An empty store for the cell `cell`.
    pub fn new(cell: String) -> (s: MemoryStore)
        ensures
            s.model() == empty_model(cell@),
    {
        let s = MemoryStore {
            cell,
            intents: StringHashMap::new(),
            attempts: Vec::new(),
            accounts: StringHashMap::new(),
        };
        assert(s.model().intents =~= Map::empty());
        assert(s.model().accounts =~= Map::empty());
        s
    }

    /// The position of the first attempt with the given key, if there is one.
    fn find_attempt(&self, payment_id: &String, attempt_id: &String) -> (r: Option<usize>)
        ensures
            match r {
                Some(i) => {
                    &&& i < self.attempts@.len()
                    &&& attempt_key(self.attempts@[i as int]) == (payment_id@, attempt_id@)
                    &&& forall|j: int|
                        0 <= j < i ==> attempt_key(#[trigger] self.attempts@[j]) != (
                            payment_id@,
                            attempt_id@,
                        )
                },
                None => forall|j: int|
                    0 <= j < self.attempts@.len() ==> attempt_key(#[trigger] self.attempts@[j])
                        != (payment_id@, attempt_id@),
            },
    {
        let mut i: usize = 0;
        while i < self.attempts.len()
            invariant
                i <= self.attempts@.len(),
                forall|j: int|
                    0 <= j < i ==> attempt_key(#[trigger] self.attempts@[j]) != (
                        payment_id@,
                        attempt_id@,
                    ),
            decreases self.attempts@.len() - i,
        {
            let row = &self.attempts[i];
            if row.payment_id == *payment_id && row.attempt_id == *attempt_id {
                return Some(i);
            }
            i = i + 1;
        }
        None
    }
}

impl Init for MemoryStore {
    /// Nothing to set up: always succeeds.
    fn prepare(&mut self) -> (r: Result<(), StoreError>)
        ensures
            r is Ok,
    {
        Ok(())
    }
}

impl PaymentIntentInterface for MemoryStore {
    /// Always succeeds.
    fn create_intent(&mut self, payment_id: String, use_client_id: bool) -> (r: Result<
        PaymentIntentResponse,
        StoreError,
    >)
        ensures
            r is Ok,
    {
        let record = PaymentIntent::new(self.cell.as_str(), payment_id, use_client_id);
        let id = record.payment_id.clone();
        let key = record.payment_id.clone();
        proof {
            assert(record.is_template(id@));
            record.lemma_stock_row(id@, initial_intent_status());
        }
        if !self.intents.contains_key(id.as_str()) {
            self.intents.insert(key, record);
            assert(self.model().intents =~= old(self).model().intents.insert(
                id@,
                new_intent_row(id@),
            ));
        }
        Ok(PaymentIntentResponse { pi: id })
    }

    /// Succeeds if the intent is there; `NotFound` if it is not.
    fn retrieve_intent(&self, payment_id: &str) -> (r: Result<(), StoreError>)
        ensures
            r == found_or_not(self.model().intents.dom().contains(payment_id@)),
    {
        if self.intents.contains_key(payment_id) {
            Ok(())
        } else {
            Err(StoreError::NotFound)
        }
    }

    /// Succeeds if the intent is there; `NotFound` if it is not.
    fn update_intent(&mut self, payment_id: &str) -> (r: Result<(), StoreError>)
        ensures
            r == found_or_not(old(self).model().intents.dom().contains(payment_id@)),
    {
        let updated = match self.intents.get(payment_id) {
            Some(stored) => stored.succeed(),
            None => {
                return Err(StoreError::NotFound);
            },
        };
        self.intents.insert(payment_id.to_owned(), updated);
        assert(self.model().intents =~= old(self).model().intents.insert(
            payment_id@,
            updated_intent_row(old(self).model().intents[payment_id@]),
        ));
        Ok(())
    }
}

impl PaymentAttemptInterface for MemoryStore {
    /// Always succeeds.
    fn create_attempt(&mut self, payment_id: String, version: String) -> (r: Result<
        PaymentAttemptResponse,
        StoreError,
    >)
        ensures
            r is Ok,
    {
        let record = PaymentAttempt::new(self.cell.as_str(), payment_id, version);
        let id = record.attempt_id.clone();
        proof {
            assert(record.is_template(record.payment_id@, id@));
            record.lemma_stock_row(record.payment_id@, id@, initial_attempt_status());
            lemma_attempts_dom(self.attempts@, attempt_key(record));
            lemma_attempts_push(self.attempts@, record);
        }
        if self.find_attempt(&record.payment_id, &record.attempt_id).is_none() {
            self.attempts.push(record);
        }
        Ok(PaymentAttemptResponse { pa: id })
    }

    /// Succeeds if there is an attempt at the payment; `NotFound` if not.
    fn retrieve_all(&self, payment_id: &str) -> (r: Result<(), StoreError>)
        ensures
            r == found_or_not(has_attempts(self.model(), payment_id@)),
    {
        let wanted = payment_id.to_owned();
        let mut i: usize = 0;
        while i < self.attempts.len()
            invariant
                i <= self.attempts@.len(),
                wanted@ == payment_id@,
                forall|j: int| 0 <= j < i ==> (#[trigger] self.attempts@[j]).payment_id@ != wanted@,
            decreases self.attempts@.len() - i,
        {
            if self.attempts[i].payment_id == wanted {
                proof {
                    let row = self.attempts@[i as int];
                    lemma_attempts_dom(self.attempts@, attempt_key(row));
                    assert(self.model().attempts.dom().contains((payment_id@, row.attempt_id@)));
                }
                return Ok(());
            }
            i = i + 1;
        }
        proof {
            assert forall|attempt_id: Seq<char>|
                !(#[trigger] self.model().attempts.dom().contains((payment_id@, attempt_id))) by {
                lemma_attempts_dom(self.attempts@, (payment_id@, attempt_id));
            }
        }
        Err(StoreError::NotFound)
    }

    /// Succeeds if the attempt is there; `NotFound` if it is not.
    fn update_attempt(&mut self, payment_id: &str, version: String) -> (r: Result<(), StoreError>)
        ensures
            r == found_or_not(old(self).model().attempts.dom().contains((payment_id@, version@))),
    {
        let wanted = payment_id.to_owned();
        proof {
            lemma_attempts_dom(self.attempts@, (payment_id@, version@));
        }
        match self.find_attempt(&wanted, &version) {
            Some(i) => {
                let record = self.attempts.remove(i).charged();
                proof {
                    lemma_attempts_value(old(self).attempts@, i as int);
                    lemma_attempts_update(old(self).attempts@, i as int, record);
                }
                self.attempts.insert(i, record);
                assert(self.attempts@ =~= old(self).attempts@.update(i as int, record));
                Ok(())
            },
            None => Err(StoreError::NotFound),
        }
    }

    /// Succeeds if the attempt is there; `NotFound` if it is not.
    fn retrieve_by_id(&self, payment_attempt_id: String, payment_id: String) -> (r: Result<
        (),
        StoreError,
    >)
        ensures
            r == found_or_not(self.model().attempts.dom().contains((payment_id@, payment_attempt_id@))),
    {
        proof {
            lemma_attempts_dom(self.attempts@, (payment_id@, payment_attempt_id@));
        }
        match self.find_attempt(&payment_id, &payment_attempt_id) {
            Some(_) => Ok(()),
            None => Err(StoreError::NotFound),
        }
    }
}

impl MerchantAccountInterface for MemoryStore {
    /// Always succeeds.
    fn create_account(&mut self, merchant_id: String) -> (r: Result<(), StoreError>)
        ensures
            r is Ok,
    {
        if !self.accounts.contains_key(merchant_id.as_str()) {
            let account = MerchantAccount::new(merchant_id.clone());
            proof {
                account.lemma_stock_view(merchant_id@);
            }
            self.accounts.insert(merchant_id, account);
            assert(self.model().accounts =~= old(self).model().accounts.insert(
                merchant_id@,
                MerchantAccount::stock_view(merchant_id@),
            ));
        }
        Ok(())
    }

    /// Succeeds if the account is there; `NotFound` if it is not.
    fn retrieve_account(&self, merchant_id: String) -> (r: Result<(), StoreError>)
        ensures
            r == found_or_not(self.model().accounts.dom().contains(merchant_id@)),
    {
        if self.accounts.contains_key(merchant_id.as_str()) {
            Ok(())
        } else {
            Err(StoreError::NotFound)
        }
    }
}

impl StorageInterface for MemoryStore {

}

} // verus!
