//! The storage interface: what every backend offers, and what it promises.
//!
//! The promises are stated over a model of what a store holds: the columns
//! of each payment intent by its identifier, the columns of each payment
//! attempt by the identifiers of payment and attempt, and the account of
//! each merchant that has one. A record is created with its stock columns; an update
//! changes the status column and no other. A backend may fail where the model would go on, with a read or a
//! write error; then it leaves the model as it was. A store that is
//! faultless never does so: each of its answers is the one that the model
//! gives.

use crate::account::{MerchantAccount, MerchantAccountView};
use crate::attempt::{PaymentAttempt, PaymentAttemptResponse, ATTEMPT_STATUS_COLUMN};
use crate::enums::AttemptStatus;
use crate::error::StoreError;
use crate::ident::record_id;
use crate::intent::{
    PaymentIntent, PaymentIntentResponse, INTENT_COLUMNS, INTENT_STATUS_COLUMN,
};
use crate::statement::{text_of, BindView, Encode};
use vstd::prelude::*;

verus! {

/// What a store holds, as far as its operations can tell.
pub struct StoreModel {
    /// The cell that the store belongs to.
    pub cell: Seq<char>,
    /// The columns of each payment intent, by its identifier.
    pub intents: Map<Seq<char>, Seq<BindView>>,
    /// The columns of each payment attempt, by the identifiers of the payment
    /// and of the attempt.
    pub attempts: Map<(Seq<char>, Seq<char>), Seq<BindView>>,
    /// The account of each merchant that has one.
    pub accounts: Map<Seq<char>, MerchantAccountView>,
}

/// The status of an intent that was just created.
pub open spec fn initial_intent_status() -> Seq<char> {
    "Processing"@
}

/// The status of an intent after an update.
pub open spec fn final_intent_status() -> Seq<char> {
    "SUCCESS"@
}

/// The status of an attempt that was just created.
pub open spec fn initial_attempt_status() -> AttemptStatus {
    AttemptStatus::AuthenticationFailed
}

/// The status of an attempt after an update.
pub open spec fn final_attempt_status() -> AttemptStatus {
    AttemptStatus::Charged
}

/// The columns of an intent that was just created: those of the stock
/// intent, in the initial status.
pub open spec fn new_intent_row(payment_id: Seq<char>) -> Seq<BindView> {
    PaymentIntent::stock_row(payment_id, initial_intent_status())
}

/// The columns of an intent after an update: the status column holds the
/// final status, every other column is as it was.
pub open spec fn updated_intent_row(row: Seq<BindView>) -> Seq<BindView> {
    row.update(INTENT_STATUS_COLUMN as int, text_of(final_intent_status()))
}

/// The columns of an attempt that was just created: those of the stock
/// attempt, in the initial status.
pub open spec fn new_attempt_row(payment_id: Seq<char>, attempt_id: Seq<char>) -> Seq<BindView> {
    PaymentAttempt::stock_row(payment_id, attempt_id, initial_attempt_status())
}

/// The columns of an attempt after an update: the status column holds the
/// final status, every other column is as it was.
pub open spec fn updated_attempt_row(row: Seq<BindView>) -> Seq<BindView> {
    row.update(ATTEMPT_STATUS_COLUMN as int, BindView::Json(final_attempt_status().encoding()))
}

/// The model after the creation of an intent. Creation does not clobber: an
/// intent that is there already stays as it is.
pub open spec fn with_intent(m: StoreModel, payment_id: Seq<char>) -> StoreModel {
    if m.intents.dom().contains(payment_id) {
        m
    } else {
        StoreModel { intents: m.intents.insert(payment_id, new_intent_row(payment_id)), ..m }
    }
}

/// The model after the update of an intent that exists: its status column
/// changes, nothing else does.
pub open spec fn with_updated_intent(m: StoreModel, payment_id: Seq<char>) -> StoreModel {
    StoreModel {
        intents: m.intents.insert(payment_id, updated_intent_row(m.intents[payment_id])),
        ..m
    }
}

/// The model after the creation of an attempt. Creation does not clobber.
pub open spec fn with_attempt(m: StoreModel, payment_id: Seq<char>, attempt_id: Seq<char>)
    -> StoreModel {
    if m.attempts.dom().contains((payment_id, attempt_id)) {
        m
    } else {
        StoreModel {
            attempts: m.attempts.insert(
                (payment_id, attempt_id),
                new_attempt_row(payment_id, attempt_id),
            ),
            ..m
        }
    }
}

/// The model after the update of an attempt that exists: its status column
/// changes, nothing else does.
pub open spec fn with_updated_attempt(
    m: StoreModel,
    payment_id: Seq<char>,
    attempt_id: Seq<char>,
) -> StoreModel {
    StoreModel {
        attempts: m.attempts.insert(
            (payment_id, attempt_id),
            updated_attempt_row(m.attempts[(payment_id, attempt_id)]),
        ),
        ..m
    }
}

/// The model after the creation of a merchant account: the stock account
/// of the merchant. Creation does not clobber.
pub open spec fn with_account(m: StoreModel, merchant_id: Seq<char>) -> StoreModel {
    if m.accounts.dom().contains(merchant_id) {
        m
    } else {
        StoreModel {
            accounts: m.accounts.insert(merchant_id, MerchantAccount::stock_view(merchant_id)),
            ..m
        }
    }
}

/// Whether the store holds an attempt at the given payment.
pub open spec fn has_attempts(m: StoreModel, payment_id: Seq<char>) -> bool {
    exists|attempt_id: Seq<char>| #[trigger] m.attempts.dom().contains((payment_id, attempt_id))
}

/// The identifier under which an intent is created: the caller's, or one
/// made for the cell, some creation time and the caller's seed.
pub open spec fn is_intent_id(
    cell: Seq<char>,
    payment_id: Seq<char>,
    use_client_id: bool,
    id: Seq<char>,
) -> bool {
    if use_client_id {
        id == payment_id
    } else {
        exists|now_ms: i64| id == #[trigger] record_id(cell, "pai"@, now_ms as int, payment_id)
    }
}

/// The identifier under which an attempt is created: one made for the cell,
/// some creation time and the caller's version as the seed.
pub open spec fn is_attempt_id(cell: Seq<char>, version: Seq<char>, id: Seq<char>) -> bool {
    exists|now_ms: i64| id == #[trigger] record_id(cell, "paa"@, now_ms as int, version)
}

/// What the answer to a lookup has to be: success if the record is there,
/// `NotFound` if it is not; a read error is possible either way.
pub open spec fn lookup_answer(present: bool, r: Result<(), StoreError>) -> bool {
    match r {
        Ok(()) => present,
        Err(StoreError::NotFound) => !present,
        Err(e) => e == StoreError::BackendReadError,
    }
}

/// What the answer to an update has to be: success if the record is there,
/// `NotFound` if it is not; a write error is possible either way.
pub open spec fn update_answer(present: bool, r: Result<(), StoreError>) -> bool {
    match r {
        Ok(()) => present,
        Err(StoreError::NotFound) => !present,
        Err(e) => e == StoreError::BackendWriteError,
    }
}

/// The answer of a store that never fails for want of a backend: success if
/// the record is there, `NotFound` if it is not.
pub open spec fn found_or_not(present: bool) -> Result<(), StoreError> {
    if present {
        Ok(())
    } else {
        Err(StoreError::NotFound)
    }
}

/// The answer of a store that never fails is an answer that every store may
/// give, to a lookup and to an update.
pub proof fn lemma_found_or_not_is_an_answer(present: bool)
    ensures
        lookup_answer(present, found_or_not(present)),
        update_answer(present, found_or_not(present)),
{
}

/// An intent that was created under the caller's identifier is there: a
/// lookup of that identifier succeeds, unless the backend cannot be read.
pub proof fn lemma_create_then_retrieve(
    m: StoreModel,
    payment_id: Seq<char>,
    answer: Result<(), StoreError>,
)
    requires
        lookup_answer(with_intent(m, payment_id).intents.dom().contains(payment_id), answer),
    ensures
        with_intent(m, payment_id).intents.dom().contains(payment_id),
        found_or_not(with_intent(m, payment_id).intents.dom().contains(payment_id)) == Ok::<
            (),
            StoreError,
        >(()),
        answer is Ok || answer == Err::<(), StoreError>(StoreError::BackendReadError),
{
}

/// The lookup of an identifier that the store does not hold never succeeds:
/// it gives `NotFound`, unless the backend cannot be read.
pub proof fn lemma_unknown_intent_is_not_found(
    m: StoreModel,
    payment_id: Seq<char>,
    answer: Result<(), StoreError>,
)
    requires
        !m.intents.dom().contains(payment_id),
        lookup_answer(m.intents.dom().contains(payment_id), answer),
    ensures
        found_or_not(m.intents.dom().contains(payment_id)) == Err::<(), StoreError>(
            StoreError::NotFound,
        ),
        answer == Err::<(), StoreError>(StoreError::NotFound) || answer == Err::<(), StoreError>(
            StoreError::BackendReadError,
        ),
{
}

/// Updating an intent twice is the same as updating it once: after the
/// first update the intent is still there, so the second finds it, and both
/// leave it in the final status, with every other column as it was before
/// the first.
pub proof fn lemma_update_intent_idempotent(m: StoreModel, payment_id: Seq<char>)
    requires
        m.intents.dom().contains(payment_id),
        m.intents[payment_id].len() == INTENT_COLUMNS,
    ensures
        with_updated_intent(m, payment_id).intents.dom().contains(payment_id),
        with_updated_intent(m, payment_id).intents[payment_id][INTENT_STATUS_COLUMN as int]
            == text_of(final_intent_status()),
        forall|i: int|
            0 <= i < INTENT_COLUMNS && i != INTENT_STATUS_COLUMN ==> with_updated_intent(
                m,
                payment_id,
            ).intents[payment_id][i] == m.intents[payment_id][i],
        with_updated_intent(with_updated_intent(m, payment_id), payment_id) == with_updated_intent(
            m,
            payment_id,
        ),
        found_or_not(with_updated_intent(m, payment_id).intents.dom().contains(payment_id))
            == Ok::<(), StoreError>(()),
{
    let once = with_updated_intent(m, payment_id);
    let twice = with_updated_intent(once, payment_id);
    assert(updated_intent_row(once.intents[payment_id]) =~= once.intents[payment_id]);
    assert(twice.intents =~= once.intents);
}

/// Creating an intent twice is the same as creating it once: the second
/// creation finds the intent and leaves it as it is.
pub proof fn lemma_create_does_not_clobber(m: StoreModel, payment_id: Seq<char>)
    ensures
        with_intent(with_intent(m, payment_id), payment_id) == with_intent(m, payment_id),
        m.intents.dom().contains(payment_id) ==> with_intent(m, payment_id) == m,
{
}

/// A record goes through the store unchanged: an intent that was created
/// and then updated any number of times has its stock columns, but for the
/// status, which an update sets to the final status.
pub proof fn lemma_intent_round_trip(m: StoreModel, payment_id: Seq<char>)
    requires
        !m.intents.dom().contains(payment_id),
    ensures
        with_intent(m, payment_id).intents[payment_id] == PaymentIntent::stock_row(
            payment_id,
            initial_intent_status(),
        ),
        with_updated_intent(with_intent(m, payment_id), payment_id).intents[payment_id]
            == PaymentIntent::stock_row(payment_id, final_intent_status()),
{
    let created = new_intent_row(payment_id);
    assert(updated_intent_row(created) =~= PaymentIntent::stock_row(
        payment_id,
        final_intent_status(),
    ));
}

/// An attempt that was created and then updated has its stock columns, but
/// for the status, which the update sets to the final status.
pub proof fn lemma_attempt_round_trip(m: StoreModel, payment_id: Seq<char>, attempt_id: Seq<char>)
    requires
        !m.attempts.dom().contains((payment_id, attempt_id)),
    ensures
        with_attempt(m, payment_id, attempt_id).attempts[(payment_id, attempt_id)]
            == PaymentAttempt::stock_row(payment_id, attempt_id, initial_attempt_status()),
        with_updated_attempt(
            with_attempt(m, payment_id, attempt_id),
            payment_id,
            attempt_id,
        ).attempts[(payment_id, attempt_id)] == PaymentAttempt::stock_row(
            payment_id,
            attempt_id,
            final_attempt_status(),
        ),
{
    let created = new_attempt_row(payment_id, attempt_id);
    assert(updated_attempt_row(created) =~= PaymentAttempt::stock_row(
        payment_id,
        attempt_id,
        final_attempt_status(),
    ));
}

/// What a backend did with a write that was to create a record only if it
/// is not there yet.
#[derive(Clone, Copy, Debug, PartialEq, Eq, Structural)]
pub enum ConditionalWrite {
    /// The record was not there and is written.
    Written,
    /// The record was there and is kept as it was.
    Kept,
    /// The backend could not be written.
    Failed,
}

/// What a creation answers after its write: it succeeds where the record
/// was written and also where a record was there and is kept, because
/// creation does not clobber; a write that failed is a write error.
pub open spec fn spec_create_answer(outcome: ConditionalWrite) -> Result<(), StoreError> {
    match outcome {
        ConditionalWrite::Written => Ok(()),
        ConditionalWrite::Kept => Ok(()),
        ConditionalWrite::Failed => Err(StoreError::BackendWriteError),
    }
}

/// What a creation answers after its write.
pub fn create_answer(outcome: ConditionalWrite) -> (r: Result<(), StoreError>)
    ensures
        r == spec_create_answer(outcome),
{
    match outcome {
        ConditionalWrite::Written => Ok(()),
        ConditionalWrite::Kept => Ok(()),
        ConditionalWrite::Failed => Err(StoreError::BackendWriteError),
    }
}

/// What an update makes of the lookup that goes before it: it goes on if
/// the record was found and gives up with `NotFound` if it was not; a lookup
/// that failed is a write that failed.
pub open spec fn spec_lookup_for_update(answer: Result<(), StoreError>) -> Result<(), StoreError> {
    match answer {
        Ok(()) => Ok(()),
        Err(StoreError::NotFound) => Err(StoreError::NotFound),
        Err(_) => Err(StoreError::BackendWriteError),
    }
}

/// What an update makes of the lookup that goes before it.
pub fn lookup_for_update(answer: Result<(), StoreError>) -> (r: Result<(), StoreError>)
    ensures
        r == spec_lookup_for_update(answer),
{
    match answer {
        Ok(()) => Ok(()),
        Err(StoreError::NotFound) => Err(StoreError::NotFound),
        Err(_) => Err(StoreError::BackendWriteError),
    }
}

/// An update that gives up where its lookup did not find the record, and
/// goes on where it did, answers as an update may.
pub proof fn lemma_lookup_for_update_is_an_answer(present: bool, answer: Result<(), StoreError>)
    requires
        lookup_answer(present, answer),
    ensures
        spec_lookup_for_update(answer) is Ok ==> present,
        spec_lookup_for_update(answer) is Err ==> update_answer(
            present,
            spec_lookup_for_update(answer),
        ),
{
}

/// A store with a model.
pub trait Modelled {
    /// What the store holds.
    spec fn model(&self) -> StoreModel;

    /// Whether the store never fails for want of a backend: every lookup
    /// and every update then answers as `found_or_not` says, and every
    /// creation succeeds.
    spec fn faultless(&self) -> bool;
}

/// Setting a store up.
pub trait Init: Modelled {
    /// Sets up whatever the backend needs before its first use. May be called
    /// any number of times; it changes nothing that the store holds.
    fn prepare(&mut self) -> (r: Result<(), StoreError>)
        ensures
            final(self).model() == old(self).model(),
            final(self).faultless() == old(self).faultless(),
            r matches Err(e) ==> e == StoreError::BackendWriteError,
            old(self).faultless() ==> r is Ok,
    ;
}

/// The operations on payment intents.
pub trait PaymentIntentInterface: Modelled {
    /// Creates an intent. With `use_client_id` it is stored under
    /// `payment_id`; else under a new identifier with `payment_id` as seed.
    /// Hands back the identifier.
    fn create_intent(&mut self, payment_id: String, use_client_id: bool) -> (r: Result<
        PaymentIntentResponse,
        StoreError,
    >)
        ensures
            final(self).faultless() == old(self).faultless(),
            old(self).faultless() ==> r is Ok,
            match r {
                Ok(resp) => {
                    &&& is_intent_id(old(self).model().cell, payment_id@, use_client_id, resp.pi@)
                    &&& final(self).model() == with_intent(old(self).model(), resp.pi@)
                },
                Err(e) => e == StoreError::BackendWriteError && final(self).model() == old(
                    self,
                ).model(),
            },
    ;

    /// Looks an intent up.
    fn retrieve_intent(&self, payment_id: &str) -> (r: Result<(), StoreError>)
        ensures
            lookup_answer(self.model().intents.dom().contains(payment_id@), r),
            self.faultless() ==> r == found_or_not(
                self.model().intents.dom().contains(payment_id@),
            ),
    ;

    /// Sets the status of an intent to its final value.
    fn update_intent(&mut self, payment_id: &str) -> (r: Result<(), StoreError>)
        ensures
            update_answer(old(self).model().intents.dom().contains(payment_id@), r),
            final(self).faultless() == old(self).faultless(),
            old(self).faultless() ==> r == found_or_not(
                old(self).model().intents.dom().contains(payment_id@),
            ),
            final(self).model() == if r is Ok {
                with_updated_intent(old(self).model(), payment_id@)
            } else {
                old(self).model()
            },
    ;
}

/// The operations on payment attempts.
pub trait PaymentAttemptInterface: Modelled {
    /// Creates an attempt at the payment `payment_id`, under a new identifier
    /// with `version` as seed. Hands back the identifier.
    fn create_attempt(&mut self, payment_id: String, version: String) -> (r: Result<
        PaymentAttemptResponse,
        StoreError,
    >)
        ensures
            final(self).faultless() == old(self).faultless(),
            old(self).faultless() ==> r is Ok,
            match r {
                Ok(resp) => {
                    &&& is_attempt_id(old(self).model().cell, version@, resp.pa@)
                    &&& final(self).model() == with_attempt(
                        old(self).model(),
                        payment_id@,
                        resp.pa@,
                    )
                },
                Err(e) => e == StoreError::BackendWriteError && final(self).model() == old(
                    self,
                ).model(),
            },
    ;

    /// Looks up the attempts at a payment: succeeds if there is at least one.
    fn retrieve_all(&self, payment_id: &str) -> (r: Result<(), StoreError>)
        ensures
            lookup_answer(has_attempts(self.model(), payment_id@), r),
            self.faultless() ==> r == found_or_not(has_attempts(self.model(), payment_id@)),
    ;

    /// Sets the status of an attempt at the payment `payment_id` to its final
    /// value. `version` names the attempt by its full identifier, as
    /// `create_attempt` handed it back; the seed that the attempt was created
    /// with does not name it.
    fn update_attempt(&mut self, payment_id: &str, version: String) -> (r: Result<(), StoreError>)
        ensures
            update_answer(old(self).model().attempts.dom().contains((payment_id@, version@)), r),
            final(self).faultless() == old(self).faultless(),
            old(self).faultless() ==> r == found_or_not(
                old(self).model().attempts.dom().contains((payment_id@, version@)),
            ),
            final(self).model() == if r is Ok {
                with_updated_attempt(old(self).model(), payment_id@, version@)
            } else {
                old(self).model()
            },
    ;

    /// Looks up one attempt by the identifiers of attempt and payment.
    fn retrieve_by_id(&self, payment_attempt_id: String, payment_id: String) -> (r: Result<
        (),
        StoreError,
    >)
        ensures
            lookup_answer(
                self.model().attempts.dom().contains((payment_id@, payment_attempt_id@)),
                r,
            ),
            self.faultless() ==> r == found_or_not(
                self.model().attempts.dom().contains((payment_id@, payment_attempt_id@)),
            ),
    ;
}

/// The operations on merchant accounts.
pub trait MerchantAccountInterface: Modelled {
    /// Creates the account of a merchant.
    fn create_account(&mut self, merchant_id: String) -> (r: Result<(), StoreError>)
        ensures
            final(self).faultless() == old(self).faultless(),
            old(self).faultless() ==> r is Ok,
            match r {
                Ok(()) => final(self).model() == with_account(old(self).model(), merchant_id@),
                Err(e) => e == StoreError::BackendWriteError && final(self).model() == old(
                    self,
                ).model(),
            },
    ;

    /// Looks up the account of a merchant.
    fn retrieve_account(&self, merchant_id: String) -> (r: Result<(), StoreError>)
        ensures
            lookup_answer(self.model().accounts.dom().contains(merchant_id@), r),
            self.faultless() ==> r == found_or_not(
                self.model().accounts.dom().contains(merchant_id@),
            ),
    ;
}

/// A backend: all the operations together.
pub trait StorageInterface:
    PaymentIntentInterface + PaymentAttemptInterface + MerchantAccountInterface + Init {

}

} // verus!
