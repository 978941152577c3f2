//! The requests that the service answers, in terms of the storage interface.
//!
//! Most requests are one operation of the store. A payment is two: the
//! intent is looked up before an attempt at it is created.

use crate::attempt::PaymentAttemptResponse;
use crate::error::StoreError;
use crate::store::{
    is_attempt_id, lookup_answer, with_attempt, PaymentAttemptInterface, PaymentIntentInterface,
};
use vstd::prelude::*;

verus! {

/// The status code of a request that was answered.
pub const STATUS_OK: u16 = 200;

/// The status code of a request that failed, whatever the error.
pub const STATUS_SERVER_ERROR: u16 = 500;

/// The status code with which a request is answered: 200 if the operation
/// succeeded, 500 if it failed.
pub fn status_code<T>(answer: &Result<T, StoreError>) -> (code: u16)
    ensures
        code == if answer is Ok {
            STATUS_OK
        } else {
            STATUS_SERVER_ERROR
        },
{
    match answer {
        Ok(_) => STATUS_OK,
        Err(_) => STATUS_SERVER_ERROR,
    }
}

/// Pays: creates an attempt at the payment `payment_id`, if the store holds
/// the intent. Where the lookup of the intent fails, nothing is created and
/// the error of the lookup is handed on: `NotFound` where the intent is not
/// there. On a faultless store a payment succeeds exactly where the intent
/// is there.
pub fn pay<S: PaymentIntentInterface + PaymentAttemptInterface>(
    store: &mut S,
    payment_id: String,
    version: String,
) -> (r: Result<PaymentAttemptResponse, StoreError>)
    ensures
        final(store).faultless() == old(store).faultless(),
        old(store).faultless() ==> (r is Ok <==> old(store).model().intents.dom().contains(
            payment_id@,
        )),
        old(store).faultless() && !old(store).model().intents.dom().contains(payment_id@) ==> (r
            matches Err(e) && e == StoreError::NotFound),
        match r {
            Ok(resp) => {
                &&& old(store).model().intents.dom().contains(payment_id@)
                &&& is_attempt_id(old(store).model().cell, version@, resp.pa@)
                &&& final(store).model() == with_attempt(
                    old(store).model(),
                    payment_id@,
                    resp.pa@,
                )
            },
            Err(e) => {
                &&& final(store).model() == old(store).model()
                &&& e == StoreError::NotFound ==> !old(store).model().intents.dom().contains(
                    payment_id@,
                )
                &&& e == StoreError::BackendWriteError ==> old(store).model().intents.dom().contains(
                    payment_id@,
                )
                &&& e == StoreError::NotFound || e == StoreError::BackendReadError || e
                    == StoreError::BackendWriteError
            },
        },
{
    match store.retrieve_intent(payment_id.as_str()) {
        Ok(()) => store.create_attempt(payment_id, version),
        Err(e) => Err(e),
    }
}

} // verus!
