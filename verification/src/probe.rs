//! The lag probe, end to end: the origin cell writes a record and tells its
//! peer; the peer polls its own store until the record is there.
//!
//! The steps that wait for the network are taken by the caller. Between
//! them the decisions are made here.

use crate::error::StoreError;
use crate::ident::now_millis;
use crate::intent::PaymentIntentResponse;
use crate::notifier::delivery;
use crate::poller::ProbeOutcome;
use crate::store::{found_or_not, lookup_answer, with_intent, PaymentIntentInterface, StoreModel};
use vstd::prelude::*;

verus! {

/// What the origin cell does after its write.
#[derive(Debug)]
pub enum InitLagStep {
    /// Tell the peer that the record `record_id` was written at `origin_ms`.
    Notify { record_id: String, origin_ms: i64 },
    /// Give up: the write failed.
    Fail(StoreError),
}

/// What [`InitLagStep`] holds, with the identifier as a sequence of
/// characters.
pub enum InitLagStepView {
    Notify { record_id: Seq<char>, origin_ms: i64 },
    Fail(StoreError),
}

impl View for InitLagStep {
    type V = InitLagStepView;

    open spec fn view(&self) -> InitLagStepView {
        match self {
            InitLagStep::Notify { record_id, origin_ms } => InitLagStepView::Notify {
                record_id: record_id@,
                origin_ms: *origin_ms,
            },
            InitLagStep::Fail(e) => InitLagStepView::Fail(*e),
        }
    }
}

/// The step that follows the write: after a write that succeeded the peer is
/// told of the record, with the time `now_ms` as the time of the write;
/// after one that failed the probe fails with the same error.
pub open spec fn step_after_create(
    created: Result<PaymentIntentResponse, StoreError>,
    now_ms: i64,
) -> InitLagStepView {
    match created {
        Ok(resp) => InitLagStepView::Notify { record_id: resp.pi@, origin_ms: now_ms },
        Err(e) => InitLagStepView::Fail(e),
    }
}

/// The step that follows the origin's write.
pub fn init_lag_after_create(created: Result<PaymentIntentResponse, StoreError>, now_ms: i64) -> (step:
    InitLagStep)
    ensures
        step@ == step_after_create(created, now_ms),
{
    match created {
        Ok(resp) => InitLagStep::Notify { record_id: resp.pi, origin_ms: now_ms },
        Err(e) => InitLagStep::Fail(e),
    }
}

/// The first half of a probe at the origin: writes the intent `payment_id`
/// under that very identifier and says what to do next: to tell the peer,
/// if the write succeeded, as it always does on a faultless store. The time
/// of the write is read from the system clock once the write has succeeded.
pub fn begin_init_lag<S: PaymentIntentInterface>(store: &mut S, payment_id: String) -> (step:
    InitLagStep)
    ensures
        final(store).faultless() == old(store).faultless(),
        old(store).faultless() ==> step@ is Notify,
        match step@ {
            InitLagStepView::Notify { record_id, origin_ms } => {
                &&& record_id == payment_id@
                &&& final(store).model() == with_intent(old(store).model(), payment_id@)
            },
            InitLagStepView::Fail(e) => {
                &&& e == StoreError::BackendWriteError
                &&& final(store).model() == old(store).model()
            },
        },
{
    let created = store.create_intent(payment_id, true);
    match created {
        Ok(resp) => {
            let now_ms = now_millis();
            init_lag_after_create(Ok(resp), now_ms)
        },
        Err(e) => init_lag_after_create(Err(e), 0),
    }
}

/// The second half of a probe at the origin: what the caller of the probe is
/// told, once the signal was sent or could not be sent.
pub fn finish_init_lag(delivered: bool) -> (r: Result<(), StoreError>)
    ensures
        r == if delivered {
            Ok::<(), StoreError>(())
        } else {
            Err::<(), StoreError>(StoreError::PeerUnreachable)
        },
{
    delivery(delivered)
}

/// A probe at the origin, as the model sees it: the store after it, and
/// what the caller is told. `written` says whether the write succeeded,
/// `delivered` whether the signal reached the peer.
pub open spec fn init_lag_model(
    m: StoreModel,
    payment_id: Seq<char>,
    written: bool,
    delivered: bool,
) -> (StoreModel, Result<(), StoreError>) {
    if !written {
        (m, Err(StoreError::BackendWriteError))
    } else if !delivered {
        (with_intent(m, payment_id), Err(StoreError::PeerUnreachable))
    } else {
        (with_intent(m, payment_id), Ok(()))
    }
}

/// A signal that fails does not undo the write: after a probe whose write
/// succeeded the intent is in the store and a lookup finds it, whether or
/// not the signal reached the peer; only what the caller is told differs.
pub proof fn lemma_notify_failure_keeps_intent(
    m: StoreModel,
    payment_id: Seq<char>,
    delivered: bool,
)
    ensures
        init_lag_model(m, payment_id, true, delivered).0 == with_intent(m, payment_id),
        init_lag_model(m, payment_id, true, delivered).0.intents.dom().contains(payment_id),
        found_or_not(
            init_lag_model(m, payment_id, true, delivered).0.intents.dom().contains(payment_id),
        ) == Ok::<(), StoreError>(()),
        init_lag_model(m, payment_id, true, false).0 == init_lag_model(
            m,
            payment_id,
            true,
            true,
        ).0,
        init_lag_model(m, payment_id, true, false).1 == Err::<(), StoreError>(
            StoreError::PeerUnreachable,
        ),
{
}

/// What a lookup tells the poller: a record that was found is visible, at
/// the time `now_ms`; any failure counts as "not yet visible".
pub open spec fn outcome_of(answer: Result<(), StoreError>, now_ms: i64) -> ProbeOutcome {
    match answer {
        Ok(()) => ProbeOutcome::Visible { now_ms },
        Err(_) => ProbeOutcome::Missing,
    }
}

/// What a lookup tells the poller.
pub fn probe_outcome(answer: Result<(), StoreError>, now_ms: i64) -> (o: ProbeOutcome)
    ensures
        o == outcome_of(answer, now_ms),
{
    match answer {
        Ok(()) => ProbeOutcome::Visible { now_ms },
        Err(_) => ProbeOutcome::Missing,
    }
}

/// One query of a probe at the peer: looks the record up in the peer's own
/// store and reads the clock if it is there.
pub fn probe_once<S: PaymentIntentInterface>(store: &S, record_id: &str) -> (o: ProbeOutcome)
    ensures
        o is Visible ==> store.model().intents.dom().contains(record_id@),
        store.faultless() ==> (o is Visible <==> store.model().intents.dom().contains(record_id@)),
        exists|answer: Result<(), StoreError>, now_ms: i64|
            lookup_answer(store.model().intents.dom().contains(record_id@), answer) && o
                == #[trigger] outcome_of(answer, now_ms),
{
    match store.retrieve_intent(record_id) {
        Ok(()) => probe_outcome(Ok(()), now_millis()),
        Err(e) => probe_outcome(Err(e), 0),
    }
}

} // verus!
