use cell_payments::error::{backend_failure, OperationKind, StoreError};
use cell_payments::intent::PaymentIntentResponse;
use cell_payments::memory::MemoryStore;
use cell_payments::notifier::delivery;
use cell_payments::poller::{replay, step, PollerAction, PollerConfig, PollerState, ProbeOutcome};
use cell_payments::probe::{
    begin_init_lag, finish_init_lag, init_lag_after_create, probe_once, probe_outcome, InitLagStep,
};
use cell_payments::service::pay;
use cell_payments::store::{
    create_answer, lookup_for_update, ConditionalWrite, Init, MerchantAccountInterface,
    PaymentAttemptInterface, PaymentIntentInterface,
};

fn store() -> MemoryStore {
    MemoryStore::new("cellA".to_owned())
}

#[test]
fn created_intent_is_retrievable() {
    let mut s = store();
    let created = s.create_intent("pay_1".to_owned(), true).unwrap();
    assert_eq!(created.pi, "pay_1");
    assert_eq!(s.retrieve_intent("pay_1"), Ok(()));
}

#[test]
fn unknown_intent_is_not_found() {
    let mut s = store();
    assert_eq!(s.retrieve_intent("pay_1"), Err(StoreError::NotFound));
    s.create_intent("pay_1".to_owned(), true).unwrap();
    assert_eq!(s.retrieve_intent("pay_2"), Err(StoreError::NotFound));
    assert_eq!(s.retrieve_intent(""), Err(StoreError::NotFound));
}

#[test]
fn generated_intent_id_is_stored_under_the_generated_id() {
    let mut s = store();
    let created = s.create_intent("seed9".to_owned(), false).unwrap();
    assert!(created.pi.starts_with("cellA_pai_"));
    assert!(created.pi.ends_with("_seed9"));
    assert_eq!(s.retrieve_intent(&created.pi), Ok(()));
    assert_eq!(s.retrieve_intent("seed9"), Err(StoreError::NotFound));
}

#[test]
fn update_intent_twice_succeeds_twice() {
    let mut s = store();
    s.create_intent("pay_1".to_owned(), true).unwrap();
    assert_eq!(s.update_intent("pay_1"), Ok(()));
    assert_eq!(s.retrieve_intent("pay_1"), Ok(()));
    assert_eq!(s.update_intent("pay_1"), Ok(()));
    assert_eq!(s.retrieve_intent("pay_1"), Ok(()));
}

#[test]
fn update_of_an_unknown_intent_is_not_found() {
    let mut s = store();
    assert_eq!(s.update_intent("pay_1"), Err(StoreError::NotFound));
    assert_eq!(s.retrieve_intent("pay_1"), Err(StoreError::NotFound));
}

#[test]
fn creating_an_intent_twice_keeps_it() {
    let mut s = store();
    s.create_intent("pay_1".to_owned(), true).unwrap();
    s.update_intent("pay_1").unwrap();
    let again = s.create_intent("pay_1".to_owned(), true).unwrap();
    assert_eq!(again.pi, "pay_1");
    assert_eq!(s.retrieve_intent("pay_1"), Ok(()));
}

#[test]
fn attempts_are_found_by_payment_and_by_composite_key() {
    let mut s = store();
    assert_eq!(s.retrieve_all("pay_1"), Err(StoreError::NotFound));
    let created = s.create_attempt("pay_1".to_owned(), "v1".to_owned()).unwrap();
    assert!(created.pa.starts_with("cellA_paa_"));
    assert!(created.pa.ends_with("_v1"));
    assert_eq!(s.retrieve_all("pay_1"), Ok(()));
    assert_eq!(s.retrieve_all("pay_2"), Err(StoreError::NotFound));
    assert_eq!(s.retrieve_by_id(created.pa.clone(), "pay_1".to_owned()), Ok(()));
    assert_eq!(
        s.retrieve_by_id(created.pa.clone(), "pay_2".to_owned()),
        Err(StoreError::NotFound)
    );
    assert_eq!(
        s.retrieve_by_id("nope".to_owned(), "pay_1".to_owned()),
        Err(StoreError::NotFound)
    );
}

#[test]
fn attempts_are_updated_by_their_identifier() {
    let mut s = store();
    let created = s.create_attempt("pay_1".to_owned(), "v1".to_owned()).unwrap();
    assert_eq!(s.update_attempt("pay_1", created.pa.clone()), Ok(()));
    assert_eq!(s.update_attempt("pay_1", created.pa.clone()), Ok(()));
    assert_eq!(s.update_attempt("pay_1", "nope".to_owned()), Err(StoreError::NotFound));
    assert_eq!(s.update_attempt("pay_2", created.pa.clone()), Err(StoreError::NotFound));
    assert_eq!(s.retrieve_by_id(created.pa, "pay_1".to_owned()), Ok(()));
}

#[test]
fn accounts_are_created_and_found() {
    let mut s = store();
    assert_eq!(s.retrieve_account("m1".to_owned()), Err(StoreError::NotFound));
    assert_eq!(s.create_account("m1".to_owned()), Ok(()));
    assert_eq!(s.retrieve_account("m1".to_owned()), Ok(()));
    assert_eq!(s.retrieve_account("m2".to_owned()), Err(StoreError::NotFound));
    assert_eq!(s.create_account("m1".to_owned()), Ok(()));
    assert_eq!(s.retrieve_account("m1".to_owned()), Ok(()));
}

#[test]
fn prepare_changes_nothing_however_often_it_is_called() {
    let mut s = store();
    s.create_intent("pay_1".to_owned(), true).unwrap();
    assert_eq!(s.prepare(), Ok(()));
    assert_eq!(s.prepare(), Ok(()));
    assert_eq!(s.retrieve_intent("pay_1"), Ok(()));
    assert_eq!(s.retrieve_intent("pay_2"), Err(StoreError::NotFound));
}

#[test]
fn intents_do_not_show_up_as_attempts_or_accounts() {
    let mut s = store();
    s.create_intent("x".to_owned(), true).unwrap();
    assert_eq!(s.retrieve_all("x"), Err(StoreError::NotFound));
    assert_eq!(s.retrieve_account("x".to_owned()), Err(StoreError::NotFound));
}

#[test]
fn notifier_failure_leaves_the_intent_in_place() {
    let mut s = store();
    let next = begin_init_lag(&mut s, "pay_lag".to_owned());
    match next {
        InitLagStep::Notify { record_id, origin_ms } => {
            assert_eq!(record_id, "pay_lag");
            assert!(origin_ms > 1_600_000_000_000);
        }
        InitLagStep::Fail(e) => panic!("write failed: {:?}", e),
    }
    // The peer cannot be reached.
    assert_eq!(finish_init_lag(false), Err(StoreError::PeerUnreachable));
    assert_eq!(s.retrieve_intent("pay_lag"), Ok(()));
    // The peer can be reached.
    assert_eq!(finish_init_lag(true), Ok(()));
    assert_eq!(s.retrieve_intent("pay_lag"), Ok(()));
}

#[test]
fn failed_write_ends_the_probe_without_a_signal() {
    let next = init_lag_after_create(Err(StoreError::BackendWriteError), 5);
    assert!(matches!(next, InitLagStep::Fail(StoreError::BackendWriteError)));
    let next = init_lag_after_create(Ok(PaymentIntentResponse { pi: "p".to_owned() }), 5);
    match next {
        InitLagStep::Notify { record_id, origin_ms } => {
            assert_eq!(record_id, "p");
            assert_eq!(origin_ms, 5);
        }
        InitLagStep::Fail(_) => panic!("expected a signal"),
    }
}

#[test]
fn delivery_maps_failure_to_peer_unreachable() {
    assert_eq!(delivery(true), Ok(()));
    assert_eq!(delivery(false), Err(StoreError::PeerUnreachable));
}

#[test]
fn backend_failures_are_named_after_the_operation() {
    assert_eq!(backend_failure(OperationKind::Read), StoreError::BackendReadError);
    assert_eq!(backend_failure(OperationKind::Write), StoreError::BackendWriteError);
}

#[test]
fn every_error_has_its_own_message() {
    let all = [
        StoreError::NotFound,
        StoreError::BackendReadError,
        StoreError::BackendWriteError,
        StoreError::PeerUnreachable,
        StoreError::RetryBudgetExhausted,
    ];
    let mut messages: Vec<String> = all.iter().map(|e| e.message()).collect();
    assert_eq!(messages[0], "no record found");
    assert_eq!(messages[3], "peer cell unreachable");
    assert_eq!(messages[4], "retry budget exhausted");
    messages.sort();
    messages.dedup();
    assert_eq!(messages.len(), 5);
}

#[test]
fn lookup_answers_become_probe_outcomes() {
    assert_eq!(probe_outcome(Ok(()), 77), ProbeOutcome::Visible { now_ms: 77 });
    assert_eq!(probe_outcome(Err(StoreError::NotFound), 77), ProbeOutcome::Missing);
    assert_eq!(probe_outcome(Err(StoreError::BackendReadError), 77), ProbeOutcome::Missing);
}

#[test]
fn probe_once_sees_only_what_the_store_holds() {
    let mut s = store();
    assert_eq!(probe_once(&s, "pay_1"), ProbeOutcome::Missing);
    s.create_intent("pay_1".to_owned(), true).unwrap();
    match probe_once(&s, "pay_1") {
        ProbeOutcome::Visible { now_ms } => assert!(now_ms > 1_600_000_000_000),
        ProbeOutcome::Missing => panic!("the record is there"),
    }
}

/// A peer store in which the record becomes visible only after a number of
/// lookups, as replication would have it.
struct LaggingPeer {
    inner: MemoryStore,
    record: String,
    misses_left: u32,
}

impl LaggingPeer {
    fn lookup(&mut self, id: &str) -> Result<(), StoreError> {
        if self.misses_left > 0 {
            self.misses_left -= 1;
            return self.inner.retrieve_intent(id);
        }
        if self.inner.retrieve_intent(&self.record).is_err() {
            self.inner.create_intent(self.record.clone(), true).unwrap();
        }
        self.inner.retrieve_intent(id)
    }
}

#[test]
fn probe_against_a_lagging_peer_ends_found() {
    let cfg = PollerConfig { retry_budget: 100, retry_interval_ms: 10, ceiling_ms: 10_000 };
    let origin: i64 = 50_000;
    let mut clock: i64 = origin;
    let mut peer =
        LaggingPeer { inner: store(), record: "pay_lag".to_owned(), misses_left: 3 };
    let mut state = PollerState::initial();
    let mut observations: Vec<i128> = Vec::new();
    let mut queries: u32 = 0;
    while !state.ended() {
        let answer = peer.lookup("pay_lag");
        queries += 1;
        let (next, action) = step(&cfg, origin, state, probe_outcome(answer, clock));
        state = next;
        match action {
            PollerAction::SleepThenRetry { interval_ms } => clock += interval_ms as i64,
            PollerAction::Report { lag_ms } => observations.push(lag_ms),
            PollerAction::ReportTimeout { ceiling_ms } => observations.push(ceiling_ms as i128),
            PollerAction::Stop => {}
        }
    }
    assert_eq!(state, PollerState::Found);
    assert_eq!(queries, 4);
    assert_eq!(observations, vec![30i128]);
}

#[test]
fn probe_against_an_empty_peer_ends_exhausted() {
    let cfg = PollerConfig { retry_budget: 10, retry_interval_ms: 10, ceiling_ms: 10_000 };
    let peer = store();
    let mut state = PollerState::initial();
    let mut observations: Vec<i128> = Vec::new();
    let mut queries: u32 = 0;
    let mut answers: Vec<ProbeOutcome> = Vec::new();
    while !state.ended() {
        let outcome = probe_outcome(peer.retrieve_intent("pay_lag"), 0);
        answers.push(outcome);
        queries += 1;
        let (next, action) = step(&cfg, 0, state, outcome);
        state = next;
        match action {
            PollerAction::Report { lag_ms } => observations.push(lag_ms),
            PollerAction::ReportTimeout { ceiling_ms } => observations.push(ceiling_ms as i128),
            _ => {}
        }
    }
    assert_eq!(state, PollerState::Exhausted);
    assert_eq!(queries, 10);
    assert_eq!(observations, vec![10_000i128]);
    let report = replay(&cfg, 0, &answers);
    assert_eq!(report.state, PollerState::Exhausted);
    assert_eq!(report.queries, 10);
}

#[test]
fn update_gives_up_where_its_lookup_found_nothing() {
    assert_eq!(lookup_for_update(Ok(())), Ok(()));
    assert_eq!(lookup_for_update(Err(StoreError::NotFound)), Err(StoreError::NotFound));
    assert_eq!(
        lookup_for_update(Err(StoreError::BackendReadError)),
        Err(StoreError::BackendWriteError)
    );
    assert_eq!(
        lookup_for_update(Err(StoreError::PeerUnreachable)),
        Err(StoreError::BackendWriteError)
    );
}

#[test]
fn create_answers_ok_where_the_record_is_written_or_kept() {
    assert_eq!(create_answer(ConditionalWrite::Written), Ok(()));
    assert_eq!(create_answer(ConditionalWrite::Kept), Ok(()));
    assert_eq!(create_answer(ConditionalWrite::Failed), Err(StoreError::BackendWriteError));
}

#[test]
fn pay_needs_the_intent() {
    let mut s = store();
    let refused = pay(&mut s, "pay_1".to_owned(), "v1".to_owned());
    assert_eq!(refused.err(), Some(StoreError::NotFound));
    assert_eq!(s.retrieve_all("pay_1"), Err(StoreError::NotFound));
    s.create_intent("pay_1".to_owned(), true).unwrap();
    let paid = pay(&mut s, "pay_1".to_owned(), "v1".to_owned()).unwrap();
    assert!(paid.pa.starts_with("cellA_paa_"));
    assert!(paid.pa.ends_with("_v1"));
    assert_eq!(s.retrieve_all("pay_1"), Ok(()));
    assert_eq!(s.retrieve_by_id(paid.pa, "pay_1".to_owned()), Ok(()));
    assert_eq!(s.retrieve_all("pay_2"), Err(StoreError::NotFound));
}

#[test]
fn creating_an_account_twice_keeps_it() {
    let mut s = store();
    assert_eq!(s.create_account("m1".to_owned()), Ok(()));
    assert_eq!(s.create_account("m1".to_owned()), Ok(()));
    assert_eq!(s.retrieve_account("m1".to_owned()), Ok(()));
    assert_eq!(s.retrieve_account("m".to_owned()), Err(StoreError::NotFound));
}
