//! The replication-lag poller.
//!
//! When a cell is told that its peer has written a record, it asks its own
//! store for that record again and again until the record is visible or a
//! retry budget is used up. The decisions are made here, by [`step`]: from
//! the poller's state and the outcome of one query to the next state and the
//! action to perform. A probe can also be told to stop, by [`cancel`].
//! Querying, sleeping and recording the observation are left to the caller.

use crate::error::StoreError;
use vstd::prelude::*;

verus! {

/// The fixed parameters of a probe.
#[derive(Clone, Copy, Debug, PartialEq, Eq, Structural)]
pub struct PollerConfig {
    /// How many failed queries end the probe.
    pub retry_budget: u32,
    /// How long to sleep between two queries, in milliseconds.
    pub retry_interval_ms: u64,
    /// The value recorded for a probe that ran out of retries.
    pub ceiling_ms: i64,
}

/// The retry budget of a probe, unless the deployment names another.
pub const DEFAULT_RETRY_BUDGET: u32 = 100;

/// The pause between two queries in milliseconds, unless the deployment
/// names another.
pub const DEFAULT_RETRY_INTERVAL_MS: u64 = 100;

/// The value recorded for a probe that ran out of retries, in milliseconds.
pub const CEILING_MS: i64 = 10_000;

impl Default for PollerConfig {
    /// A hundred queries, a tenth of a second apart: a probe gives up after
    /// ten seconds, which is also the value it records then.
    fn default() -> (cfg: PollerConfig)
        ensures
            cfg == (PollerConfig {
                retry_budget: DEFAULT_RETRY_BUDGET,
                retry_interval_ms: DEFAULT_RETRY_INTERVAL_MS,
                ceiling_ms: CEILING_MS,
            }),
            cfg.retry_budget * cfg.retry_interval_ms == cfg.ceiling_ms,
    {
        assert(DEFAULT_RETRY_BUDGET * DEFAULT_RETRY_INTERVAL_MS == CEILING_MS) by (nonlinear_arith)
            requires
                DEFAULT_RETRY_BUDGET == 100,
                DEFAULT_RETRY_INTERVAL_MS == 100,
                CEILING_MS == 10_000,
        ;
        PollerConfig {
            retry_budget: DEFAULT_RETRY_BUDGET,
            retry_interval_ms: DEFAULT_RETRY_INTERVAL_MS,
            ceiling_ms: CEILING_MS,
        }
    }
}

/// Where a probe stands.
#[derive(Clone, Copy, Debug, PartialEq, Eq, Structural)]
pub enum PollerState {
    /// Still querying; `attempt_count` queries have failed so far.
    Polling { attempt_count: u32 },
    /// The record became visible.
    Found,
    /// The retry budget was used up before the record became visible.
    Exhausted,
    /// The probe was told to stop before it had an answer.
    Cancelled,
}

/// What one query of the store told the poller.
#[derive(Clone, Copy, Debug, PartialEq, Eq, Structural)]
pub enum ProbeOutcome {
    /// The record is there; `now_ms` is the time at which that was seen, in
    /// milliseconds since the Unix epoch.
    Visible { now_ms: i64 },
    /// The record is not there, or the query failed for any other reason.
    Missing,
}

/// What the caller has to do after a step.
#[derive(Clone, Copy, Debug, PartialEq, Eq, Structural)]
pub enum PollerAction {
    /// Record `lag_ms` in the lag histogram; the probe has ended.
    Report { lag_ms: i128 },
    /// Record `ceiling_ms` in the lag histogram and log the failure; the
    /// probe has ended.
    ReportTimeout { ceiling_ms: i64 },
    /// Sleep for `interval_ms`, then query again.
    SleepThenRetry { interval_ms: u64 },
    /// Nothing: the probe had ended before.
    Stop,
}

/// The lag between a write at `origin_ms` and its sighting at `now_ms`.
pub open spec fn lag(origin_ms: int, now_ms: int) -> int {
    now_ms - origin_ms
}

/// The transition relation of the poller, as a function.
///
/// A sighting ends the probe with the measured lag. A failed query is
/// counted; when the count reaches the budget the probe ends with the
/// ceiling value, otherwise the poller sleeps and tries again. A budget of
/// zero is used up by the first failed query. A probe that has ended stays
/// as it is.
pub open spec fn spec_step(
    cfg: PollerConfig,
    origin_ms: i64,
    state: PollerState,
    outcome: ProbeOutcome,
) -> (PollerState, PollerAction) {
    match state {
        PollerState::Polling { attempt_count } => match outcome {
            ProbeOutcome::Visible { now_ms } => (
                PollerState::Found,
                PollerAction::Report { lag_ms: lag(origin_ms as int, now_ms as int) as i128 },
            ),
            ProbeOutcome::Missing => if attempt_count + 1 >= cfg.retry_budget {
                (PollerState::Exhausted, PollerAction::ReportTimeout { ceiling_ms: cfg.ceiling_ms })
            } else {
                (
                    PollerState::Polling { attempt_count: (attempt_count + 1) as u32 },
                    PollerAction::SleepThenRetry { interval_ms: cfg.retry_interval_ms },
                )
            },
        },
        PollerState::Found => (PollerState::Found, PollerAction::Stop),
        PollerState::Exhausted => (PollerState::Exhausted, PollerAction::Stop),
        PollerState::Cancelled => (PollerState::Cancelled, PollerAction::Stop),
    }
}

/// What a probe does when it is told to stop, as at the shutdown of the
/// service: a probe that is still polling ends as cancelled, and a probe
/// that has ended stays as it is. Either way nothing is recorded.
pub open spec fn spec_cancel(state: PollerState) -> (PollerState, PollerAction) {
    match state {
        PollerState::Polling { .. } => (PollerState::Cancelled, PollerAction::Stop),
        _ => (state, PollerAction::Stop),
    }
}

impl PollerState {
    /// Whether the probe has ended.
    pub open spec fn is_terminal(self) -> bool {
        !(self is Polling)
    }

    /// The state in which every probe starts: polling, nothing failed yet.
    pub fn initial() -> (s: PollerState)
        ensures
            s == (PollerState::Polling { attempt_count: 0 }),
    {
        PollerState::Polling { attempt_count: 0 }
    }

    /// How the probe ended, if it has: with success if the record was found,
    /// with `RetryBudgetExhausted` if the retries were used up. A probe that
    /// was cancelled has no outcome.
    pub open spec fn spec_outcome(self) -> Option<Result<(), StoreError>> {
        match self {
            PollerState::Polling { .. } => None,
            PollerState::Cancelled => None,
            PollerState::Found => Some(Ok(())),
            PollerState::Exhausted => Some(Err(StoreError::RetryBudgetExhausted)),
        }
    }

    /// How the probe ended, if it has.
    pub fn outcome(&self) -> (r: Option<Result<(), StoreError>>)
        ensures
            r == self.spec_outcome(),
    {
        match self {
            PollerState::Polling { .. } => None,
            PollerState::Cancelled => None,
            PollerState::Found => Some(Ok(())),
            PollerState::Exhausted => Some(Err(StoreError::RetryBudgetExhausted)),
        }
    }

    /// Whether the probe has ended.
    pub fn ended(&self) -> (b: bool)
        ensures
            b == self.is_terminal(),
    {
        match self {
            PollerState::Polling { .. } => false,
            _ => true,
        }
    }
}

/// The lag between a write at `origin_ms` and its sighting at `now_ms`, in
/// milliseconds. The difference of two 64-bit timestamps always fits.
pub fn lag_ms(origin_ms: i64, now_ms: i64) -> (l: i128)
    ensures
        l == lag(origin_ms as int, now_ms as int),
{
    (now_ms as i128) - (origin_ms as i128)
}

/// One step of the poller: the next state and the action to perform, given
/// the outcome of the query just made.
pub fn step(cfg: &PollerConfig, origin_ms: i64, state: PollerState, outcome: ProbeOutcome) -> (r: (
    PollerState,
    PollerAction,
))
    ensures
        r == spec_step(*cfg, origin_ms, state, outcome),
{
    match state {
        PollerState::Polling { attempt_count } => match outcome {
            ProbeOutcome::Visible { now_ms } => (
                PollerState::Found,
                PollerAction::Report { lag_ms: lag_ms(origin_ms, now_ms) },
            ),
            ProbeOutcome::Missing => {
                if attempt_count >= cfg.retry_budget || attempt_count + 1 >= cfg.retry_budget {
                    (
                        PollerState::Exhausted,
                        PollerAction::ReportTimeout { ceiling_ms: cfg.ceiling_ms },
                    )
                } else {
                    (
                        PollerState::Polling { attempt_count: attempt_count + 1 },
                        PollerAction::SleepThenRetry { interval_ms: cfg.retry_interval_ms },
                    )
                }
            },
        },
        PollerState::Found => (PollerState::Found, PollerAction::Stop),
        PollerState::Exhausted => (PollerState::Exhausted, PollerAction::Stop),
        PollerState::Cancelled => (PollerState::Cancelled, PollerAction::Stop),
    }
}

/// Tells a probe to stop: the state in which it ends, and the action to
/// perform, which is to stop without recording anything.
pub fn cancel(state: PollerState) -> (r: (PollerState, PollerAction))
    ensures
        r == spec_cancel(state),
{
    match state {
        PollerState::Polling { .. } => (PollerState::Cancelled, PollerAction::Stop),
        _ => (state, PollerAction::Stop),
    }
}

/// What a probe did, seen from outside.
pub struct ProbeRun {
    /// The state in which the probe was left.
    pub state: PollerState,
    /// How many queries were made.
    pub queries: nat,
    /// How many times the poller slept.
    pub sleeps: nat,
    /// The values recorded in the lag histogram, in order.
    pub observations: Seq<int>,
}

/// The report of a replayed probe; its view is a [`ProbeRun`].
pub struct ProbeReport {
    /// The state in which the probe was left.
    pub state: PollerState,
    /// How many queries were made.
    pub queries: usize,
    /// How many times the poller slept.
    pub sleeps: usize,
    /// The values recorded in the lag histogram, in order.
    pub observations: Vec<i128>,
}

impl View for ProbeReport {
    type V = ProbeRun;

    open spec fn view(&self) -> ProbeRun {
        ProbeRun {
            state: self.state,
            queries: self.queries as nat,
            sleeps: self.sleeps as nat,
            observations: self.observations@.map_values(|v: i128| v as int),
        }
    }
}

/// The values that an action records in the lag histogram.
pub open spec fn observed(action: PollerAction) -> Seq<int> {
    match action {
        PollerAction::Report { lag_ms } => seq![lag_ms as int],
        PollerAction::ReportTimeout { ceiling_ms } => seq![ceiling_ms as int],
        _ => Seq::<int>::empty(),
    }
}

/// How many sleeps an action asks for.
pub open spec fn slept(action: PollerAction) -> nat {
    match action {
        PollerAction::SleepThenRetry { .. } => 1,
        _ => 0,
    }
}

/// The run that begins with one query, answered by `action`, and goes on as
/// `rest`.
pub open spec fn after_step(action: PollerAction, rest: ProbeRun) -> ProbeRun {
    ProbeRun {
        state: rest.state,
        queries: rest.queries + 1,
        sleeps: rest.sleeps + slept(action),
        observations: observed(action) + rest.observations,
    }
}

/// The run of a poller that starts in `state` and gets `outcomes` as the
/// answers to its queries, one after the other. The poller makes no query
/// once the probe has ended, so outcomes beyond that point are not looked at.
pub open spec fn run_from(
    cfg: PollerConfig,
    origin_ms: i64,
    state: PollerState,
    outcomes: Seq<ProbeOutcome>,
) -> ProbeRun
    decreases outcomes.len(),
{
    if state.is_terminal() || outcomes.len() == 0 {
        ProbeRun { state, queries: 0, sleeps: 0, observations: Seq::<int>::empty() }
    } else {
        let (next, action) = spec_step(cfg, origin_ms, state, outcomes[0]);
        after_step(action, run_from(cfg, origin_ms, next, outcomes.drop_first()))
    }
}

/// The run of a fresh poller that gets `outcomes` as the answers to its
/// queries.
pub open spec fn run(cfg: PollerConfig, origin_ms: i64, outcomes: Seq<ProbeOutcome>) -> ProbeRun {
    run_from(cfg, origin_ms, PollerState::Polling { attempt_count: 0 }, outcomes)
}

/// Whether the first `k` outcomes are all failures.
pub open spec fn all_missing(outcomes: Seq<ProbeOutcome>, k: int) -> bool {
    forall|i: int| 0 <= i < k ==> outcomes[i] == ProbeOutcome::Missing
}

/// The number of failed queries that uses up a budget: the budget itself,
/// and one for a budget of zero.
pub open spec fn effective_budget(cfg: PollerConfig) -> int {
    if cfg.retry_budget == 0 {
        1
    } else {
        cfg.retry_budget as int
    }
}

/// How many failed queries a poller that has counted `attempt_count` of them
/// can still take until its budget is used up.
pub open spec fn remaining(cfg: PollerConfig, attempt_count: u32) -> int {
    if attempt_count + 1 >= cfg.retry_budget {
        1
    } else {
        cfg.retry_budget - attempt_count
    }
}

/// A poller that sees the record at its query number `k`, after `k` failed
/// queries that its budget allows, ends in `Found`: it has made `k + 1`
/// queries, slept `k` times and recorded the lag once, and nothing else.
pub proof fn lemma_found_from(
    cfg: PollerConfig,
    origin_ms: i64,
    attempt_count: u32,
    outcomes: Seq<ProbeOutcome>,
    k: int,
    now_ms: i64,
)
    requires
        0 <= k < outcomes.len(),
        all_missing(outcomes, k),
        outcomes[k] == (ProbeOutcome::Visible { now_ms }),
        k < remaining(cfg, attempt_count),
    ensures
        run_from(cfg, origin_ms, PollerState::Polling { attempt_count }, outcomes) == (ProbeRun {
            state: PollerState::Found,
            queries: (k + 1) as nat,
            sleeps: k as nat,
            observations: seq![lag(origin_ms as int, now_ms as int)],
        }),
    decreases k,
{
    let start = PollerState::Polling { attempt_count };
    let r = run_from(cfg, origin_ms, start, outcomes);
    let tail = outcomes.drop_first();
    if k == 0 {
        assert(run_from(cfg, origin_ms, PollerState::Found, tail).queries == 0);
        assert(r.observations =~= seq![lag(origin_ms as int, now_ms as int)]);
    } else {
        assert(outcomes[0] == ProbeOutcome::Missing);
        let next = (attempt_count + 1) as u32;
        assert forall|i: int| 0 <= i < k - 1 implies tail[i] == ProbeOutcome::Missing by {
            assert(tail[i] == outcomes[i + 1]);
        }
        assert(tail[k - 1] == outcomes[k]);
        lemma_found_from(cfg, origin_ms, next, tail, k - 1, now_ms);
        assert(r.observations =~= seq![lag(origin_ms as int, now_ms as int)]);
    }
}

/// A poller whose queries all fail until its budget is used up ends in
/// `Exhausted`: it has made exactly as many queries as the budget had left,
/// slept between them, and recorded the ceiling value once. Whatever the
/// store would have answered after that is never asked for.
pub proof fn lemma_exhausted_from(
    cfg: PollerConfig,
    origin_ms: i64,
    attempt_count: u32,
    outcomes: Seq<ProbeOutcome>,
)
    requires
        outcomes.len() >= remaining(cfg, attempt_count),
        all_missing(outcomes, remaining(cfg, attempt_count)),
    ensures
        run_from(cfg, origin_ms, PollerState::Polling { attempt_count }, outcomes) == (ProbeRun {
            state: PollerState::Exhausted,
            queries: remaining(cfg, attempt_count) as nat,
            sleeps: (remaining(cfg, attempt_count) - 1) as nat,
            observations: seq![cfg.ceiling_ms as int],
        }),
    decreases remaining(cfg, attempt_count),
{
    let start = PollerState::Polling { attempt_count };
    let r = run_from(cfg, origin_ms, start, outcomes);
    let tail = outcomes.drop_first();
    assert(outcomes[0] == ProbeOutcome::Missing);
    if attempt_count + 1 >= cfg.retry_budget {
        assert(run_from(cfg, origin_ms, PollerState::Exhausted, tail).queries == 0);
        assert(r.observations =~= seq![cfg.ceiling_ms as int]);
    } else {
        let next = (attempt_count + 1) as u32;
        assert(remaining(cfg, next) == remaining(cfg, attempt_count) - 1);
        assert forall|i: int| 0 <= i < remaining(cfg, next) implies tail[i]
            == ProbeOutcome::Missing by {
            assert(tail[i] == outcomes[i + 1]);
        }
        lemma_exhausted_from(cfg, origin_ms, next, tail);
        assert(r.observations =~= seq![cfg.ceiling_ms as int]);
    }
}

/// If the record becomes visible at query number `k` of a fresh probe, after
/// `k` failed queries, and `k` is below the retry budget (or zero), the
/// probe ends in `Found` with `k + 1` queries, `k` sleeps and the lag as its
/// only observation.
pub proof fn lemma_probe_finds(
    cfg: PollerConfig,
    origin_ms: i64,
    outcomes: Seq<ProbeOutcome>,
    k: int,
    now_ms: i64,
)
    requires
        0 <= k < outcomes.len(),
        all_missing(outcomes, k),
        outcomes[k] == (ProbeOutcome::Visible { now_ms }),
        k < effective_budget(cfg),
    ensures
        run(cfg, origin_ms, outcomes) == (ProbeRun {
            state: PollerState::Found,
            queries: (k + 1) as nat,
            sleeps: k as nat,
            observations: seq![lag(origin_ms as int, now_ms as int)],
        }),
{
    lemma_found_from(cfg, origin_ms, 0, outcomes, k, now_ms);
}

/// Whether a probe's queries are made at the given times, in milliseconds,
/// at the pace that the configuration asks for: the first query no earlier
/// than the write and at most `jitter` after it, and each further query
/// after a sleep of the retry interval that overruns by at most `jitter`.
pub open spec fn paced(cfg: PollerConfig, origin_ms: int, times: Seq<int>, jitter: int) -> bool {
    &&& times.len() >= 1
    &&& origin_ms <= times[0] <= origin_ms + jitter
    &&& forall|j: int|
        1 <= j < times.len() ==> times[j - 1] + cfg.retry_interval_ms <= #[trigger] times[j]
            <= times[j - 1] + cfg.retry_interval_ms + jitter
}

/// A query that follows `k` sleeps at the pace of the configuration is made
/// at least `k` retry intervals after the write, and at most `k` intervals
/// and `k + 1` overruns after it.
pub proof fn lemma_paced_lag(cfg: PollerConfig, origin_ms: int, times: Seq<int>, jitter: int)
    requires
        paced(cfg, origin_ms, times, jitter),
    ensures
        (times.len() - 1) * cfg.retry_interval_ms <= lag(origin_ms, times.last()),
        lag(origin_ms, times.last()) <= (times.len() - 1) * cfg.retry_interval_ms + times.len()
            * jitter,
    decreases times.len(),
{
    let k = times.len() - 1;
    let interval = cfg.retry_interval_ms as int;
    if k > 0 {
        let front = times.drop_last();
        assert forall|j: int| 1 <= j < front.len() implies front[j - 1] + interval
            <= #[trigger] front[j] <= front[j - 1] + interval + jitter by {
            assert(front[j] == times[j]);
            assert(front[j - 1] == times[j - 1]);
        }
        lemma_paced_lag(cfg, origin_ms, front, jitter);
        assert(front.last() == times[k - 1]);
        assert(times[k - 1] + interval <= times[k] <= times[k - 1] + interval + jitter);
        assert(k * interval == (k - 1) * interval + interval) by (nonlinear_arith);
        assert((k + 1) * jitter == k * jitter + jitter) by (nonlinear_arith);
    } else {
        assert(0 * interval == 0) by (nonlinear_arith);
        assert(1 * jitter == jitter) by (nonlinear_arith);
    }
}

/// If a fresh probe's queries are made at the pace of the configuration and
/// the record becomes visible at query number `k`, after `k` failed queries
/// that the budget allows, the probe ends in `Found` and its one observation
/// is a lag of at least `k` retry intervals and at most `k` intervals and
/// `k + 1` overruns. Nothing else is recorded.
pub proof fn lemma_probe_finds_within(
    cfg: PollerConfig,
    origin_ms: i64,
    outcomes: Seq<ProbeOutcome>,
    times: Seq<int>,
    jitter: int,
    now_ms: i64,
)
    requires
        paced(cfg, origin_ms as int, times, jitter),
        times.len() <= outcomes.len(),
        all_missing(outcomes, times.len() - 1),
        outcomes[times.len() - 1] == (ProbeOutcome::Visible { now_ms }),
        now_ms == times.last(),
        times.len() - 1 < effective_budget(cfg),
    ensures
        run(cfg, origin_ms, outcomes).state == PollerState::Found,
        run(cfg, origin_ms, outcomes).observations == seq![lag(origin_ms as int, now_ms as int)],
        (times.len() - 1) * cfg.retry_interval_ms <= lag(origin_ms as int, now_ms as int),
        lag(origin_ms as int, now_ms as int) <= (times.len() - 1) * cfg.retry_interval_ms
            + times.len() * jitter,
{
    lemma_probe_finds(cfg, origin_ms, outcomes, times.len() - 1, now_ms);
    lemma_paced_lag(cfg, origin_ms as int, times, jitter);
}

/// If the store never shows the record, a fresh probe ends in `Exhausted`
/// after exactly as many queries as the retry budget says, with the ceiling
/// value as its only observation; it never queries again.
pub proof fn lemma_probe_exhausts(cfg: PollerConfig, origin_ms: i64, outcomes: Seq<ProbeOutcome>)
    requires
        outcomes.len() >= effective_budget(cfg),
        all_missing(outcomes, effective_budget(cfg)),
    ensures
        run(cfg, origin_ms, outcomes) == (ProbeRun {
            state: PollerState::Exhausted,
            queries: effective_budget(cfg) as nat,
            sleeps: (effective_budget(cfg) - 1) as nat,
            observations: seq![cfg.ceiling_ms as int],
        }),
{
    lemma_exhausted_from(cfg, origin_ms, 0, outcomes);
}

/// What holds of every run, whatever the store answers: the poller makes no
/// more queries than it has budget left or answers to read; each query is
/// followed by a sleep or by the one observation that ends the probe, so
/// that it sleeps less often than it has budget left; a probe has recorded
/// an observation if and only if it has ended; and a probe that has not
/// ended has counted every query as failed.
pub proof fn lemma_run_invariant(
    cfg: PollerConfig,
    origin_ms: i64,
    attempt_count: u32,
    outcomes: Seq<ProbeOutcome>,
)
    ensures
        ({
            let r = run_from(cfg, origin_ms, PollerState::Polling { attempt_count }, outcomes);
            &&& r.queries <= outcomes.len()
            &&& r.queries <= remaining(cfg, attempt_count)
            &&& r.sleeps + r.observations.len() == r.queries
            &&& r.sleeps < remaining(cfg, attempt_count)
            &&& r.observations.len() <= 1
            &&& r.state.is_terminal() <==> r.observations.len() == 1
            &&& r.state is Polling ==> r.queries == outcomes.len() && r.state
                == (PollerState::Polling { attempt_count: (attempt_count + r.queries) as u32 })
                && r.queries < remaining(cfg, attempt_count)
        }),
    decreases outcomes.len(),
{
    let start = PollerState::Polling { attempt_count };
    if outcomes.len() > 0 {
        let (next, action) = spec_step(cfg, origin_ms, start, outcomes[0]);
        let tail = outcomes.drop_first();
        match next {
            PollerState::Polling { attempt_count: c } => {
                lemma_run_invariant(cfg, origin_ms, c, tail);
            },
            _ => {
                assert(run_from(cfg, origin_ms, next, tail).queries == 0);
            },
        }
    } else {
        assert(remaining(cfg, attempt_count) >= 1);
    }
}

/// A probe that is told to stop has ended, records nothing then and nothing
/// afterwards, and makes no further query, whatever answers are at hand. A
/// probe that had ended before keeps the state in which it ended.
pub proof fn lemma_cancelled_probe_records_nothing(
    cfg: PollerConfig,
    origin_ms: i64,
    state: PollerState,
    outcomes: Seq<ProbeOutcome>,
)
    ensures
        spec_cancel(state).0.is_terminal(),
        state.is_terminal() ==> spec_cancel(state).0 == state,
        observed(spec_cancel(state).1) == Seq::<int>::empty(),
        slept(spec_cancel(state).1) == 0,
        run_from(cfg, origin_ms, spec_cancel(state).0, outcomes) == (ProbeRun {
            state: spec_cancel(state).0,
            queries: 0,
            sleeps: 0,
            observations: Seq::<int>::empty(),
        }),
{
}

/// A probe that has ended stays as it is, and asks for nothing more.
pub proof fn lemma_terminal_absorbs(
    cfg: PollerConfig,
    origin_ms: i64,
    state: PollerState,
    outcome: ProbeOutcome,
)
    requires
        state.is_terminal(),
    ensures
        spec_step(cfg, origin_ms, state, outcome) == (state, PollerAction::Stop),
{
}

/// One answer in the joint schedule of two probes: which of the two had
/// asked, and what it was told.
pub struct Scheduled {
    /// Whether the answer goes to the first probe (else to the second).
    pub first: bool,
    /// The answer.
    pub outcome: ProbeOutcome,
}

/// The answers that a schedule holds for one of the two probes, in order.
pub open spec fn answers_for(schedule: Seq<Scheduled>, first: bool) -> Seq<ProbeOutcome>
    decreases schedule.len(),
{
    if schedule.len() == 0 {
        Seq::<ProbeOutcome>::empty()
    } else if schedule[0].first == first {
        seq![schedule[0].outcome] + answers_for(schedule.drop_first(), first)
    } else {
        answers_for(schedule.drop_first(), first)
    }
}

/// The runs of two pollers whose queries are answered in the order of one
/// joint schedule. An answer for a probe that has ended is never asked for.
pub open spec fn run_pair(
    cfg_a: PollerConfig,
    origin_a: i64,
    state_a: PollerState,
    cfg_b: PollerConfig,
    origin_b: i64,
    state_b: PollerState,
    schedule: Seq<Scheduled>,
) -> (ProbeRun, ProbeRun)
    decreases schedule.len(),
{
    if schedule.len() == 0 {
        (
            ProbeRun { state: state_a, queries: 0, sleeps: 0, observations: Seq::<int>::empty() },
            ProbeRun { state: state_b, queries: 0, sleeps: 0, observations: Seq::<int>::empty() },
        )
    } else {
        let rest = schedule.drop_first();
        if schedule[0].first {
            if state_a.is_terminal() {
                run_pair(cfg_a, origin_a, state_a, cfg_b, origin_b, state_b, rest)
            } else {
                let (next, action) = spec_step(cfg_a, origin_a, state_a, schedule[0].outcome);
                let (a, b) = run_pair(cfg_a, origin_a, next, cfg_b, origin_b, state_b, rest);
                (after_step(action, a), b)
            }
        } else {
            if state_b.is_terminal() {
                run_pair(cfg_a, origin_a, state_a, cfg_b, origin_b, state_b, rest)
            } else {
                let (next, action) = spec_step(cfg_b, origin_b, state_b, schedule[0].outcome);
                let (a, b) = run_pair(cfg_a, origin_a, state_a, cfg_b, origin_b, next, rest);
                (a, after_step(action, b))
            }
        }
    }
}

/// A poller that has ended makes no query, whatever answers are at hand.
pub proof fn lemma_ended_run_is_idle(
    cfg: PollerConfig,
    origin_ms: i64,
    state: PollerState,
    outcomes: Seq<ProbeOutcome>,
)
    requires
        state.is_terminal(),
    ensures
        run_from(cfg, origin_ms, state, outcomes) == (ProbeRun {
            state,
            queries: 0,
            sleeps: 0,
            observations: Seq::<int>::empty(),
        }),
{
}

/// Two probes that run side by side do not disturb each other: however
/// their queries interleave, each probe ends where it would have ended
/// alone, with the same count of queries and sleeps and the same
/// observations.
pub proof fn lemma_probes_independent(
    cfg_a: PollerConfig,
    origin_a: i64,
    state_a: PollerState,
    cfg_b: PollerConfig,
    origin_b: i64,
    state_b: PollerState,
    schedule: Seq<Scheduled>,
)
    ensures
        run_pair(cfg_a, origin_a, state_a, cfg_b, origin_b, state_b, schedule) == (
            run_from(cfg_a, origin_a, state_a, answers_for(schedule, true)),
            run_from(cfg_b, origin_b, state_b, answers_for(schedule, false)),
        ),
    decreases schedule.len(),
{
    if schedule.len() > 0 {
        let rest = schedule.drop_first();
        let ans_a = answers_for(schedule, true);
        let ans_b = answers_for(schedule, false);
        if schedule[0].first {
            assert(ans_a.drop_first() =~= answers_for(rest, true));
            if state_a.is_terminal() {
                lemma_probes_independent(cfg_a, origin_a, state_a, cfg_b, origin_b, state_b, rest);
                lemma_ended_run_is_idle(cfg_a, origin_a, state_a, ans_a);
                lemma_ended_run_is_idle(cfg_a, origin_a, state_a, answers_for(rest, true));
            } else {
                let (next, action) = spec_step(cfg_a, origin_a, state_a, schedule[0].outcome);
                lemma_probes_independent(cfg_a, origin_a, next, cfg_b, origin_b, state_b, rest);
            }
        } else {
            assert(ans_b.drop_first() =~= answers_for(rest, false));
            if state_b.is_terminal() {
                lemma_probes_independent(cfg_a, origin_a, state_a, cfg_b, origin_b, state_b, rest);
                lemma_ended_run_is_idle(cfg_b, origin_b, state_b, ans_b);
                lemma_ended_run_is_idle(cfg_b, origin_b, state_b, answers_for(rest, false));
            } else {
                let (next, action) = spec_step(cfg_b, origin_b, state_b, schedule[0].outcome);
                lemma_probes_independent(cfg_a, origin_a, state_a, cfg_b, origin_b, next, rest);
            }
        }
    }
}

/// Puts a run that followed another behind it.
pub open spec fn then_run(first: ProbeRun, second: ProbeRun) -> ProbeRun {
    ProbeRun {
        state: second.state,
        queries: first.queries + second.queries,
        sleeps: first.sleeps + second.sleeps,
        observations: first.observations + second.observations,
    }
}

/// Replays a probe against recorded answers: runs a fresh poller, hands it
/// `outcomes` one by one as the answers to its queries, and reports where it
/// ended and what it did. No query is made once the probe has ended.
pub fn replay(cfg: &PollerConfig, origin_ms: i64, outcomes: &Vec<ProbeOutcome>) -> (report:
    ProbeReport)
    ensures
        report@ == run(*cfg, origin_ms, outcomes@),
{
    let mut state = PollerState::initial();
    let mut sleeps: usize = 0;
    let mut observations: Vec<i128> = Vec::new();
    let mut i: usize = 0;
    let ghost done = ProbeRun {
        state,
        queries: 0,
        sleeps: 0,
        observations: Seq::<int>::empty(),
    };
    assert(outcomes@.subrange(0, outcomes@.len() as int) =~= outcomes@);
    assert(then_run(done, run(*cfg, origin_ms, outcomes@)).observations =~= run(
        *cfg,
        origin_ms,
        outcomes@,
    ).observations);
    while i < outcomes.len() && !state.ended()
        invariant
            i <= outcomes.len(),
            sleeps <= i,
            done.queries == i,
            done.sleeps == sleeps,
            done.observations == observations@.map_values(|v: i128| v as int),
            run(*cfg, origin_ms, outcomes@) == then_run(
                done,
                run_from(*cfg, origin_ms, state, outcomes@.subrange(i as int, outcomes@.len() as int)),
            ),
        decreases outcomes.len() - i,
    {
        let ghost rest = outcomes@.subrange(i as int, outcomes@.len() as int);
        let ghost before = run_from(*cfg, origin_ms, state, rest);
        assert(rest[0] == outcomes@[i as int]);
        assert(rest.drop_first() =~= outcomes@.subrange(i + 1, outcomes@.len() as int));
        let (next, action) = step(cfg, origin_ms, state, outcomes[i]);
        let ghost after = run_from(*cfg, origin_ms, next, rest.drop_first());
        match action {
            PollerAction::Report { lag_ms } => {
                observations.push(lag_ms);
            },
            PollerAction::ReportTimeout { ceiling_ms } => {
                observations.push(ceiling_ms as i128);
            },
            PollerAction::SleepThenRetry { .. } => {
                sleeps = sleeps + 1;
            },
            PollerAction::Stop => {},
        }
        proof {
            let grown = ProbeRun {
                state: next,
                queries: done.queries + 1,
                sleeps: done.sleeps + slept(action),
                observations: done.observations + observed(action),
            };
            assert(before.observations == observed(action) + after.observations);
            assert(then_run(done, before).observations =~= then_run(grown, after).observations);
            assert(grown.observations =~= observations@.map_values(|v: i128| v as int));
            done = grown;
        }
        state = next;
        i = i + 1;
    }
    proof {
        let rest = outcomes@.subrange(i as int, outcomes@.len() as int);
        assert(run_from(*cfg, origin_ms, state, rest).queries == 0);
        assert(then_run(done, run_from(*cfg, origin_ms, state, rest)).observations
            =~= done.observations);
    }
    ProbeReport { state, queries: i, sleeps, observations }
}

} // verus!
