use cell_payments::error::StoreError;
use cell_payments::poller::{
    cancel, lag_ms, replay, step, PollerAction, PollerConfig, PollerState, ProbeOutcome,
};

fn config(budget: u32, interval: u64) -> PollerConfig {
    PollerConfig { retry_budget: budget, retry_interval_ms: interval, ceiling_ms: 10_000 }
}

#[test]
fn poller_finds_the_record_after_three_misses() {
    let cfg = config(100, 10);
    let origin: i64 = 1_700_000_000_000;
    let mut outcomes = vec![ProbeOutcome::Missing; 3];
    // Three sleeps of 10 ms have passed when the fourth query sees the record.
    outcomes.push(ProbeOutcome::Visible { now_ms: origin + 3 * 10 });
    let report = replay(&cfg, origin, &outcomes);
    assert_eq!(report.state, PollerState::Found);
    assert_eq!(report.queries, 4);
    assert_eq!(report.sleeps, 3);
    assert_eq!(report.observations, vec![30i128]);
    assert!(report.observations[0] >= 30 && report.observations[0] <= 200);
}

#[test]
fn poller_gives_up_after_exactly_the_budget() {
    let cfg = config(10, 10);
    let outcomes = vec![ProbeOutcome::Missing; 25];
    let report = replay(&cfg, 1_000, &outcomes);
    assert_eq!(report.state, PollerState::Exhausted);
    assert_eq!(report.queries, 10);
    assert_eq!(report.sleeps, 9);
    assert_eq!(report.observations, vec![10_000i128]);
}

#[test]
fn poller_never_looks_past_the_end_of_the_probe() {
    let cfg = config(3, 10);
    let mut outcomes = vec![ProbeOutcome::Missing; 3];
    outcomes.push(ProbeOutcome::Visible { now_ms: 99 });
    let report = replay(&cfg, 0, &outcomes);
    assert_eq!(report.state, PollerState::Exhausted);
    assert_eq!(report.queries, 3);
    assert_eq!(report.observations, vec![10_000i128]);

    let found_first = vec![
        ProbeOutcome::Visible { now_ms: 7 },
        ProbeOutcome::Missing,
        ProbeOutcome::Visible { now_ms: 9 },
    ];
    let report = replay(&cfg, 2, &found_first);
    assert_eq!(report.state, PollerState::Found);
    assert_eq!(report.queries, 1);
    assert_eq!(report.sleeps, 0);
    assert_eq!(report.observations, vec![5i128]);
}

#[test]
fn poller_that_runs_out_of_answers_is_still_polling() {
    let cfg = config(10, 10);
    let report = replay(&cfg, 0, &vec![ProbeOutcome::Missing; 4]);
    assert_eq!(report.state, PollerState::Polling { attempt_count: 4 });
    assert_eq!(report.queries, 4);
    assert_eq!(report.sleeps, 4);
    assert!(report.observations.is_empty());

    let report = replay(&cfg, 0, &Vec::new());
    assert_eq!(report.state, PollerState::Polling { attempt_count: 0 });
    assert_eq!(report.queries, 0);
}

#[test]
fn step_reports_the_lag_on_a_sighting() {
    let cfg = config(5, 25);
    let (state, action) = step(
        &cfg,
        1_000,
        PollerState::Polling { attempt_count: 2 },
        ProbeOutcome::Visible { now_ms: 1_450 },
    );
    assert_eq!(state, PollerState::Found);
    assert_eq!(action, PollerAction::Report { lag_ms: 450 });
}

#[test]
fn step_sleeps_while_the_budget_lasts() {
    let cfg = config(5, 25);
    let (state, action) =
        step(&cfg, 0, PollerState::Polling { attempt_count: 0 }, ProbeOutcome::Missing);
    assert_eq!(state, PollerState::Polling { attempt_count: 1 });
    assert_eq!(action, PollerAction::SleepThenRetry { interval_ms: 25 });
    let (state, action) =
        step(&cfg, 0, PollerState::Polling { attempt_count: 3 }, ProbeOutcome::Missing);
    assert_eq!(state, PollerState::Polling { attempt_count: 4 });
    assert_eq!(action, PollerAction::SleepThenRetry { interval_ms: 25 });
}

#[test]
fn step_times_out_when_the_count_reaches_the_budget() {
    let cfg = config(5, 25);
    let (state, action) =
        step(&cfg, 0, PollerState::Polling { attempt_count: 4 }, ProbeOutcome::Missing);
    assert_eq!(state, PollerState::Exhausted);
    assert_eq!(action, PollerAction::ReportTimeout { ceiling_ms: 10_000 });
}

#[test]
fn step_with_a_budget_of_zero_or_one_gives_up_at_the_first_miss() {
    for budget in [0u32, 1] {
        let cfg = config(budget, 25);
        let (state, action) = step(&cfg, 0, PollerState::initial(), ProbeOutcome::Missing);
        assert_eq!(state, PollerState::Exhausted);
        assert_eq!(action, PollerAction::ReportTimeout { ceiling_ms: 10_000 });
        let (state, _) =
            step(&cfg, 0, PollerState::initial(), ProbeOutcome::Visible { now_ms: 1 });
        assert_eq!(state, PollerState::Found);
    }
}

#[test]
fn step_survives_a_count_at_the_top_of_its_range() {
    let cfg = config(u32::MAX, 1);
    let (state, _) = step(
        &cfg,
        0,
        PollerState::Polling { attempt_count: u32::MAX },
        ProbeOutcome::Missing,
    );
    assert_eq!(state, PollerState::Exhausted);
    let (state, _) = step(
        &cfg,
        0,
        PollerState::Polling { attempt_count: u32::MAX - 1 },
        ProbeOutcome::Missing,
    );
    assert_eq!(state, PollerState::Exhausted);
    let (state, _) = step(
        &cfg,
        0,
        PollerState::Polling { attempt_count: u32::MAX - 2 },
        ProbeOutcome::Missing,
    );
    assert_eq!(state, PollerState::Polling { attempt_count: u32::MAX - 1 });
}

#[test]
fn ended_probes_stay_as_they_are() {
    let cfg = config(5, 25);
    for state in [PollerState::Found, PollerState::Exhausted] {
        for outcome in [ProbeOutcome::Missing, ProbeOutcome::Visible { now_ms: 3 }] {
            assert_eq!(step(&cfg, 0, state, outcome), (state, PollerAction::Stop));
        }
        assert!(state.ended());
    }
    assert!(!PollerState::initial().ended());
}

#[test]
fn outcome_names_the_terminal_condition() {
    assert_eq!(PollerState::initial().outcome(), None);
    assert_eq!(PollerState::Found.outcome(), Some(Ok(())));
    assert_eq!(
        PollerState::Exhausted.outcome(),
        Some(Err(StoreError::RetryBudgetExhausted))
    );
}

#[test]
fn lag_is_the_plain_difference() {
    assert_eq!(lag_ms(1_000, 1_030), 30);
    assert_eq!(lag_ms(1_030, 1_000), -30);
    assert_eq!(lag_ms(0, 0), 0);
    assert_eq!(lag_ms(i64::MIN, i64::MAX), (i64::MAX as i128) - (i64::MIN as i128));
    assert_eq!(lag_ms(i64::MAX, i64::MIN), (i64::MIN as i128) - (i64::MAX as i128));
}

#[test]
fn two_probes_side_by_side_do_not_disturb_each_other() {
    let cfg_a = config(4, 10);
    let cfg_b = config(2, 10);
    let answers_a = vec![
        ProbeOutcome::Missing,
        ProbeOutcome::Missing,
        ProbeOutcome::Visible { now_ms: 520 },
    ];
    let answers_b = vec![ProbeOutcome::Missing, ProbeOutcome::Missing, ProbeOutcome::Missing];
    let alone_a = replay(&cfg_a, 500, &answers_a);
    let alone_b = replay(&cfg_b, 700, &answers_b);

    // The same answers, with the queries of the two probes interleaved.
    let mut state_a = PollerState::initial();
    let mut state_b = PollerState::initial();
    let mut seen_a: Vec<i128> = Vec::new();
    let mut seen_b: Vec<i128> = Vec::new();
    let mut next_a: usize = 0;
    let mut next_b: usize = 0;
    for turn in [true, false, false, true, false, true] {
        let (cfg, origin, state, answers, next, seen) = if turn {
            (&cfg_a, 500, &mut state_a, &answers_a, &mut next_a, &mut seen_a)
        } else {
            (&cfg_b, 700, &mut state_b, &answers_b, &mut next_b, &mut seen_b)
        };
        if state.ended() {
            continue;
        }
        let (after, action) = step(cfg, origin, *state, answers[*next]);
        *next += 1;
        *state = after;
        match action {
            PollerAction::Report { lag_ms } => seen.push(lag_ms),
            PollerAction::ReportTimeout { ceiling_ms } => seen.push(ceiling_ms as i128),
            _ => {}
        }
    }
    assert_eq!(state_a, alone_a.state);
    assert_eq!(state_b, alone_b.state);
    assert_eq!(seen_a, alone_a.observations);
    assert_eq!(seen_b, alone_b.observations);
    assert_eq!(seen_a, vec![20i128]);
    assert_eq!(seen_b, vec![10_000i128]);
    assert_eq!(next_a, alone_a.queries);
    assert_eq!(next_b, alone_b.queries);
    assert_eq!(state_a, PollerState::Found);
    assert_eq!(state_b, PollerState::Exhausted);
}

#[test]
fn cancelled_probe_ends_without_an_observation() {
    let cfg = config(5, 25);
    let (state, action) = cancel(PollerState::Polling { attempt_count: 2 });
    assert_eq!(state, PollerState::Cancelled);
    assert_eq!(action, PollerAction::Stop);
    assert!(state.ended());
    assert_eq!(state.outcome(), None);
    for outcome in [ProbeOutcome::Missing, ProbeOutcome::Visible { now_ms: 9 }] {
        assert_eq!(step(&cfg, 0, state, outcome), (PollerState::Cancelled, PollerAction::Stop));
    }
    assert_eq!(cancel(PollerState::initial()).0, PollerState::Cancelled);
}

#[test]
fn cancelling_an_ended_probe_changes_nothing() {
    for state in [PollerState::Found, PollerState::Exhausted, PollerState::Cancelled] {
        assert_eq!(cancel(state), (state, PollerAction::Stop));
    }
}

#[test]
fn lag_after_paced_queries_lies_between_the_bounds() {
    // Three sleeps of 10 ms, each overrunning by at most 42 ms, as does the
    // first query: the lag is at least 30 ms and at most 30 + 4 * 42 ms.
    let cfg = config(100, 10);
    let origin: i64 = 1_000;
    for overrun in [0i64, 1, 17, 42] {
        let mut now = origin + overrun;
        let mut outcomes = Vec::new();
        for _ in 0..3 {
            outcomes.push(ProbeOutcome::Missing);
            now += 10 + overrun;
        }
        outcomes.push(ProbeOutcome::Visible { now_ms: now });
        let report = replay(&cfg, origin, &outcomes);
        assert_eq!(report.state, PollerState::Found);
        assert_eq!(report.observations.len(), 1);
        let lag = report.observations[0];
        assert_eq!(lag, (30 + 4 * overrun) as i128);
        assert!(lag >= 30 && lag <= 200);
    }
}
