use std::collections::VecDeque;

use netbird_hawk::calendar::LocalDate;
use netbird_hawk::daemon::{
    after_discovery, after_selection, begin_occurrence, choose_desired, handled_date,
    last_result_text, matching_journal, retry_at, runtime_snapshot, stop_requested,
    stopped_snapshot, worker_start, Discovery, RotationStep, RuntimePublication, WorkerState, MAX_ATTEMPTS,
};
use netbird_hawk::error::HawkError;
use netbird_hawk::model::{
    ControlIntent, DesiredConfig, DesiredRunState, ErrorCategory, ExecutionJournal, GenerationId,
    JournalOutcome, LifecycleState, LocalTime, SanitizedError, SCHEMA_VERSION,
};

fn now_ms() -> i64 {
    chrono::Utc::now().timestamp_millis()
}

struct FakeNetbird {
    statuses: VecDeque<Result<String, SanitizedError>>,
    selections: Vec<String>,
    selection_results: VecDeque<Result<(), SanitizedError>>,
}

impl FakeNetbird {
    fn new(statuses: &[&str], selection_results: Vec<Result<(), SanitizedError>>) -> Self {
        Self {
            statuses: statuses.iter().map(|value| Ok((*value).to_owned())).collect(),
            selections: Vec::new(),
            selection_results: selection_results.into(),
        }
    }
}

/// One occurrence step, with the journal held in memory.
fn run_occurrence_step(
    journal: &mut Option<ExecutionJournal>,
    config: &DesiredConfig,
    api: &mut FakeNetbird,
    date: LocalDate,
    now: i64,
) -> RotationStep {
    let existing = matching_journal(journal.as_ref().map(|j| j.duplicate()), config.generation, date);
    if let Some(step) = begin_occurrence(&existing, now) {
        return step;
    }
    let status = api.statuses.pop_front().unwrap();
    match after_discovery(existing, config, date, now, status).unwrap() {
        Discovery::Finished { journal: entry, step } => {
            *journal = Some(entry);
            step
        }
        Discovery::Select { journal: entry, write_first, target, current } => {
            if write_first {
                *journal = Some(entry.duplicate());
            }
            api.selections.push(target.clone());
            let result = api.selection_results.pop_front().unwrap_or(Ok(()));
            let (entry, step) = after_selection(entry, target, current, now, result);
            *journal = Some(entry);
            step
        }
    }
}

fn config() -> DesiredConfig {
    DesiredConfig {
        schema_version: SCHEMA_VERSION,
        generation: GenerationId::new(),
        profiles: vec!["alpha".into(), "beta".into(), "gamma".into()],
        local_time: "08:00".parse::<LocalTime>().unwrap(),
        netbird_executable: "/usr/local/bin/netbird".to_owned(),
        activated_at: now_ms() - 2 * 86_400_000,
    }
}

fn failure() -> SanitizedError {
    SanitizedError {
        category: ErrorCategory::CommandFailed,
        message: "NetBird profile selection failed".into(),
        exit_code: Some(1),
        timed_out: false,
    }
}

fn today() -> LocalDate {
    LocalDate::from_ymd(2025, 1, 10).unwrap()
}

fn in_progress(config: &DesiredConfig, date: LocalDate) -> ExecutionJournal {
    ExecutionJournal {
        schema_version: SCHEMA_VERSION,
        generation: config.generation,
        local_date: date,
        original_profile: Some("alpha".into()),
        intended_target: Some("beta".into()),
        attempts: 1,
        outcome: JournalOutcome::InProgress,
        next_retry_at: None,
        last_error: Some(failure()),
        updated_at: now_ms(),
    }
}

#[test]
fn daily_selection_uses_manual_active_profile() {
    let config = config();
    let mut journal = None;
    let mut api = FakeNetbird::new(&["beta"], vec![Ok(())]);
    let step = run_occurrence_step(&mut journal, &config, &mut api, today(), now_ms());
    assert_eq!(step.outcome, JournalOutcome::Success);
    assert_eq!(&api.selections, &["gamma"]);
}

#[test]
fn crash_window_reconciles_target_without_duplicate_selection() {
    let config = config();
    let date = today();
    let mut journal = Some(in_progress(&config, date));
    let mut api = FakeNetbird::new(&["beta"], vec![]);
    let step = run_occurrence_step(&mut journal, &config, &mut api, date, now_ms());
    assert_eq!(step.outcome, JournalOutcome::Success);
    assert!(api.selections.is_empty());
}

#[test]
fn retry_uses_same_target_and_manual_third_profile_supersedes_it() {
    let config = config();
    let date = today();
    let mut journal = None;
    let first_time = now_ms();
    let mut first_api = FakeNetbird::new(&["alpha"], vec![Err(failure())]);
    let first = run_occurrence_step(&mut journal, &config, &mut first_api, date, first_time);
    assert_eq!(first.outcome, JournalOutcome::InProgress);

    let mut retry_api = FakeNetbird::new(&["alpha"], vec![Ok(())]);
    let retry = run_occurrence_step(&mut journal, &config, &mut retry_api, date, first_time + 6_000);
    assert_eq!(retry.outcome, JournalOutcome::Success);
    assert_eq!(&retry_api.selections, &["beta"]);

    let next_date = date.succ().unwrap();
    let mut manual_api = FakeNetbird::new(&["alpha"], vec![Err(failure())]);
    run_occurrence_step(&mut journal, &config, &mut manual_api, next_date, now_ms());
    let mut superseding_api = FakeNetbird::new(&["manual"], vec![]);
    let superseded = run_occurrence_step(
        &mut journal,
        &config,
        &mut superseding_api,
        next_date,
        now_ms() + 6_000,
    );
    assert_eq!(superseded.outcome, JournalOutcome::Superseded);
    assert!(superseding_api.selections.is_empty());
}

#[test]
fn retries_are_bounded_and_raw_secrets_never_reach_state() {
    let config = config();
    let date = today();
    let mut journal = None;
    let mut api = FakeNetbird::new(
        &["alpha", "alpha", "alpha"],
        vec![Err(failure()), Err(failure()), Err(failure())],
    );
    let mut now = now_ms();
    for delay in [0, 6, 31] {
        now += delay * 1000;
        run_occurrence_step(&mut journal, &config, &mut api, date, now);
    }
    let journal = journal.unwrap();
    assert_eq!(journal.outcome, JournalOutcome::Failed);
    assert_eq!(api.selections.len(), MAX_ATTEMPTS as usize);
    let persisted = format!("{:?}", journal);
    assert!(!persisted.contains("token="));
    assert!(!persisted.contains("Authorization"));
}

#[test]
fn a_new_generation_cannot_execute_a_stale_retry_target() {
    let old = config();
    let date = today();
    let mut journal = Some(in_progress(&old, date));
    let mut replacement = config();
    replacement.profiles = vec!["alpha".into(), "gamma".into()];
    let mut api = FakeNetbird::new(&["alpha"], vec![Ok(())]);
    let step = run_occurrence_step(&mut journal, &replacement, &mut api, date, now_ms());
    assert_eq!(step.outcome, JournalOutcome::Success);
    assert_eq!(&api.selections, &["gamma"]);
}

#[test]
fn a_terminal_occurrence_is_not_selected_twice() {
    let config = config();
    let date = today();
    let mut journal = None;
    let mut api = FakeNetbird::new(&["alpha"], vec![Ok(())]);
    run_occurrence_step(&mut journal, &config, &mut api, date, now_ms());
    run_occurrence_step(&mut journal, &config, &mut api, date, now_ms() + 3_600_000);
    assert_eq!(api.selections.len(), 1);
}

#[test]
fn status_discovery_failure_recovers_on_a_bounded_retry() {
    let config = config();
    let date = today();
    let mut journal = None;
    let first_time = now_ms();
    let mut api = FakeNetbird {
        statuses: vec![Err(SanitizedError::timed_out("status")), Ok("alpha".into())].into(),
        selections: Vec::new(),
        selection_results: vec![Ok(())].into(),
    };
    let first = run_occurrence_step(&mut journal, &config, &mut api, date, first_time);
    assert_eq!(first.outcome, JournalOutcome::PendingDiscovery);
    let recovered = run_occurrence_step(&mut journal, &config, &mut api, date, first_time + 6_000);
    assert_eq!(recovered.outcome, JournalOutcome::Success);
    assert_eq!(&api.selections, &["beta"]);
}

#[test]
fn a_pending_retry_waits_for_its_time() {
    let config = config();
    let date = today();
    let mut journal = None;
    let start = now_ms();
    let mut api = FakeNetbird::new(&["alpha", "alpha"], vec![Err(failure()), Ok(())]);
    run_occurrence_step(&mut journal, &config, &mut api, date, start);
    assert_eq!(journal.as_ref().unwrap().next_retry_at, Some(start + 5_000));
    let waiting = run_occurrence_step(&mut journal, &config, &mut api, date, start + 4_000);
    assert_eq!(waiting.outcome, JournalOutcome::InProgress);
    assert_eq!(api.selections.len(), 1);
    assert!(waiting.error.is_some());
}

#[test]
fn discovery_failures_fail_after_the_attempt_limit() {
    let config = config();
    let date = today();
    let mut journal = None;
    let mut api = FakeNetbird {
        statuses: vec![
            Err(SanitizedError::timed_out("status")),
            Err(SanitizedError::timed_out("status")),
            Err(SanitizedError::timed_out("status")),
        ]
        .into(),
        selections: Vec::new(),
        selection_results: VecDeque::new(),
    };
    let mut now = now_ms();
    let mut outcomes = Vec::new();
    for _ in 0..3 {
        outcomes.push(run_occurrence_step(&mut journal, &config, &mut api, date, now).outcome);
        now += 200_000;
    }
    assert_eq!(
        outcomes,
        [JournalOutcome::PendingDiscovery, JournalOutcome::PendingDiscovery, JournalOutcome::Failed]
    );
    assert!(api.selections.is_empty());
    assert_eq!(journal.unwrap().next_retry_at, None);
}

#[test]
fn retry_delays_grow_then_stop_at_terminal_outcomes() {
    assert_eq!(retry_at(0, 1, JournalOutcome::InProgress), Some(5_000));
    assert_eq!(retry_at(0, 2, JournalOutcome::InProgress), Some(30_000));
    assert_eq!(retry_at(0, 3, JournalOutcome::PendingDiscovery), Some(120_000));
    assert_eq!(retry_at(0, 0, JournalOutcome::PendingDiscovery), Some(5_000));
    assert_eq!(retry_at(0, 3, JournalOutcome::Failed), None);
}

#[test]
fn handled_dates_and_last_results_belong_to_the_current_generation() {
    let config = config();
    let mut entry = in_progress(&config, today());
    assert_eq!(handled_date(&Some(entry.duplicate()), config.generation), None);
    entry.outcome = JournalOutcome::Success;
    assert_eq!(handled_date(&Some(entry.duplicate()), config.generation), Some(today()));
    assert_eq!(handled_date(&Some(entry.duplicate()), GenerationId::new()), None);
    assert_eq!(
        last_result_text(&Some(entry.duplicate()), config.generation).unwrap(),
        "2025-01-10: success"
    );
    entry.outcome = JournalOutcome::PendingDiscovery;
    assert_eq!(
        last_result_text(&Some(entry), config.generation).unwrap(),
        "2025-01-10: pendingdiscovery"
    );
}

#[test]
fn only_a_matching_control_intent_swaps_the_configuration() {
    let running = config();
    let replacement = config();
    let matching = Some(ControlIntent {
        schema_version: SCHEMA_VERSION,
        desired: DesiredRunState::Running,
        generation: Some(replacement.generation),
        requested_at: 0,
    });
    assert_eq!(
        choose_desired(&matching, replacement.duplicate(), &running).generation,
        replacement.generation
    );
    assert_eq!(
        choose_desired(&None, replacement.duplicate(), &running).generation,
        running.generation
    );
    assert!(!stop_requested(&matching));
    let stopping = Some(ControlIntent {
        schema_version: SCHEMA_VERSION,
        desired: DesiredRunState::Stopped,
        generation: None,
        requested_at: 0,
    });
    assert!(stop_requested(&stopping));
}

#[test]
fn worker_publishes_degraded_state_until_the_profile_is_known() {
    let config = config();
    let (state, publication) = WorkerState::start(config.duplicate(), Err(SanitizedError::timed_out("status")));
    assert_eq!(publication.state, LifecycleState::Degraded);
    assert_eq!(publication.applied_generation, None);
    assert_eq!(state.needs_rediscovery(&config), (false, true));
    let (state, publication, restore) =
        state.after_rediscovery(config.duplicate(), false, Ok("beta".into()));
    assert!(publication.is_none());
    assert!(restore.is_none());
    assert_eq!(state.active_profile.as_deref(), Some("beta"));
    let snapshot = runtime_snapshot(
        &config,
        state.tick_publication(None, &None, "2025-01-11T08:00:00-05:00".into()),
        42,
        0,
    );
    assert_eq!(snapshot.state, LifecycleState::Running);
    assert_eq!(snapshot.next_profile.as_deref(), Some("gamma"));
    assert_eq!(snapshot.pid, Some(42));
    let stopped = stopped_snapshot(Some(&config));
    assert_eq!(stopped.state, LifecycleState::Stopped);
    assert_eq!(stopped.applied_generation, Some(config.generation));
    let publication = RuntimePublication {
        state: LifecycleState::Running,
        applied_generation: None,
        active_profile: Some("manual".into()),
        next_local_occurrence: None,
        last_result: None,
        last_error: None,
    };
    assert_eq!(runtime_snapshot(&config, publication, 1, 0).next_profile.as_deref(), Some("alpha"));
}

fn intent(desired: DesiredRunState, generation: GenerationId) -> ControlIntent {
    ControlIntent {
        schema_version: SCHEMA_VERSION,
        desired,
        generation: Some(generation),
        requested_at: now_ms(),
    }
}

#[test]
fn a_worker_runs_only_the_generation_its_control_intent_names() {
    let config = config();
    let running = || intent(DesiredRunState::Running, config.generation);
    let started = worker_start(Some(config.duplicate()), &Some(running())).ok().unwrap();
    assert_eq!(started.generation, config.generation);

    match worker_start(None, &Some(running())) {
        Err(refusal) => {
            assert!(refusal.config.is_none());
            assert!(matches!(refusal.error, HawkError::Validation(m) if m == "the daemon has no desired configuration"));
        }
        Ok(_) => panic!("expected a refusal"),
    }
    match worker_start(Some(config.duplicate()), &None) {
        Err(refusal) => {
            assert!(refusal.config.is_none());
            assert!(matches!(refusal.error, HawkError::Validation(m) if m == "the daemon has no control intent"));
        }
        Ok(_) => panic!("expected a refusal"),
    }
    let other = intent(DesiredRunState::Running, GenerationId::new());
    match worker_start(Some(config.duplicate()), &Some(other)) {
        Err(refusal) => {
            assert_eq!(refusal.config.unwrap().generation, config.generation);
            assert!(matches!(refusal.error, HawkError::Validation(m) if m.contains("do not name the same generation")));
        }
        Ok(_) => panic!("expected a refusal"),
    }
    let stopping = intent(DesiredRunState::Stopped, config.generation);
    assert!(worker_start(Some(config.duplicate()), &Some(stopping)).is_err());
}

#[test]
fn a_failed_rediscovery_switches_back_to_the_running_executable() {
    let running = config();
    let mut desired = config();
    desired.netbird_executable = "/opt/netbird/bin/netbird".to_owned();
    let (state, _) = WorkerState::start(running.duplicate(), Ok("alpha".into()));
    assert_eq!(
        state.rediscovery_executable(&desired).as_deref(),
        Some("/opt/netbird/bin/netbird")
    );
    assert!(state.rediscovery_executable(&running).is_none());
    let (state, publication, restore) =
        state.after_rediscovery(desired, true, Err(SanitizedError::timed_out("status")));
    assert_eq!(restore.as_deref(), Some("/usr/local/bin/netbird"));
    assert_eq!(publication.unwrap().state, LifecycleState::Degraded);
    assert_eq!(state.config.generation, running.generation);
}
