use netbird_hawk::controller::{
    acknowledges, after_preflight, launch_plan, start_records, ready_progress, stop_progress, check_start, format_snapshot, ready_timeout_error, start_message,
    LifecycleController, RuntimeRead,
};
use netbird_hawk::error::HawkError;
use netbird_hawk::model::{GenerationId, LifecycleState, RuntimeSnapshot, SanitizedError};
use netbird_hawk::platform::DetachedProcessLauncher;
use netbird_hawk::state::{AppPaths, ProjectLocations, StateStore};

fn root() -> String {
    "/tmp/netbird-hawk-root".to_owned()
}

fn controller() -> LifecycleController<DetachedProcessLauncher> {
    LifecycleController::new(StateStore::under(&root()), DetachedProcessLauncher)
}

#[test]
fn stopped_status_ignores_stale_pid_metadata() {
    let mut stale = RuntimeSnapshot::stopped();
    stale.state = LifecycleState::Running;
    stale.pid = Some(1234);
    assert_eq!(controller().status(false, &RuntimeRead::Found(stale)), "state: stopped");
}

#[test]
fn live_but_unreadable_runtime_is_reported_as_degraded() {
    assert!(controller()
        .status(true, &RuntimeRead::Unreadable)
        .contains("state: degraded"));
    assert_eq!(
        controller().status(true, &RuntimeRead::Missing),
        "state: degraded\ndetails: runtime snapshot is unavailable"
    );
}

#[test]
fn live_status_lists_the_snapshot_fields_in_order() {
    let mut snapshot = RuntimeSnapshot::stopped();
    snapshot.state = LifecycleState::Running;
    snapshot.pid = Some(7);
    snapshot.profiles = vec!["alpha".into(), "beta".into()];
    snapshot.local_time = Some("8:24".parse().unwrap());
    snapshot.active_profile = Some("alpha".into());
    snapshot.next_profile = Some("beta".into());
    snapshot.last_error = Some(SanitizedError::timed_out("status"));
    assert_eq!(
        controller().status(true, &RuntimeRead::Found(snapshot)),
        "state: running\nprofiles: alpha -> beta\ntime: 08:24 local\nactive profile: alpha\nnext profile: beta\nlast error: NetBird status timed out"
    );
    let mut bare = RuntimeSnapshot::stopped();
    bare.state = LifecycleState::Running;
    assert!(format_snapshot(&bare).starts_with("state: running"));
    assert_eq!(format_snapshot(&bare), "state: running");
}

#[test]
fn start_checks_profiles_then_the_executable() {
    let absolute = "/usr/local/bin/netbird".to_owned();
    assert!(check_start(&vec!["alpha".into()], &absolute).is_ok());
    match check_start(&vec!["alpha".into()], "netbird") {
        Err(HawkError::Validation(message)) => assert_eq!(
            message,
            "NetBird executable discovery did not return an absolute path"
        ),
        _ => panic!("expected a validation error"),
    }
    match check_start(&vec!["alpha".into(), "alpha".into()], "netbird") {
        Err(HawkError::Validation(message)) => assert!(message.contains("duplicated")),
        _ => panic!("expected a validation error"),
    }
}

#[test]
fn start_messages_and_acknowledgement() {
    let generation = GenerationId::new();
    let message = start_message(
        false,
        generation,
        &vec!["alpha".into(), "beta".into()],
        "8:24".parse().unwrap(),
    );
    assert_eq!(
        message,
        format!(
            "daemon started with generation {}\nprofiles: alpha -> beta\ntime: 08:24 local",
            generation.to_text()
        )
    );
    assert!(start_message(true, generation, &vec!["alpha".into()], "8:24".parse().unwrap())
        .starts_with("daemon reconfigured to"));
    let mut snapshot = RuntimeSnapshot::stopped();
    snapshot.applied_generation = Some(generation);
    assert!(!acknowledges(&snapshot, generation));
    snapshot.state = LifecycleState::Running;
    assert!(acknowledges(&snapshot, generation));
    match ready_timeout_error(Some(generation), Some(generation)) {
        HawkError::AcknowledgementTimeout { guidance, .. } => {
            assert!(guidance.starts_with("the daemon still reports its previous generation"))
        }
        _ => panic!("expected a timeout"),
    }
}

#[test]
fn controller_defaults_and_timeouts() {
    let controller = controller().with_timeouts(20, 2);
    assert_eq!(controller.acknowledgement_timeout_ms(), 20);
    assert_eq!(controller.poll_interval_ms(), 2);
    assert_eq!(LifecycleController::new(StateStore::under(&root()), DetachedProcessLauncher).acknowledgement_timeout_ms(), 12000);
}

#[test]
fn paths_follow_the_home_override_or_the_platform() {
    let home = root();
    let store = StateStore::under(&home);
    assert!(store.config_path().ends_with("config.json"));
    assert!(store.control_path().starts_with(&store.paths().state_dir));
    assert_eq!(
        store.runtime_path(),
        std::path::Path::new(&home).join("state").join("runtime.json").to_string_lossy()
    );
    assert!(matches!(
        AppPaths::from_locations(Some("relative".into()), None),
        Err(HawkError::Validation(_))
    ));
    assert!(matches!(
        AppPaths::from_locations(None, None),
        Err(HawkError::StateDirectoryUnavailable)
    ));
    let paths = AppPaths::from_locations(
        None,
        Some(ProjectLocations {
            config_dir: "/c".into(),
            state_dir: None,
            data_local_dir: "/d".into(),
        }),
    )
    .unwrap();
    assert_eq!(paths.state_dir, "/d");
    assert_eq!(paths.log_dir, "/d/logs");
}

#[test]
fn stop_reports_follow_the_lifetime_lock_and_the_deadline() {
    assert_eq!(
        stop_progress(false, false, false).unwrap().unwrap(),
        "daemon is already stopped"
    );
    assert_eq!(stop_progress(false, true, true).unwrap().unwrap(), "daemon stopped");
    assert!(stop_progress(true, true, false).is_none());
    assert!(stop_progress(true, false, false).is_none());
    match stop_progress(true, true, true) {
        Some(Err(HawkError::AcknowledgementTimeout { operation, guidance })) => {
            assert_eq!(operation, "shutdown acknowledgement");
            assert!(guidance.contains("not killed from PID metadata"));
        }
        _ => panic!("expected the shutdown timeout"),
    }
}

#[test]
fn a_worker_is_launched_only_when_no_daemon_is_live() {
    let profiles = vec!["alpha".to_owned(), "beta".to_owned()];
    let time = "8:24".parse().unwrap();
    assert!(launch_plan(true, &profiles, time, "alpha".into(), 5).is_none());
    let snapshot = launch_plan(false, &profiles, time, "alpha".into(), 5).unwrap();
    assert_eq!(snapshot.state, LifecycleState::Starting);
    assert_eq!(snapshot.active_profile.as_deref(), Some("alpha"));
    assert_eq!(snapshot.profiles, profiles);
    assert!(snapshot.applied_generation.is_none());
    assert_eq!(snapshot.updated_at, 5);
}

#[test]
fn readiness_waits_for_the_running_generation_until_the_deadline() {
    let generation = GenerationId::new();
    let previous = GenerationId::new();
    let mut running = RuntimeSnapshot::stopped();
    running.state = LifecycleState::Running;
    running.applied_generation = Some(generation);
    assert!(matches!(ready_progress(&Some(running), generation, Some(previous), true), Some(Ok(()))));

    let mut old = RuntimeSnapshot::stopped();
    old.state = LifecycleState::Running;
    old.applied_generation = Some(previous);
    assert!(ready_progress(&Some(old), generation, Some(previous), false).is_none());
    let mut old = RuntimeSnapshot::stopped();
    old.state = LifecycleState::Running;
    old.applied_generation = Some(previous);
    match ready_progress(&Some(old), generation, Some(previous), true) {
        Some(Err(HawkError::AcknowledgementTimeout { operation, guidance })) => {
            assert_eq!(operation, "ready acknowledgement");
            assert_eq!(
                guidance,
                format!("the daemon still reports its previous generation {}", previous.to_text())
            );
        }
        _ => panic!("expected the ready timeout"),
    }
    match ready_progress(&None, generation, None, true) {
        Some(Err(HawkError::AcknowledgementTimeout { guidance, .. })) => assert_eq!(
            guidance,
            "no ready generation was published; inspect the per-user log and retry"
        ),
        _ => panic!("expected the ready timeout"),
    }
}

#[test]
fn records_are_made_only_from_a_successful_preflight() {
    match after_preflight(Err(SanitizedError::timed_out("status"))) {
        Err(HawkError::NetbirdTimeout { operation }) => assert_eq!(operation, "command"),
        _ => panic!("expected the preflight timeout"),
    }
    let profile = after_preflight(Ok("alpha".into())).unwrap();
    let generation = GenerationId::new();
    let profiles = vec!["alpha".to_owned(), "beta".to_owned()];
    let time = "9:05".parse().unwrap();
    let records = start_records(
        profile,
        false,
        generation,
        &profiles,
        time,
        "/usr/local/bin/netbird".into(),
        7,
    );
    assert_eq!(records.config.generation, generation);
    assert_eq!(records.config.profiles, profiles);
    assert_eq!(records.config.activated_at, 7);
    assert_eq!(records.control.generation, Some(generation));
    let starting = records.starting.unwrap();
    assert_eq!(starting.active_profile.as_deref(), Some("alpha"));
    assert_eq!(starting.state, LifecycleState::Starting);
    let live = start_records(
        "alpha".into(),
        true,
        generation,
        &profiles,
        time,
        "/usr/local/bin/netbird".into(),
        7,
    );
    assert!(live.starting.is_none());
}
