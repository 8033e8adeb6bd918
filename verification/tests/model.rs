use netbird_hawk::error::HawkError;
use netbird_hawk::model::{
    ensure_version, validate_profiles, ControlIntent, DesiredConfig, DesiredRunState, ErrorCategory,
    ExecutionJournal, GenerationId, JournalOutcome, LifecycleState, LocalTime, RuntimeSnapshot,
    SanitizedError, SCHEMA_VERSION,
};
use netbird_hawk::calendar::LocalDate;

fn strings(values: &[&str]) -> Vec<String> {
    values.iter().map(|value| value.to_string()).collect()
}

#[test]
fn parses_and_normalizes_local_time() {
    let time: LocalTime = "8:24".parse().unwrap();
    assert_eq!(time.to_text(), "08:24");
    assert_eq!(serde_json::to_string(&time.to_text()).unwrap(), "\"08:24\"");
}

#[test]
fn rejects_invalid_local_times() {
    for value in ["", "8", "8:2", "008:02", "24:00", "12:60", "-1:00"] {
        assert!(value.parse::<LocalTime>().is_err(), "accepted {value}");
    }
}

#[test]
fn preserves_order_and_rejects_duplicates_or_empty_profiles() {
    assert!(validate_profiles(&["alpha".into(), "beta".into()]).is_ok());
    assert!(validate_profiles(&["alpha".into(), "alpha".into()]).is_err());
    assert!(validate_profiles(&[" ".into()]).is_err());
}

#[test]
fn duplicate_and_empty_profiles_fail_domain_validation() {
    for profiles in [vec!["alpha", "alpha"], vec![""]] {
        assert!(validate_profiles(&strings(&profiles)).is_err());
    }
}

fn validation_message(result: Result<(), HawkError>) -> String {
    match result {
        Err(HawkError::Validation(message)) => message,
        _ => panic!("expected a validation error"),
    }
}

#[test]
fn profile_validation_reports_the_first_problem_in_order() {
    assert_eq!(validation_message(validate_profiles(&[])), "at least one profile is required");
    assert_eq!(
        validation_message(validate_profiles(&strings(&["alpha", "\t\u{3000}"]))),
        "profile names must not be empty"
    );
    assert_eq!(
        validation_message(validate_profiles(&strings(&["al\u{7}pha"]))),
        "profile names must not contain control characters"
    );
    assert_eq!(
        validation_message(validate_profiles(&strings(&["beta", "alpha", "beta", ""]))),
        "profile \"beta\" is duplicated; profiles must be unique"
    );
    assert!(validate_profiles(&strings(&["work profile", "default"])).is_ok());
}

#[test]
fn local_time_edges() {
    let time = LocalTime::parse("23:59").unwrap();
    assert_eq!((time.hour(), time.minute()), (23, 59));
    assert_eq!(LocalTime::parse("0:00").unwrap().to_text(), "00:00");
    assert_eq!(LocalTime::parse("07:05").unwrap().to_text(), "07:05");
    assert_eq!(
        LocalTime::parse("24:00").unwrap_err(),
        "time must be between 00:00 and 23:59"
    );
    assert_eq!(
        LocalTime::parse("1:2:3").unwrap_err(),
        "time must use H:MM or HH:MM 24-hour format"
    );
    assert_eq!(
        LocalTime::parse("١:٢٣").unwrap_err(),
        "time must use H:MM or HH:MM 24-hour format"
    );
    assert!(LocalTime::new(24, 0).is_none());
    assert_eq!(LocalTime::new(8, 0), Some(LocalTime::parse("8:00").unwrap()));
}

#[test]
fn versions_other_than_the_current_schema_are_rejected() {
    assert!(ensure_version("control intent", SCHEMA_VERSION).is_ok());
    match ensure_version("control intent", 99) {
        Err(HawkError::UnsupportedVersion { record, found, expected }) => {
            assert_eq!(record, "control intent");
            assert_eq!((found, expected), (99, 1));
        }
        _ => panic!("expected an unsupported version"),
    }
    let intent = ControlIntent {
        schema_version: 2,
        desired: DesiredRunState::Stopped,
        generation: None,
        requested_at: 0,
    };
    assert!(intent.validate().is_err());
}

#[test]
fn sanitized_error_constructors_use_fixed_messages() {
    let failed = SanitizedError::command_failed("status", Some(7));
    assert_eq!(failed.category, ErrorCategory::CommandFailed);
    assert_eq!(failed.message, "NetBird status failed");
    assert_eq!(failed.exit_code, Some(7));
    assert!(!failed.timed_out);
    let timed_out = SanitizedError::timed_out("profile selection");
    assert_eq!(timed_out.message, "NetBird profile selection timed out");
    assert!(timed_out.timed_out);
    let malformed = SanitizedError::malformed_status("the Profile field was missing".into());
    assert_eq!(malformed.category, ErrorCategory::MalformedStatus);
    assert_eq!(malformed.message, "the Profile field was missing");
}

#[test]
fn terminal_outcomes() {
    assert!(JournalOutcome::Success.is_terminal());
    assert!(JournalOutcome::Superseded.is_terminal());
    assert!(JournalOutcome::Failed.is_terminal());
    assert!(!JournalOutcome::InProgress.is_terminal());
    assert!(!JournalOutcome::PendingDiscovery.is_terminal());
}

#[test]
fn in_progress_journal_requires_both_profiles() {
    let journal = ExecutionJournal {
        schema_version: SCHEMA_VERSION,
        generation: GenerationId::new(),
        local_date: LocalDate::from_ymd(2025, 1, 1).unwrap(),
        original_profile: Some("alpha".into()),
        intended_target: None,
        attempts: 0,
        outcome: JournalOutcome::InProgress,
        next_retry_at: None,
        last_error: None,
        updated_at: 0,
    };
    assert_eq!(
        validation_message(journal.validate()),
        "an in-progress journal requires original and target profiles"
    );
    let mut complete = journal.duplicate();
    complete.intended_target = Some("beta".into());
    assert!(complete.validate().is_ok());
}

#[test]
fn desired_configuration_checks_version_profiles_and_executable() {
    let config = DesiredConfig {
        schema_version: SCHEMA_VERSION,
        generation: GenerationId::new(),
        profiles: strings(&["alpha"]),
        local_time: LocalTime::parse("08:00").unwrap(),
        netbird_executable: "relative/netbird".into(),
        activated_at: 0,
    };
    assert_eq!(
        validation_message(config.validate()),
        "the saved NetBird executable path must be absolute"
    );
    let mut absolute = config.duplicate();
    absolute.netbird_executable = "/usr/local/bin/netbird".to_owned();
    assert!(absolute.validate().is_ok());
    absolute.profiles = Vec::new();
    assert!(absolute.validate().is_err());
}

#[test]
fn generation_ids_are_version_four_uuids() {
    let generation = GenerationId::new();
    let text = generation.to_text();
    assert_eq!(text.len(), 36);
    assert_eq!(text.as_bytes()[14], b'4');
    assert_ne!(GenerationId::new(), generation);
    assert!(matches!(text.as_bytes()[19], b'8' | b'9' | b'a' | b'b'));
    assert_eq!(
        GenerationId(0x67e5_5044_10b1_426f_9247_bb68_0e5f_e0c8).to_text(),
        "67e55044-10b1-426f-9247-bb680e5fe0c8"
    );
}

#[test]
fn stopped_snapshot_is_empty() {
    let snapshot = RuntimeSnapshot::stopped();
    assert_eq!(snapshot.state, LifecycleState::Stopped);
    assert!(snapshot.validate().is_ok());
    assert!(snapshot.profiles.is_empty());
    assert_eq!(LifecycleState::Degraded.label(), "degraded");
}
