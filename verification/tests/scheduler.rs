use chrono::{Datelike, TimeZone, Utc};
use chrono_tz::America::New_York;
use netbird_hawk::calendar::{LocalDate, LocalLookup, Zone};
use netbird_hawk::model::LocalTime;
use netbird_hawk::scheduler::{
    circular_successor, latest_due_date, next_occurrence, qualifies, resolution_step, resolve_occurrence,
    LocalInstant, Resolution,
};

fn profiles() -> Vec<String> {
    ["alpha", "beta", "gamma"]
        .into_iter()
        .map(str::to_owned)
        .collect()
}

fn new_york() -> Zone {
    Zone::Named("America/New_York".to_owned())
}

fn date(year: i32, month: u32, day: u32) -> LocalDate {
    LocalDate::from_ymd(year, month, day).unwrap()
}

fn at(year: i32, month: u32, day: u32, hour: u32, minute: u32, second: u32) -> LocalInstant {
    let value = New_York
        .with_ymd_and_hms(year, month, day, hour, minute, second)
        .unwrap();
    LocalInstant {
        utc_ms: value.timestamp_millis(),
        date: LocalDate::from_days(value.date_naive().num_days_from_ce()).unwrap(),
    }
}

fn new_york_date_of(ms: i64) -> LocalDate {
    let value = Utc.timestamp_millis_opt(ms).unwrap().with_timezone(&New_York);
    LocalDate::from_days(value.date_naive().num_days_from_ce()).unwrap()
}

#[test]
fn selects_circular_successors() {
    let profiles = profiles();
    assert_eq!(circular_successor(&profiles, "beta"), Some("gamma"));
    assert_eq!(circular_successor(&profiles, "gamma"), Some("alpha"));
    assert_eq!(circular_successor(&profiles, "manual"), Some("alpha"));
    assert_eq!(circular_successor(&profiles[..1], "manual"), Some("alpha"));
    assert_eq!(circular_successor(&[], "manual"), None);
}

#[test]
fn rotation_through_the_list_returns_to_the_start() {
    let profiles = profiles();
    let mut active = "alpha".to_owned();
    let mut seen = Vec::new();
    for _ in 0..profiles.len() {
        active = circular_successor(&profiles, &active).unwrap().to_owned();
        seen.push(active.clone());
    }
    assert_eq!(seen, ["beta", "gamma", "alpha"]);
    assert_eq!(circular_successor(&profiles[..1], "alpha"), Some("alpha"));
}

#[test]
fn activation_after_today_schedules_tomorrow() {
    let time: LocalTime = "08:00".parse().unwrap();
    let now = at(2025, 2, 4, 9, 0, 0);
    let next = next_occurrence(&new_york(), now, now.utc_ms, time, None).unwrap();
    assert_eq!(new_york_date_of(next), date(2025, 2, 5));
    assert_eq!(
        latest_due_date(&new_york(), now, now.utc_ms, time, None).unwrap(),
        None
    );
}

#[test]
fn spring_gap_uses_first_valid_instant() {
    let time: LocalTime = "02:30".parse().unwrap();
    let occurrence = resolve_occurrence(&new_york(), date(2025, 3, 9), time).unwrap();
    let local = Utc.timestamp_millis_opt(occurrence).unwrap().with_timezone(&New_York);
    assert_eq!(local.format("%H:%M").to_string(), "03:00");
}

#[test]
fn autumn_fold_uses_first_instant() {
    let time: LocalTime = "01:30".parse().unwrap();
    let occurrence = resolve_occurrence(&new_york(), date(2025, 11, 2), time).unwrap();
    let local = Utc.timestamp_millis_opt(occurrence).unwrap().with_timezone(&New_York);
    assert_eq!(local.offset().to_string(), "EDT");
}

#[test]
fn sleep_and_multi_day_downtime_yield_only_latest_due_date() {
    let time: LocalTime = "08:00".parse().unwrap();
    let activated = at(2025, 1, 1, 7, 0, 0);
    let now = at(2025, 1, 10, 9, 0, 0);
    let due = latest_due_date(&new_york(), now, activated.utc_ms, time, None).unwrap();
    assert_eq!(due, Some(date(2025, 1, 10)));
    assert_eq!(
        latest_due_date(&new_york(), now, activated.utc_ms, time, due).unwrap(),
        None
    );
}

#[test]
fn backward_clock_changes_do_not_replay_older_dates() {
    let time: LocalTime = "08:00".parse().unwrap();
    let activated = at(2025, 1, 1, 7, 0, 0);
    let now = at(2025, 1, 4, 9, 0, 0);
    let already_handled = date(2025, 1, 5);
    assert_eq!(
        latest_due_date(&new_york(), now, activated.utc_ms, time, Some(already_handled)).unwrap(),
        None
    );
    let next =
        next_occurrence(&new_york(), now, activated.utc_ms, time, Some(already_handled)).unwrap();
    assert_eq!(new_york_date_of(next), date(2025, 1, 6));
}

#[test]
fn timezone_change_recomputes_the_wall_clock_occurrence() {
    let time: LocalTime = "08:00".parse().unwrap();
    let new_york_now = New_York.with_ymd_and_hms(2025, 1, 4, 7, 0, 0).unwrap();
    let tokyo = chrono_tz::Asia::Tokyo;
    let tokyo_now = new_york_now.with_timezone(&tokyo);
    let activated_utc = Utc.with_ymd_and_hms(2025, 1, 1, 0, 0, 0).unwrap();
    let new_york_next = next_occurrence(
        &new_york(),
        LocalInstant {
            utc_ms: new_york_now.timestamp_millis(),
            date: LocalDate::from_days(new_york_now.date_naive().num_days_from_ce()).unwrap(),
        },
        activated_utc.timestamp_millis(),
        time,
        None,
    )
    .unwrap();
    let tokyo_next = next_occurrence(
        &Zone::Named("Asia/Tokyo".to_owned()),
        LocalInstant {
            utc_ms: tokyo_now.timestamp_millis(),
            date: LocalDate::from_days(tokyo_now.date_naive().num_days_from_ce()).unwrap(),
        },
        activated_utc.timestamp_millis(),
        time,
        None,
    )
    .unwrap();
    assert_ne!(new_york_next, tokyo_next);
}

#[test]
fn clock_change_recalculation_uses_current_wall_clock() {
    let time: LocalTime = "08:00".parse().unwrap();
    let activated = at(2025, 1, 1, 7, 0, 0);
    let before = at(2025, 1, 2, 7, 59, 0);
    let after = at(2025, 1, 2, 8, 1, 0);
    assert_eq!(
        latest_due_date(&new_york(), before, activated.utc_ms, time, None).unwrap(),
        Some(date(2025, 1, 1))
    );
    assert_eq!(
        latest_due_date(&new_york(), after, activated.utc_ms, time, None).unwrap(),
        Some(date(2025, 1, 2))
    );
}

#[test]
fn an_ordinary_occurrence_resolves_to_its_single_instant() {
    let time: LocalTime = "08:24".parse().unwrap();
    let occurrence = resolve_occurrence(&new_york(), date(2025, 6, 1), time).unwrap();
    assert_eq!(
        occurrence,
        New_York
            .with_ymd_and_hms(2025, 6, 1, 8, 24, 0)
            .unwrap()
            .timestamp_millis()
    );
    assert!(resolve_occurrence(&Zone::Named("Not/AZone".to_owned()), date(2025, 6, 1), time).is_none());
    assert!(resolve_occurrence(&Zone::Local, date(2025, 6, 1), time).is_some());
}

#[test]
fn the_next_occurrence_is_strictly_after_now_and_activation() {
    let time: LocalTime = "08:00".parse().unwrap();
    let now = at(2025, 1, 4, 8, 0, 0);
    let next = next_occurrence(&new_york(), now, now.utc_ms - 1000, time, None).unwrap();
    assert!(next > now.utc_ms);
    assert_eq!(new_york_date_of(next), date(2025, 1, 5));
}

#[test]
fn dates_step_by_one_day() {
    let day = date(2024, 2, 28);
    assert_eq!(day.succ().unwrap(), date(2024, 2, 29));
    assert_eq!(date(2025, 3, 1).pred().unwrap(), date(2025, 2, 28));
    assert_eq!(day.to_text(), "2024-02-28");
    assert!(LocalDate::from_ymd(2025, 2, 29).is_none());
    assert!(LocalDate::from_days(i32::MAX).is_none());
}

#[test]
fn each_resolution_step_takes_the_earliest_instant_or_the_next_minute() {
    let day = date(2025, 3, 9);
    assert!(matches!(
        resolution_step(LocalLookup::Single(42), day, 150),
        Resolution::Found(42)
    ));
    assert!(matches!(
        resolution_step(LocalLookup::Ambiguous(900, 100), day, 90),
        Resolution::Found(100)
    ));
    assert!(matches!(
        resolution_step(LocalLookup::Ambiguous(100, 900), day, 90),
        Resolution::Found(100)
    ));
    match resolution_step(LocalLookup::Gap, day, 150) {
        Resolution::Next(next_day, minute) => {
            assert_eq!(next_day, day);
            assert_eq!(minute, 151);
        }
        _ => panic!("expected the following minute"),
    }
    match resolution_step(LocalLookup::Gap, day, 1439) {
        Resolution::Next(next_day, minute) => {
            assert_eq!(next_day, date(2025, 3, 10));
            assert_eq!(minute, 0);
        }
        _ => panic!("expected midnight of the following date"),
    }
    let mut last = date(262_142, 1, 1);
    while let Some(next) = last.succ() {
        last = next;
    }
    assert!(matches!(
        resolution_step(LocalLookup::Gap, last, 1439),
        Resolution::Exhausted
    ));
}

#[test]
fn the_next_occurrence_after_a_handled_date_is_the_day_after() {
    let time: LocalTime = "08:00".parse().unwrap();
    let now = at(2025, 1, 4, 9, 0, 0);
    let next = next_occurrence(&new_york(), now, now.utc_ms, time, Some(date(2025, 1, 5))).unwrap();
    assert_eq!(new_york_date_of(next), date(2025, 1, 6));
}

#[test]
fn representable_dates_span_one_unbroken_range() {
    let first = LocalDate::from_days(-95_746_129).unwrap();
    assert_eq!(first, date(-262_143, 1, 1));
    assert!(LocalDate::from_days(-95_746_130).is_none());
    assert!(first.pred().is_none());
    let last = LocalDate::from_days(95_745_399).unwrap();
    assert_eq!(last, date(262_142, 12, 31));
    assert!(LocalDate::from_days(95_745_400).is_none());
    assert!(last.succ().is_none());
    assert_eq!(date(1, 1, 1).days(), 1);
}

#[test]
fn a_handled_date_never_qualifies_as_the_next_occurrence() {
    let day = date(2025, 1, 5);
    assert!(qualifies(day, 200, 100, 50, None));
    assert!(qualifies(day, 200, 100, 50, Some(date(2025, 1, 4))));
    assert!(!qualifies(day, 200, 100, 50, Some(day)));
    assert!(!qualifies(day, 200, 100, 50, Some(date(2025, 1, 6))));
    assert!(!qualifies(day, 100, 100, 50, None));
    assert!(!qualifies(day, 200, 100, 200, None));
}
