//! The daemon's decisions. One rotation occurrence is a small state machine: look at the
//! journal, discover the active profile, journal the intent, select, record the outcome.
//! The worker loop around it decides when to stop, which configuration applies, and what to
//! publish. The caller performs the reads, writes and NetBird commands in between.
use crate::calendar::{chrono_date_text, LocalDate};
use crate::error::{is_validation, validation_error, HawkError};
use crate::model::{
    clone_opt_error, journal_valid, outcome_terminal, same_config, ControlIntent, DesiredConfig, DesiredRunState,
    ExecutionJournal, GenerationId, JournalOutcome, LifecycleState, RuntimeSnapshot, SanitizedError,
    SCHEMA_VERSION,
};
use crate::scheduler::{
    circular_successor, lemma_seq_index_from, lemma_successor_is_listed, seq_index_from, successor_index,
};
use crate::text::{clone_opt_string, clone_strings, texts};
use vstd::prelude::*;

verus! {

pub const MAX_ATTEMPTS: u32 = 3;

/// The delay before retry number `attempts` (the first three attempts wait 5, 30 and 120
/// seconds; later ones 120), in milliseconds.
pub open spec fn retry_delay_ms(attempts: u32) -> int {
    if attempts <= 1 {
        5000
    } else if attempts == 2 {
        30000
    } else {
        120000
    }
}

/// When the occurrence is retried: never once its outcome is terminal.
pub open spec fn retry_time(now: i64, attempts: u32, outcome: JournalOutcome) -> Option<i64> {
    if outcome_terminal(outcome) {
        None
    } else {
        Some((now + retry_delay_ms(attempts)) as i64)
    }
}

pub fn retry_at(now: i64, attempts: u32, outcome: JournalOutcome) -> (r: Option<i64>)
    requires
        now <= i64::MAX - 120000,
    ensures
        r == retry_time(now, attempts, outcome),
{
    if outcome.is_terminal() {
        return None;
    }
    let delay: i64 = if attempts <= 1 {
        5000
    } else if attempts == 2 {
        30000
    } else {
        120000
    };
    Some(now + delay)
}

/// The outcome after a failed attempt: failed for good once the attempts reach the limit.
pub open spec fn outcome_after_failure(attempts: u32, pending: JournalOutcome) -> JournalOutcome {
    if attempts >= MAX_ATTEMPTS {
        JournalOutcome::Failed
    } else {
        pending
    }
}

/// What one occurrence step reports.
pub struct RotationStep {
    pub active_profile: Option<String>,
    pub outcome: JournalOutcome,
    pub error: Option<SanitizedError>,
}

/// The journal entry of `journal` when it belongs to this generation and date.
pub fn matching_journal(journal: Option<ExecutionJournal>, generation: GenerationId, date: LocalDate) -> (r: Option<
    ExecutionJournal,
>)
    ensures
        match journal {
            Some(j) => if j.generation == generation && j.local_date == date {
                r == Some(j)
            } else {
                r is None
            },
            None => r is None,
        },
{
    match journal {
        Some(j) => {
            if j.generation == generation && j.local_date == date {
                Some(j)
            } else {
                None
            }
        },
        None => None,
    }
}

/// A terminal occurrence is reported as it stands (its target is the active profile only
/// after success); a pending retry whose time has not come is reported without action.
pub open spec fn begin_spec(existing: Option<ExecutionJournal>, now: i64, step: Option<RotationStep>) -> bool {
    match existing {
        Some(e) => if outcome_terminal(e.outcome) {
            step matches Some(s) && s.outcome == e.outcome && s.error == e.last_error && (if e.outcome
                is Success {
                s.active_profile == e.intended_target
            } else {
                s.active_profile is None
            })
        } else if e.next_retry_at matches Some(t) && t > now {
            step matches Some(s) && s.outcome == e.outcome && s.error == e.last_error
                && s.active_profile is None
        } else {
            step is None
        },
        None => step is None,
    }
}

/// The first decision of an occurrence: finish at once (`Some`), or discover the active
/// profile (`None`).
pub fn begin_occurrence(existing: &Option<ExecutionJournal>, now: i64) -> (step: Option<RotationStep>)
    ensures
        begin_spec(*existing, now, step),
{
    match existing {
        Some(e) => {
            if e.outcome.is_terminal() {
                let active = match e.outcome {
                    JournalOutcome::Success => clone_opt_string(&e.intended_target),
                    _ => None,
                };
                return Some(
                    RotationStep { active_profile: active, outcome: e.outcome, error: clone_opt_error(&e.last_error) },
                );
            }
            match e.next_retry_at {
                Some(t) => {
                    if t > now {
                        return Some(
                            RotationStep {
                                active_profile: None,
                                outcome: e.outcome,
                                error: clone_opt_error(&e.last_error),
                            },
                        );
                    }
                },
                None => {},
            }
            None
        },
        None => None,
    }
}

/// After the active profile was discovered: record and finish, or select `target`.
pub enum Discovery {
    /// Write `journal`, then report `step`.
    Finished { journal: ExecutionJournal, step: RotationStep },
    /// Write `journal` first when `write_first`, then run `netbird profile select target`;
    /// `current` is the profile that was active.
    Select { journal: ExecutionJournal, write_first: bool, target: String, current: String },
}

/// `journal` completed with `outcome`: no retry, no error, stamped `now`.
pub open spec fn completed(journal: ExecutionJournal, outcome: JournalOutcome, now: i64) -> ExecutionJournal {
    ExecutionJournal { outcome, next_retry_at: None, last_error: None, updated_at: now, ..journal }
}

fn complete_journal(journal: ExecutionJournal, outcome: JournalOutcome, active_profile: String, now: i64) -> (r: (
    ExecutionJournal,
    RotationStep,
))
    ensures
        r.0 == completed(journal, outcome, now),
        r.1.active_profile == Some(active_profile),
        r.1.outcome == outcome,
        r.1.error is None,
{
    let mut journal = journal;
    journal.outcome = outcome;
    journal.next_retry_at = None;
    journal.last_error = None;
    journal.updated_at = now;
    (journal, RotationStep { active_profile: Some(active_profile), outcome, error: None })
}

/// The text of an optional profile, the empty text when there is none.
pub open spec fn text_or_empty(o: Option<String>) -> Seq<char> {
    match o {
        Some(s) => s@,
        None => Seq::empty(),
    }
}

/// The decision once the active profile has been asked for.
///
/// - Discovery failed: the attempt is journaled without profiles; it stays pending until the
///   attempt limit, then fails.
/// - An in-progress occurrence whose target is already active succeeds without selecting; one
///   where a third profile is active is superseded (a manual choice is never overwritten);
///   otherwise the same target is selected again.
/// - Otherwise the successor of the active profile becomes the target, journaled as in
///   progress before anything is selected.
pub open spec fn discovery_spec(
    existing: Option<ExecutionJournal>,
    config: DesiredConfig,
    date: LocalDate,
    now: i64,
    status: Result<String, SanitizedError>,
    r: Result<Discovery, HawkError>,
) -> bool {
    match status {
        Err(error) => {
            let attempts = match existing {
                Some(e) => (e.attempts + 1) as u32,
                None => 1u32,
            };
            let outcome = outcome_after_failure(attempts, JournalOutcome::PendingDiscovery);
            r matches Ok(Discovery::Finished { journal, step }) && journal == ExecutionJournal {
                schema_version: SCHEMA_VERSION,
                generation: config.generation,
                local_date: date,
                original_profile: None,
                intended_target: None,
                attempts,
                outcome,
                next_retry_at: retry_time(now, attempts, outcome),
                last_error: Some(error),
                updated_at: now,
            } && step.active_profile is None && step.outcome == outcome && step.error == Some(error)
        },
        Ok(current) => {
            if existing matches Some(e) && e.outcome is InProgress {
                let e = existing->0;
                if current@ == text_or_empty(e.intended_target) {
                    r matches Ok(Discovery::Finished { journal, step }) && journal == completed(
                        e,
                        JournalOutcome::Success,
                        now,
                    ) && step.active_profile == Some(current) && step.outcome is Success && step.error is None
                } else if current@ != text_or_empty(e.original_profile) {
                    r matches Ok(Discovery::Finished { journal, step }) && journal == completed(
                        e,
                        JournalOutcome::Superseded,
                        now,
                    ) && step.active_profile == Some(current) && step.outcome is Superseded && step.error
                        is None
                } else {
                    r matches Ok(Discovery::Select { journal, write_first, target, current: c }) && journal
                        == e && !write_first && target@ == text_or_empty(e.intended_target) && c == current
                }
            } else if config.profiles@.len() == 0 {
                r is Err
            } else {
                let ps = texts(config.profiles@);
                r matches Ok(Discovery::Select { journal, write_first, target, current: c }) && write_first
                    && target@ == ps[successor_index(ps, current@)] && c == current && journal.schema_version
                    == SCHEMA_VERSION && journal.generation == config.generation && journal.local_date == date
                    && journal.original_profile == Some(current) && journal.intended_target is Some
                    && text_or_empty(journal.intended_target) == target@ && journal.attempts == 0 && journal.outcome is InProgress
                    && journal.next_retry_at is None && journal.last_error is None && journal.updated_at == now
            }
        },
    }
}

pub fn after_discovery(
    existing: Option<ExecutionJournal>,
    config: &DesiredConfig,
    date: LocalDate,
    now: i64,
    status: Result<String, SanitizedError>,
) -> (r: Result<Discovery, HawkError>)
    requires
        now <= i64::MAX - 120000,
        existing matches Some(e) ==> e.attempts < u32::MAX,
    ensures
        discovery_spec(existing, *config, date, now, status, r),
{
    match status {
        Err(error) => {
            let attempts = match &existing {
                Some(e) => e.attempts + 1,
                None => 1,
            };
            let outcome = if attempts >= MAX_ATTEMPTS {
                JournalOutcome::Failed
            } else {
                JournalOutcome::PendingDiscovery
            };
            let journal = ExecutionJournal {
                schema_version: SCHEMA_VERSION,
                generation: config.generation,
                local_date: date,
                original_profile: None,
                intended_target: None,
                attempts,
                outcome,
                next_retry_at: retry_at(now, attempts, outcome),
                last_error: Some(error.duplicate()),
                updated_at: now,
            };
            Ok(Discovery::Finished { journal, step: RotationStep { active_profile: None, outcome, error: Some(error) } })
        },
        Ok(current) => {
            let in_progress = match &existing {
                Some(e) => match e.outcome {
                    JournalOutcome::InProgress => true,
                    _ => false,
                },
                None => false,
            };
            if in_progress {
                let e = match existing {
                    Some(e) => e,
                    None => {
                        return Err(validation_error("profile list became empty"));
                    },
                };
                let original = match &e.original_profile {
                    Some(p) => p.clone(),
                    None => String::new(),
                };
                let target = match &e.intended_target {
                    Some(p) => p.clone(),
                    None => String::new(),
                };
                if current == target {
                    let (journal, step) = complete_journal(e, JournalOutcome::Success, current, now);
                    return Ok(Discovery::Finished { journal, step });
                }
                if !(current == original) {
                    let (journal, step) = complete_journal(e, JournalOutcome::Superseded, current, now);
                    return Ok(Discovery::Finished { journal, step });
                }
                return Ok(Discovery::Select { journal: e, write_first: false, target, current });
            }
            let target = match circular_successor(config.profiles.as_slice(), current.as_str()) {
                Some(t) => String::from_str(t),
                None => {
                    return Err(validation_error("profile list became empty"));
                },
            };
            let journal = ExecutionJournal {
                schema_version: SCHEMA_VERSION,
                generation: config.generation,
                local_date: date,
                original_profile: Some(current.clone()),
                intended_target: Some(target.clone()),
                attempts: 0,
                outcome: JournalOutcome::InProgress,
                next_retry_at: None,
                last_error: None,
                updated_at: now,
            };
            Ok(Discovery::Select { journal, write_first: true, target, current })
        },
    }
}

/// The record after the selection: success completes the occurrence with the target active;
/// a failure counts an attempt, keeps the occurrence in progress until the limit and
/// schedules the retry.
pub open spec fn selection_spec(
    journal: ExecutionJournal,
    target: String,
    current: String,
    now: i64,
    result: Result<(), SanitizedError>,
    r: (ExecutionJournal, RotationStep),
) -> bool {
    match result {
        Ok(()) => r.0 == completed(journal, JournalOutcome::Success, now) && r.1.active_profile == Some(target)
            && r.1.outcome is Success && r.1.error is None,
        Err(error) => {
            let attempts = (journal.attempts + 1) as u32;
            let outcome = outcome_after_failure(attempts, JournalOutcome::InProgress);
            r.0 == ExecutionJournal {
                attempts,
                outcome,
                next_retry_at: retry_time(now, attempts, outcome),
                last_error: Some(error),
                updated_at: now,
                ..journal
            } && r.1.active_profile == Some(current) && r.1.outcome == outcome && r.1.error == Some(error)
        },
    }
}

pub fn after_selection(
    journal: ExecutionJournal,
    target: String,
    current: String,
    now: i64,
    result: Result<(), SanitizedError>,
) -> (r: (ExecutionJournal, RotationStep))
    requires
        now <= i64::MAX - 120000,
        journal.attempts < u32::MAX,
    ensures
        selection_spec(journal, target, current, now, result, r),
{
    match result {
        Ok(()) => complete_journal(journal, JournalOutcome::Success, target, now),
        Err(error) => {
            let mut journal = journal;
            journal.attempts = journal.attempts + 1;
            journal.outcome = if journal.attempts >= MAX_ATTEMPTS {
                JournalOutcome::Failed
            } else {
                JournalOutcome::InProgress
            };
            journal.next_retry_at = retry_at(now, journal.attempts, journal.outcome);
            journal.last_error = Some(error.duplicate());
            journal.updated_at = now;
            let outcome = journal.outcome;
            (journal, RotationStep { active_profile: Some(current), outcome, error: Some(error) })
        },
    }
}

/// An occurrence whose journal is terminal is not acted on again: the step is reported
/// without discovering or selecting, whatever the time.
pub proof fn lemma_terminal_occurrence_is_not_repeated(e: ExecutionJournal, now: i64, step: Option<RotationStep>)
    requires
        outcome_terminal(e.outcome),
        begin_spec(Some(e), now, step),
    ensures
        step is Some,
{
}

/// Selection is always journaled first: whenever a target is to be selected, the journal
/// written (or already on record) is in progress and names the profile that was active and
/// the target.
pub proof fn lemma_intent_is_journaled_before_selection(
    existing: Option<ExecutionJournal>,
    config: DesiredConfig,
    date: LocalDate,
    now: i64,
    status: Result<String, SanitizedError>,
    r: Result<Discovery, HawkError>,
)
    requires
        discovery_spec(existing, config, date, now, status, r),
        existing matches Some(e) ==> journal_valid(e),
        r matches Ok(Discovery::Select { .. }),
    ensures
        r matches Ok(Discovery::Select { journal, target, current, .. }) && journal.outcome is InProgress
            && journal.intended_target is Some && text_or_empty(journal.intended_target) == target@
            && text_or_empty(journal.original_profile) == current@,
{
    if status is Ok {
        if existing matches Some(e) && e.outcome is InProgress {
            assert(journal_valid(existing->0));
        }
    }
}

/// A new occurrence always rotates: with no selection in progress, once the active profile `p`
/// is known, the profile after `p` in list order is selected (wrapping to the first), and the
/// first profile when `p` is not listed. The intent names `p` and is journaled first.
pub proof fn lemma_discovery_selects_the_successor(
    existing: Option<ExecutionJournal>,
    config: DesiredConfig,
    date: LocalDate,
    now: i64,
    p: String,
    r: Result<Discovery, HawkError>,
)
    requires
        discovery_spec(existing, config, date, now, Ok(p), r),
        !(existing matches Some(e) && e.outcome is InProgress),
        config.profiles@.len() > 0,
    ensures
        r matches Ok(Discovery::Select { journal, write_first, target, current }) && write_first && current == p
            && journal.outcome is InProgress && journal.original_profile == Some(p) && text_or_empty(
            journal.intended_target,
        ) == target@ && texts(config.profiles@).contains(target@),
        !texts(config.profiles@).contains(p@) ==> (r matches Ok(Discovery::Select { target, .. }) && target@
            == config.profiles@[0]@),
        forall|i: int|
            0 <= i < config.profiles@.len() && #[trigger] config.profiles@[i]@ == p@ && (forall|j: int|
                0 <= j < i ==> config.profiles@[j]@ != p@) ==> (r matches Ok(Discovery::Select { target, .. })
                && target@ == config.profiles@[(i + 1) % (config.profiles@.len() as int)]@),
{
    let ps = texts(config.profiles@);
    lemma_successor_is_listed(ps, p@);
    lemma_seq_index_from(ps, p@, 0);
    let k = successor_index(ps, p@);
    assert(ps[k] == config.profiles@[k]@);
    assert(ps.contains(ps[k]));
    if !ps.contains(p@) {
        assert(ps[0] == config.profiles@[0]@);
    }
    assert forall|i: int|
        0 <= i < config.profiles@.len() && #[trigger] config.profiles@[i]@ == p@ && (forall|j: int|
            0 <= j < i ==> config.profiles@[j]@ != p@) implies (r matches Ok(Discovery::Select { target, .. })
            && target@ == config.profiles@[(i + 1) % (config.profiles@.len() as int)]@) by {
        let n = config.profiles@.len() as int;
        assert(ps[i] == p@);
        let f = seq_index_from(ps, p@, 0);
        if f < i {
            assert(ps[f] == config.profiles@[f]@);
        }
        if f > i {
            assert(ps[i] != p@);
        }
        assert(f == i);
        assert(0 <= (i + 1) % n < n) by (nonlinear_arith)
            requires
                n > 0,
        ;
        assert(ps[(i + 1) % n] == config.profiles@[(i + 1) % n]@);
    }
}

/// Retries are bounded: an occurrence that keeps failing to select is failed (terminal) after
/// at most `MAX_ATTEMPTS` selections, counting from a fresh intent.
pub proof fn lemma_selection_retries_are_bounded(
    j0: ExecutionJournal,
    t: String,
    c: String,
    n1: i64,
    n2: i64,
    n3: i64,
    e1: SanitizedError,
    e2: SanitizedError,
    e3: SanitizedError,
    r1: (ExecutionJournal, RotationStep),
    r2: (ExecutionJournal, RotationStep),
    r3: (ExecutionJournal, RotationStep),
)
    requires
        j0.attempts == 0,
        selection_spec(j0, t, c, n1, Err(e1), r1),
        selection_spec(r1.0, t, c, n2, Err(e2), r2),
        selection_spec(r2.0, t, c, n3, Err(e3), r3),
    ensures
        r1.0.outcome is InProgress,
        r2.0.outcome is InProgress,
        r3.0.outcome is Failed,
        outcome_terminal(r3.0.outcome),
        r3.0.next_retry_at is None,
{
}

/// A manual choice is respected: when the active profile is neither the journaled original
/// nor the target, the occurrence is superseded and nothing is selected.
pub proof fn lemma_manual_change_supersedes(
    e: ExecutionJournal,
    config: DesiredConfig,
    date: LocalDate,
    now: i64,
    current: String,
    r: Result<Discovery, HawkError>,
)
    requires
        e.outcome is InProgress,
        current@ != text_or_empty(e.intended_target),
        current@ != text_or_empty(e.original_profile),
        discovery_spec(Some(e), config, date, now, Ok(current), r),
    ensures
        r matches Ok(Discovery::Finished { journal, step }) && journal.outcome is Superseded
            && step.outcome is Superseded,
{
}

/// The lower-case name of an outcome (its `Debug` name in lower case).
pub open spec fn outcome_name(o: JournalOutcome) -> Seq<char> {
    match o {
        JournalOutcome::PendingDiscovery => "pendingdiscovery"@,
        JournalOutcome::InProgress => "inprogress"@,
        JournalOutcome::Success => "success"@,
        JournalOutcome::Superseded => "superseded"@,
        JournalOutcome::Failed => "failed"@,
    }
}

fn outcome_text(o: JournalOutcome) -> (s: &'static str)
    ensures
        s@ == outcome_name(o),
{
    match o {
        JournalOutcome::PendingDiscovery => "pendingdiscovery",
        JournalOutcome::InProgress => "inprogress",
        JournalOutcome::Success => "success",
        JournalOutcome::Superseded => "superseded",
        JournalOutcome::Failed => "failed",
    }
}

/// The local date of the journal's occurrence when it belongs to `generation` and is
/// terminal: dates up to it are handled.
pub open spec fn handled_date_spec(journal: Option<ExecutionJournal>, generation: GenerationId) -> Option<LocalDate> {
    match journal {
        Some(j) => if j.generation == generation && outcome_terminal(j.outcome) {
            Some(j.local_date)
        } else {
            None
        },
        None => None,
    }
}

pub fn handled_date(journal: &Option<ExecutionJournal>, generation: GenerationId) -> (r: Option<LocalDate>)
    ensures
        r == handled_date_spec(*journal, generation),
{
    match journal {
        Some(j) => {
            if j.generation == generation && j.outcome.is_terminal() {
                Some(j.local_date)
            } else {
                None
            }
        },
        None => None,
    }
}

/// `"{date}: {outcome:?}"` in lower case, for the journal of `generation` (the date's text,
/// `YYYY-MM-DD`, holds no letters).
pub open spec fn last_result_spec(journal: Option<ExecutionJournal>, generation: GenerationId) -> Option<Seq<char>> {
    match journal {
        Some(j) => if j.generation == generation {
            Some(chrono_date_text(j.local_date.num()) + ": "@ + outcome_name(j.outcome))
        } else {
            None
        },
        None => None,
    }
}

pub open spec fn opt_text(o: Option<String>) -> Option<Seq<char>> {
    match o {
        Some(s) => Some(s@),
        None => None,
    }
}

pub fn last_result_text(journal: &Option<ExecutionJournal>, generation: GenerationId) -> (r: Option<String>)
    ensures
        opt_text(r) == last_result_spec(*journal, generation),
{
    match journal {
        Some(j) => {
            if j.generation == generation {
                let mut text = j.local_date.to_text();
                text.append(": ");
                text.append(outcome_text(j.outcome));
                Some(text)
            } else {
                None
            }
        },
        None => None,
    }
}

/// The profile published as next: the successor of the active one.
pub open spec fn next_profile_spec(profiles: Seq<String>, active: Option<String>) -> Option<Seq<char>> {
    match active {
        Some(a) => if profiles.len() > 0 {
            Some(texts(profiles)[successor_index(texts(profiles), a@)])
        } else {
            None
        },
        None => None,
    }
}

/// The fields of a runtime snapshot that the worker decides.
pub struct RuntimePublication {
    pub state: LifecycleState,
    pub applied_generation: Option<GenerationId>,
    pub active_profile: Option<String>,
    pub next_local_occurrence: Option<String>,
    pub last_result: Option<String>,
    pub last_error: Option<SanitizedError>,
}

/// The snapshot published for `config`: the publication's fields, the configured profiles and
/// time, the successor of the active profile, the process id and the time of publishing.
pub fn runtime_snapshot(config: &DesiredConfig, publication: RuntimePublication, pid: u32, now: i64) -> (s: RuntimeSnapshot)
    ensures
        s.schema_version == SCHEMA_VERSION,
        s.state == publication.state,
        s.applied_generation == publication.applied_generation,
        s.pid == Some(pid),
        s.profiles@ == config.profiles@,
        s.local_time == Some(config.local_time),
        s.active_profile == publication.active_profile,
        opt_text(s.next_profile) == next_profile_spec(config.profiles@, publication.active_profile),
        s.next_local_occurrence == publication.next_local_occurrence,
        s.last_result == publication.last_result,
        s.last_error == publication.last_error,
        s.updated_at == now,
{
    let next_profile = match &publication.active_profile {
        Some(active) => match circular_successor(config.profiles.as_slice(), active.as_str()) {
            Some(n) => Some(String::from_str(n)),
            None => None,
        },
        None => None,
    };
    RuntimeSnapshot {
        schema_version: SCHEMA_VERSION,
        state: publication.state,
        applied_generation: publication.applied_generation,
        pid: Some(pid),
        profiles: clone_strings(&config.profiles),
        local_time: Some(config.local_time),
        active_profile: publication.active_profile,
        next_profile,
        next_local_occurrence: publication.next_local_occurrence,
        last_result: publication.last_result,
        last_error: publication.last_error,
        updated_at: now,
    }
}

/// The snapshot of a stopped daemon, naming the configuration it last ran when there is one.
pub fn stopped_snapshot(config: Option<&DesiredConfig>) -> (s: RuntimeSnapshot)
    ensures
        s.schema_version == SCHEMA_VERSION,
        s.state == LifecycleState::Stopped,
        s.pid is None,
        s.active_profile is None,
        s.next_profile is None,
        s.next_local_occurrence is None,
        s.last_result is None,
        s.last_error is None,
        match config {
            Some(c) => s.applied_generation == Some(c.generation) && s.profiles@ == c.profiles@
                && s.local_time == Some(c.local_time),
            None => s.applied_generation is None && s.profiles@.len() == 0 && s.local_time is None,
        },
{
    let mut snapshot = RuntimeSnapshot::stopped();
    match config {
        Some(c) => {
            snapshot.applied_generation = Some(c.generation);
            snapshot.profiles = clone_strings(&c.profiles);
            snapshot.local_time = Some(c.local_time);
        },
        None => {},
    }
    snapshot
}

/// Whether the control intent asks the daemon to stop.
pub fn stop_requested(control: &Option<ControlIntent>) -> (b: bool)
    ensures
        b == (control matches Some(c) && c.desired == DesiredRunState::Stopped),
{
    match control {
        Some(c) => c.desired == DesiredRunState::Stopped,
        None => false,
    }
}

/// Why a worker does not run: the error it ends with, and the configuration it publishes as
/// stopped first, when it found one that the control intent does not name.
pub struct WorkerRefusal {
    pub error: HawkError,
    pub config: Option<DesiredConfig>,
}

/// A worker runs only with a stored configuration and a control intent that asks it to run
/// exactly that configuration's generation.
pub fn worker_start(config: Option<DesiredConfig>, control: &Option<ControlIntent>) -> (r: Result<DesiredConfig, WorkerRefusal>)
    ensures
        config is None ==> (r matches Err(f) && is_validation(f.error, "the daemon has no desired configuration"@)
            && f.config is None),
        config matches Some(c) ==> (control is None ==> (r matches Err(f) && is_validation(
            f.error,
            "the daemon has no control intent"@,
        ) && f.config is None)),
        config matches Some(c) ==> (control matches Some(i) ==> (if i.desired == DesiredRunState::Running
            && i.generation == Some(c.generation) {
            r matches Ok(d) && d == c
        } else {
            r matches Err(f) && is_validation(
                f.error,
                "configuration and running control intent do not name the same generation"@,
            ) && f.config == Some(c)
        })),
{
    match config {
        None => Err(
            WorkerRefusal { error: validation_error("the daemon has no desired configuration"), config: None },
        ),
        Some(c) => match control {
            None => Err(WorkerRefusal { error: validation_error("the daemon has no control intent"), config: None }),
            Some(i) => {
                if i.desired == DesiredRunState::Running && i.generation == Some(c.generation) {
                    Ok(c)
                } else {
                    Err(
                        WorkerRefusal {
                            error: validation_error(
                                "configuration and running control intent do not name the same generation",
                            ),
                            config: Some(c),
                        },
                    )
                }
            },
        },
    }
}

/// Which configuration applies: the stored one only when the control intent names its
/// generation (configuration and control are separate records, so only a matching pair
/// authorizes a swap); otherwise the one already running.
pub fn choose_desired(control: &Option<ControlIntent>, persisted: DesiredConfig, current: &DesiredConfig) -> (d: DesiredConfig)
    ensures
        (control matches Some(c) && c.generation == Some(persisted.generation)) ==> same_config(d, persisted),
        !(control matches Some(c) && c.generation == Some(persisted.generation)) ==> same_config(d, *current),
{
    let authorized = match control {
        Some(c) => c.generation == Some(persisted.generation),
        None => false,
    };
    if authorized {
        persisted
    } else {
        current.duplicate()
    }
}

/// What the running worker holds between ticks: the applied configuration and the last
/// known active profile.
pub struct WorkerState {
    pub config: DesiredConfig,
    pub active_profile: Option<String>,
}

impl WorkerState {
    /// The state after startup discovery, and what to publish: running with the generation
    /// applied when the active profile was read, degraded with the error otherwise.
    pub fn start(config: DesiredConfig, startup: Result<String, SanitizedError>) -> (r: (WorkerState, RuntimePublication))
        ensures
            same_config(r.0.config, config),
            match startup {
                Ok(p) => r.0.active_profile == Some(p) && r.1.state == LifecycleState::Running
                    && r.1.applied_generation == Some(config.generation) && r.1.last_error is None,
                Err(e) => r.0.active_profile is None && r.1.state == LifecycleState::Degraded
                    && r.1.applied_generation is None && r.1.last_error == Some(e),
            },
            r.1.active_profile == r.0.active_profile,
            r.1.next_local_occurrence is None,
            r.1.last_result is None,
    {
        let generation = config.generation;
        match startup {
            Ok(p) => {
                let publication = RuntimePublication {
                    state: LifecycleState::Running,
                    applied_generation: Some(generation),
                    active_profile: Some(p.clone()),
                    next_local_occurrence: None,
                    last_result: None,
                    last_error: None,
                };
                (WorkerState { config, active_profile: Some(p) }, publication)
            },
            Err(e) => {
                let publication = RuntimePublication {
                    state: LifecycleState::Degraded,
                    applied_generation: None,
                    active_profile: None,
                    next_local_occurrence: None,
                    last_result: None,
                    last_error: Some(e),
                };
                (WorkerState { config, active_profile: None }, publication)
            },
        }
    }

    /// Whether the active profile must be read again before scheduling: after a generation
    /// change, or while it is unknown. The first element says whether the generation changed.
    pub fn needs_rediscovery(&self, desired: &DesiredConfig) -> (r: (bool, bool))
        ensures
            r.0 == (desired.generation != self.config.generation),
            r.1 == (r.0 || self.active_profile is None),
    {
        let changed = desired.generation != self.config.generation;
        (changed, changed || self.active_profile.is_none())
    }

    /// The NetBird executable to switch to before reading the active profile again: the
    /// desired configuration's, when its generation changed.
    pub fn rediscovery_executable(&self, desired: &DesiredConfig) -> (r: Option<String>)
        ensures
            desired.generation != self.config.generation ==> r == Some(desired.netbird_executable),
            desired.generation == self.config.generation ==> r is None,
    {
        if desired.generation != self.config.generation {
            Some(desired.netbird_executable.clone())
        } else {
            None
        }
    }

    /// After reading the active profile: a success applies the desired configuration (when its
    /// generation changed) and records the profile; a failure keeps the running configuration
    /// and yields the degraded publication, after which the tick ends. After a failure with a
    /// changed generation, the running configuration's executable is switched back to
    /// (the third element).
    pub fn after_rediscovery(self, desired: DesiredConfig, generation_changed: bool, result: Result<String, SanitizedError>) -> (r: (
        WorkerState,
        Option<RuntimePublication>,
        Option<String>,
    ))
        ensures
            (result is Err && generation_changed) ==> r.2 == Some(self.config.netbird_executable),
            !(result is Err && generation_changed) ==> r.2 is None,
            match result {
                Ok(p) => r.1 is None && r.0.active_profile == Some(p) && (if generation_changed {
                    same_config(r.0.config, desired)
                } else {
                    same_config(r.0.config, self.config)
                }),
                Err(e) => same_config(r.0.config, self.config) && r.0.active_profile == self.active_profile
                    && (r.1 matches Some(p) && p.state == LifecycleState::Degraded && p.applied_generation == (
                if self.active_profile is Some {
                    Some(self.config.generation)
                } else {
                    None
                }) && p.active_profile == self.active_profile && p.next_local_occurrence is None
                    && p.last_result is None && p.last_error == Some(e)),
            },
    {
        match result {
            Ok(p) => {
                let config = if generation_changed {
                    desired
                } else {
                    self.config
                };
                (WorkerState { config, active_profile: Some(p) }, None, None)
            },
            Err(e) => {
                let applied = match &self.active_profile {
                    Some(_) => Some(self.config.generation),
                    None => None,
                };
                let publication = RuntimePublication {
                    state: LifecycleState::Degraded,
                    applied_generation: applied,
                    active_profile: clone_opt_string(&self.active_profile),
                    next_local_occurrence: None,
                    last_result: None,
                    last_error: Some(e),
                };
                let restore = if generation_changed {
                    Some(self.config.netbird_executable.clone())
                } else {
                    None
                };
                (self, Some(publication), restore)
            },
        }
    }

    /// Records the profile an occurrence step left active, when it reports one.
    pub fn record_step(&mut self, step: &RotationStep)
        ensures
            same_config(final(self).config, old(self).config),
            final(self).active_profile == (if step.active_profile is Some {
                step.active_profile
            } else {
                old(self).active_profile
            }),
    {
        match &step.active_profile {
            Some(p) => {
                self.active_profile = Some(p.clone());
            },
            None => {},
        }
    }

    /// The publication at the end of a tick: the step's error, else the journal's last error;
    /// degraded exactly when there is one.
    pub fn tick_publication(&self, step_error: Option<SanitizedError>, journal: &Option<ExecutionJournal>, next_local_occurrence: String) -> (p: RuntimePublication)
        ensures
            p.last_error == (if step_error is Some {
                step_error
            } else {
                match *journal {
                    Some(j) => j.last_error,
                    None => None,
                }
            }),
            p.state == (if p.last_error is Some {
                LifecycleState::Degraded
            } else {
                LifecycleState::Running
            }),
            p.applied_generation == Some(self.config.generation),
            p.active_profile == self.active_profile,
            p.next_local_occurrence == Some(next_local_occurrence),
            opt_text(p.last_result) == last_result_spec(*journal, self.config.generation),
    {
        let last_error = match step_error {
            Some(e) => Some(e),
            None => match journal {
                Some(j) => clone_opt_error(&j.last_error),
                None => None,
            },
        };
        let state = if last_error.is_some() {
            LifecycleState::Degraded
        } else {
            LifecycleState::Running
        };
        RuntimePublication {
            state,
            applied_generation: Some(self.config.generation),
            active_profile: clone_opt_string(&self.active_profile),
            next_local_occurrence: Some(next_local_occurrence),
            last_result: last_result_text(journal, self.config.generation),
            last_error,
        }
    }
}

/// The computer's own clock and zone.
#[derive(Clone, Copy, Debug, Default)]
pub struct LocalClock;

} // verus!
