//! The lifecycle controller's decisions: what `start` checks and writes, what `status`
//! reports, and the messages of `start` and `stop`. Locks, file access, launching and
//! waiting are done outside the library.
use crate::error::{fails_validation, validation_error, HawkError};
use crate::model::{
    is_absolute_path, lifecycle_label, local_time_text, path_is_absolute, profiles_outcome_ok, profiles_valid,
    uuid_text, validate_profiles, ControlIntent, DesiredConfig, DesiredRunState, GenerationId,
    LifecycleState, LocalTime, RuntimeSnapshot, SanitizedError, SCHEMA_VERSION,
};
use crate::state::StateStore;
use crate::netbird::{operational_error, reports_operational};
use crate::text::{clone_strings, is_line_of, join_strings, join_texts, lemma_joined_lines, texts};
use vstd::prelude::*;

verus! {

pub const DEFAULT_ACKNOWLEDGEMENT_TIMEOUT_MS: u64 = 12000;

pub const DEFAULT_POLL_INTERVAL_MS: u64 = 100;

/// Starts, reconfigures, stops and reports on the per-user daemon.
pub struct LifecycleController<L> {
    store: StateStore,
    launcher: L,
    acknowledgement_timeout_ms: u64,
    poll_interval_ms: u64,
}

/// The runtime snapshot as read from disk.
pub enum RuntimeRead {
    Missing,
    Unreadable,
    Found(RuntimeSnapshot),
}

pub open spec fn opt_line(prefix: Seq<char>, value: Option<String>) -> Seq<Seq<char>> {
    match value {
        Some(v) => seq![prefix + v@],
        None => seq![],
    }
}

/// The lines of a status report, in order: state, profiles (when any), time, active and next
/// profile, next occurrence, last result, last error message.
pub open spec fn snapshot_lines(s: RuntimeSnapshot) -> Seq<Seq<char>> {
    seq!["state: "@ + lifecycle_label(s.state)] + (if s.profiles@.len() > 0 {
        seq!["profiles: "@ + join_texts(texts(s.profiles@), " -> "@)]
    } else {
        seq![]
    }) + (match s.local_time {
        Some(t) => seq!["time: "@ + local_time_text(t.hh(), t.mm()) + " local"@],
        None => seq![],
    }) + opt_line("active profile: "@, s.active_profile) + opt_line("next profile: "@, s.next_profile) + opt_line(
        "next occurrence: "@,
        s.next_local_occurrence,
    ) + opt_line("last result: "@, s.last_result) + (match s.last_error {
        Some(e) => seq!["last error: "@ + e.message@],
        None => seq![],
    })
}

pub open spec fn snapshot_report(s: RuntimeSnapshot) -> Seq<char> {
    join_texts(snapshot_lines(s), "\n"@)
}

/// The status report shows the state on a line of its own, and every field the snapshot holds
/// on a labelled line of its own: the profiles in order, the time, the active and next
/// profile, the next occurrence, the last result and the last error.
pub proof fn lemma_status_report_shows_every_field(s: RuntimeSnapshot)
    ensures
        is_line_of(snapshot_report(s), "state: "@ + lifecycle_label(s.state)),
        s.profiles@.len() > 0 ==> is_line_of(
            snapshot_report(s),
            "profiles: "@ + join_texts(texts(s.profiles@), " -> "@),
        ),
        s.local_time matches Some(t) ==> is_line_of(
            snapshot_report(s),
            "time: "@ + local_time_text(t.hh(), t.mm()) + " local"@,
        ),
        s.active_profile matches Some(p) ==> is_line_of(snapshot_report(s), "active profile: "@ + p@),
        s.next_profile matches Some(p) ==> is_line_of(snapshot_report(s), "next profile: "@ + p@),
        s.next_local_occurrence matches Some(o) ==> is_line_of(snapshot_report(s), "next occurrence: "@ + o@),
        s.last_result matches Some(r) ==> is_line_of(snapshot_report(s), "last result: "@ + r@),
        s.last_error matches Some(e) ==> is_line_of(snapshot_report(s), "last error: "@ + e.message@),
{
    let p0: Seq<Seq<char>> = seq!["state: "@ + lifecycle_label(s.state)];
    let p1: Seq<Seq<char>> = if s.profiles@.len() > 0 {
        seq!["profiles: "@ + join_texts(texts(s.profiles@), " -> "@)]
    } else {
        seq![]
    };
    let p2: Seq<Seq<char>> = match s.local_time {
        Some(t) => seq!["time: "@ + local_time_text(t.hh(), t.mm()) + " local"@],
        None => seq![],
    };
    let p3 = opt_line("active profile: "@, s.active_profile);
    let p4 = opt_line("next profile: "@, s.next_profile);
    let p5 = opt_line("next occurrence: "@, s.next_local_occurrence);
    let p6 = opt_line("last result: "@, s.last_result);
    let p7: Seq<Seq<char>> = match s.last_error {
        Some(e) => seq!["last error: "@ + e.message@],
        None => seq![],
    };
    let all = snapshot_lines(s);
    let l1 = p0;
    let l2 = l1 + p1;
    let l3 = l2 + p2;
    let l4 = l3 + p3;
    let l5 = l4 + p4;
    let l6 = l5 + p5;
    let l7 = l6 + p6;
    assert(all == l7 + p7);
    assert(all[0] == p0[0]) by {
        assert(l2[0] == p0[0]);
        assert(l3[0] == p0[0]);
        assert(l4[0] == p0[0]);
        assert(l5[0] == p0[0]);
        assert(l6[0] == p0[0]);
        assert(l7[0] == p0[0]);
    }
    lemma_joined_lines(all, 0);
    if p1.len() == 1 {
        assert(all[l1.len() as int] == p1[0]) by {
            assert(l2[l1.len() as int] == p1[0]);
            assert(l3[l1.len() as int] == p1[0]);
            assert(l4[l1.len() as int] == p1[0]);
            assert(l5[l1.len() as int] == p1[0]);
            assert(l6[l1.len() as int] == p1[0]);
            assert(l7[l1.len() as int] == p1[0]);
        }
        lemma_joined_lines(all, l1.len() as int);
    }
    if p2.len() == 1 {
        assert(all[l2.len() as int] == p2[0]) by {
            assert(l3[l2.len() as int] == p2[0]);
            assert(l4[l2.len() as int] == p2[0]);
            assert(l5[l2.len() as int] == p2[0]);
            assert(l6[l2.len() as int] == p2[0]);
            assert(l7[l2.len() as int] == p2[0]);
        }
        lemma_joined_lines(all, l2.len() as int);
    }
    if p3.len() == 1 {
        assert(all[l3.len() as int] == p3[0]) by {
            assert(l4[l3.len() as int] == p3[0]);
            assert(l5[l3.len() as int] == p3[0]);
            assert(l6[l3.len() as int] == p3[0]);
            assert(l7[l3.len() as int] == p3[0]);
        }
        lemma_joined_lines(all, l3.len() as int);
    }
    if p4.len() == 1 {
        assert(all[l4.len() as int] == p4[0]) by {
            assert(l5[l4.len() as int] == p4[0]);
            assert(l6[l4.len() as int] == p4[0]);
            assert(l7[l4.len() as int] == p4[0]);
        }
        lemma_joined_lines(all, l4.len() as int);
    }
    if p5.len() == 1 {
        assert(all[l5.len() as int] == p5[0]) by {
            assert(l6[l5.len() as int] == p5[0]);
            assert(l7[l5.len() as int] == p5[0]);
        }
        lemma_joined_lines(all, l5.len() as int);
    }
    if p6.len() == 1 {
        assert(all[l6.len() as int] == p6[0]) by {
            assert(l7[l6.len() as int] == p6[0]);
        }
        lemma_joined_lines(all, l6.len() as int);
    }
    if p7.len() == 1 {
        assert(all[l7.len() as int] == p7[0]);
        lemma_joined_lines(all, l7.len() as int);
    }
}

fn push_line(lines: &mut Vec<String>, prefix: &str, value: &Option<String>)
    ensures
        texts(final(lines)@) == texts(old(lines)@) + opt_line(prefix@, *value),
{
    match value {
        Some(v) => {
            let mut line = String::from_str(prefix);
            line.append(v.as_str());
            lines.push(line);
            assert(texts(lines@) =~= texts(old(lines)@) + opt_line(prefix@, *value));
        },
        None => {
            assert(texts(lines@) =~= texts(old(lines)@) + opt_line(prefix@, *value));
        },
    }
}

/// The human-readable report of a snapshot.
pub fn format_snapshot(snapshot: &RuntimeSnapshot) -> (report: String)
    ensures
        report@ == snapshot_report(*snapshot),
{
    let mut lines: Vec<String> = Vec::new();
    let mut first = String::from_str("state: ");
    first.append(snapshot.state.label().as_str());
    lines.push(first);
    let ghost l0 = texts(lines@);
    assert(l0 =~= seq!["state: "@ + lifecycle_label(snapshot.state)]);
    if snapshot.profiles.len() > 0 {
        let mut line = String::from_str("profiles: ");
        line.append(join_strings(&snapshot.profiles, " -> ").as_str());
        lines.push(line);
    }
    let ghost l1 = texts(lines@);
    assert(l1 =~= l0 + (if snapshot.profiles@.len() > 0 {
        seq!["profiles: "@ + join_texts(texts(snapshot.profiles@), " -> "@)]
    } else {
        seq![]
    }));
    match snapshot.local_time {
        Some(t) => {
            let mut line = String::from_str("time: ");
            line.append(t.to_text().as_str());
            line.append(" local");
            lines.push(line);
        },
        None => {},
    }
    let ghost l2 = texts(lines@);
    assert(l2 =~= l1 + (match snapshot.local_time {
        Some(t) => seq!["time: "@ + local_time_text(t.hh(), t.mm()) + " local"@],
        None => seq![],
    }));
    push_line(&mut lines, "active profile: ", &snapshot.active_profile);
    push_line(&mut lines, "next profile: ", &snapshot.next_profile);
    push_line(&mut lines, "next occurrence: ", &snapshot.next_local_occurrence);
    push_line(&mut lines, "last result: ", &snapshot.last_result);
    let ghost l3 = texts(lines@);
    match &snapshot.last_error {
        Some(e) => {
            let mut line = String::from_str("last error: ");
            line.append(e.message.as_str());
            lines.push(line);
        },
        None => {},
    }
    assert(texts(lines@) =~= l3 + (match snapshot.last_error {
        Some(e) => seq!["last error: "@ + e.message@],
        None => seq![],
    }));
    assert(texts(lines@) =~= snapshot_lines(*snapshot));
    join_strings(&lines, "\n")
}

/// What `status` reports: a daemon not holding its lifetime lock is stopped whatever stale
/// snapshot remains; a live one is reported from its snapshot, or as degraded when that is
/// missing or unreadable.
pub open spec fn status_report(live: bool, runtime: RuntimeRead) -> Seq<char> {
    if !live {
        "state: stopped"@
    } else {
        match runtime {
            RuntimeRead::Missing => "state: degraded\ndetails: runtime snapshot is unavailable"@,
            RuntimeRead::Unreadable => "state: degraded\ndetails: runtime snapshot is unreadable"@,
            RuntimeRead::Found(s) => snapshot_report(s),
        }
    }
}

/// `"daemon started with generation …"` or `"daemon reconfigured to generation …"`, then
/// the profiles in order and the local time.
pub open spec fn start_message_text(was_live: bool, generation: GenerationId, profiles: Seq<String>, time: LocalTime) -> Seq<char> {
    "daemon "@ + (if was_live {
        "reconfigured to"@
    } else {
        "started with"@
    }) + " generation "@ + uuid_text(generation.0) + "\nprofiles: "@ + join_texts(texts(profiles), " -> "@)
        + "\ntime: "@ + local_time_text(time.hh(), time.mm()) + " local"@
}

pub open spec fn relative_discovery_message() -> Seq<char> {
    "NetBird executable discovery did not return an absolute path"@
}

/// The checks `start` makes before anything else: the profile list, then an absolute
/// NetBird executable.
pub open spec fn start_checks_ok(profiles: Seq<String>, executable: Seq<char>, r: Result<(), HawkError>) -> bool {
    &&& (r is Ok <==> (profiles_valid(texts(profiles)) && path_is_absolute(executable)))
    &&& !profiles_valid(texts(profiles)) ==> profiles_outcome_ok(texts(profiles), r)
    &&& profiles_valid(texts(profiles)) && !path_is_absolute(executable) ==> fails_validation(
        r,
        relative_discovery_message(),
    )
}

impl<L> LifecycleController<L> {
    pub closed spec fn launcher_view(&self) -> L {
        self.launcher
    }

    pub closed spec fn store_view(&self) -> StateStore {
        self.store
    }

    pub closed spec fn acknowledgement_timeout_view(&self) -> u64 {
        self.acknowledgement_timeout_ms
    }

    pub closed spec fn poll_interval_view(&self) -> u64 {
        self.poll_interval_ms
    }

    pub fn new(store: StateStore, launcher: L) -> (c: LifecycleController<L>)
        ensures
            c.store_view() == store,
            c.launcher_view() == launcher,
            c.acknowledgement_timeout_view() == DEFAULT_ACKNOWLEDGEMENT_TIMEOUT_MS,
            c.poll_interval_view() == DEFAULT_POLL_INTERVAL_MS,
    {
        LifecycleController {
            store,
            launcher,
            acknowledgement_timeout_ms: DEFAULT_ACKNOWLEDGEMENT_TIMEOUT_MS,
            poll_interval_ms: DEFAULT_POLL_INTERVAL_MS,
        }
    }

    pub fn with_timeouts(self, acknowledgement_ms: u64, poll_ms: u64) -> (c: LifecycleController<L>)
        ensures
            c.store_view() == self.store_view(),
            c.launcher_view() == self.launcher_view(),
            c.acknowledgement_timeout_view() == acknowledgement_ms,
            c.poll_interval_view() == poll_ms,
    {
        let mut c = self;
        c.acknowledgement_timeout_ms = acknowledgement_ms;
        c.poll_interval_ms = poll_ms;
        c
    }

    pub fn store(&self) -> (s: &StateStore)
        ensures
            *s == self.store_view(),
    {
        &self.store
    }

    pub fn launcher(&self) -> (l: &L)
        ensures
            *l == self.launcher_view(),
    {
        &self.launcher
    }

    pub fn acknowledgement_timeout_ms(&self) -> (t: u64)
        ensures
            t == self.acknowledgement_timeout_view(),
    {
        self.acknowledgement_timeout_ms
    }

    pub fn poll_interval_ms(&self) -> (t: u64)
        ensures
            t == self.poll_interval_view(),
    {
        self.poll_interval_ms
    }

    /// The status report, given whether the daemon holds its lifetime lock and what reading
    /// its runtime snapshot gave.
    pub fn status(&self, live: bool, runtime: &RuntimeRead) -> (report: String)
        ensures
            report@ == status_report(live, *runtime),
    {
        if !live {
            return String::from_str("state: stopped");
        }
        match runtime {
            RuntimeRead::Missing => String::from_str("state: degraded\ndetails: runtime snapshot is unavailable"),
            RuntimeRead::Unreadable => String::from_str("state: degraded\ndetails: runtime snapshot is unreadable"),
            RuntimeRead::Found(s) => format_snapshot(s),
        }
    }
}

/// The checks `start` makes before touching any state.
pub fn check_start(profiles: &Vec<String>, netbird_executable: &str) -> (r: Result<(), HawkError>)
    ensures
        start_checks_ok(profiles@, netbird_executable@, r),
{
    validate_profiles(profiles.as_slice())?;
    if !is_absolute_path(netbird_executable) {
        return Err(validation_error("NetBird executable discovery did not return an absolute path"));
    }
    Ok(())
}

/// The configuration a `start` writes: a new generation, activated now.
pub fn new_config(generation: GenerationId, profiles: &Vec<String>, local_time: LocalTime, netbird_executable: String, now: i64) -> (c: DesiredConfig)
    ensures
        c.schema_version == SCHEMA_VERSION,
        c.generation == generation,
        c.profiles@ == profiles@,
        c.local_time == local_time,
        c.netbird_executable == netbird_executable,
        c.activated_at == now,
{
    DesiredConfig {
        schema_version: SCHEMA_VERSION,
        generation,
        profiles: clone_strings(profiles),
        local_time,
        netbird_executable,
        activated_at: now,
    }
}

/// The control intent asking the daemon to run `generation`.
pub fn running_intent(generation: GenerationId, now: i64) -> (c: ControlIntent)
    ensures
        c.schema_version == SCHEMA_VERSION,
        c.desired == DesiredRunState::Running,
        c.generation == Some(generation),
        c.requested_at == now,
{
    ControlIntent { schema_version: SCHEMA_VERSION, desired: DesiredRunState::Running, generation: Some(generation), requested_at: now }
}

/// The control intent asking the daemon to stop.
pub fn stopping_intent(generation: Option<GenerationId>, now: i64) -> (c: ControlIntent)
    ensures
        c.schema_version == SCHEMA_VERSION,
        c.desired == DesiredRunState::Stopped,
        c.generation == generation,
        c.requested_at == now,
{
    ControlIntent { schema_version: SCHEMA_VERSION, desired: DesiredRunState::Stopped, generation, requested_at: now }
}

/// The snapshot written before launching a new daemon: starting, nothing applied yet, the
/// profile found by preflight active.
pub fn starting_snapshot(profiles: &Vec<String>, local_time: LocalTime, preflight_profile: String, now: i64) -> (s: RuntimeSnapshot)
    ensures
        s.schema_version == SCHEMA_VERSION,
        s.state == LifecycleState::Starting,
        s.applied_generation is None,
        s.pid is None,
        s.profiles@ == profiles@,
        s.local_time == Some(local_time),
        s.active_profile == Some(preflight_profile),
        s.next_profile is None,
        s.next_local_occurrence is None,
        s.last_result is None,
        s.last_error is None,
        s.updated_at == now,
{
    RuntimeSnapshot {
        schema_version: SCHEMA_VERSION,
        state: LifecycleState::Starting,
        applied_generation: None,
        pid: None,
        profiles: clone_strings(profiles),
        local_time: Some(local_time),
        active_profile: Some(preflight_profile),
        next_profile: None,
        next_local_occurrence: None,
        last_result: None,
        last_error: None,
        updated_at: now,
    }
}

/// The first decision of `start` after its preflight: the active profile NetBird reported,
/// or the failure as the controller reports it. Nothing is written unless this succeeds.
pub fn after_preflight(preflight: Result<String, SanitizedError>) -> (r: Result<String, HawkError>)
    ensures
        match preflight {
            Ok(p) => r == Ok::<String, HawkError>(p),
            Err(error) => r matches Err(e) && reports_operational(error, e),
        },
{
    match preflight {
        Ok(p) => Ok(p),
        Err(error) => Err(operational_error(&error)),
    }
}

/// The records `start` writes, in order: the new configuration, the control intent naming
/// its generation, and, when no daemon is live, the starting snapshot before a launch.
pub struct StartRecords {
    pub config: DesiredConfig,
    pub control: ControlIntent,
    pub starting: Option<RuntimeSnapshot>,
}

/// The records of a `start` whose preflight found `preflight_profile` active. They can only
/// be made from a successful preflight (`after_preflight`).
pub fn start_records(
    preflight_profile: String,
    was_live: bool,
    generation: GenerationId,
    profiles: &Vec<String>,
    local_time: LocalTime,
    netbird_executable: String,
    now: i64,
) -> (r: StartRecords)
    ensures
        r.config.schema_version == SCHEMA_VERSION,
        r.config.generation == generation,
        r.config.profiles@ == profiles@,
        r.config.local_time == local_time,
        r.config.netbird_executable == netbird_executable,
        r.config.activated_at == now,
        r.control.schema_version == SCHEMA_VERSION,
        r.control.desired == DesiredRunState::Running,
        r.control.generation == Some(generation),
        r.control.requested_at == now,
        was_live <==> r.starting is None,
        r.starting matches Some(s) ==> s.schema_version == SCHEMA_VERSION && s.state == LifecycleState::Starting
            && s.applied_generation is None && s.pid is None && s.profiles@ == profiles@ && s.local_time
            == Some(local_time) && s.active_profile == Some(preflight_profile) && s.next_profile is None
            && s.next_local_occurrence is None && s.last_result is None && s.last_error is None
            && s.updated_at == now,
{
    let config = new_config(generation, profiles, local_time, netbird_executable, now);
    let control = running_intent(generation, now);
    let starting = launch_plan(was_live, profiles, local_time, preflight_profile, now);
    StartRecords { config, control, starting }
}

/// Whether `start` launches a worker: a live daemon picks up the new generation itself;
/// otherwise the starting snapshot is written (`Some`) and a worker launched.
pub fn launch_plan(
    was_live: bool,
    profiles: &Vec<String>,
    local_time: LocalTime,
    preflight_profile: String,
    now: i64,
) -> (r: Option<RuntimeSnapshot>)
    ensures
        was_live <==> r is None,
        r matches Some(s) ==> s.schema_version == SCHEMA_VERSION && s.state == LifecycleState::Starting
            && s.applied_generation is None && s.pid is None && s.profiles@ == profiles@ && s.local_time
            == Some(local_time) && s.active_profile == Some(preflight_profile) && s.next_profile is None
            && s.next_local_occurrence is None && s.last_result is None && s.last_error is None
            && s.updated_at == now,
{
    if was_live {
        None
    } else {
        Some(starting_snapshot(profiles, local_time, preflight_profile, now))
    }
}

/// The message `start` prints once the daemon acknowledged the generation.
pub fn start_message(was_live: bool, generation: GenerationId, profiles: &Vec<String>, local_time: LocalTime) -> (m: String)
    ensures
        m@ == start_message_text(was_live, generation, profiles@, local_time),
{
    let mut m = String::from_str("daemon ");
    if was_live {
        m.append("reconfigured to");
    } else {
        m.append("started with");
    }
    m.append(" generation ");
    m.append(generation.to_text().as_str());
    m.append("\nprofiles: ");
    m.append(join_strings(profiles, " -> ").as_str());
    m.append("\ntime: ");
    m.append(local_time.to_text().as_str());
    m.append(" local");
    m
}

/// Whether the snapshot acknowledges `generation`: applied, and running.
pub fn acknowledges(snapshot: &RuntimeSnapshot, generation: GenerationId) -> (b: bool)
    ensures
        b == (snapshot.applied_generation == Some(generation) && snapshot.state == LifecycleState::Running),
{
    snapshot.applied_generation == Some(generation) && snapshot.state == LifecycleState::Running
}

/// The guidance of a ready-acknowledgement timeout, by the generation the daemon reports.
pub open spec fn ready_guidance_text(observed: Option<GenerationId>, previous: Option<GenerationId>) -> Seq<char> {
    match observed {
        Some(o) => if Some(o) == previous {
            "the daemon still reports its previous generation "@ + uuid_text(o.0)
        } else {
            "the daemon reports generation "@ + uuid_text(o.0)
        },
        None => "no ready generation was published; inspect the per-user log and retry"@,
    }
}

/// The error when the daemon did not acknowledge the new generation in time.
pub fn ready_timeout_error(observed: Option<GenerationId>, previous: Option<GenerationId>) -> (e: HawkError)
    ensures
        e matches HawkError::AcknowledgementTimeout { operation, guidance } && operation@
            == "ready acknowledgement"@ && guidance@ == ready_guidance_text(observed, previous),
{
    let guidance = match observed {
        Some(o) => {
            let mut g = if Some(o) == previous {
                String::from_str("the daemon still reports its previous generation ")
            } else {
                String::from_str("the daemon reports generation ")
            };
            g.append(o.to_text().as_str());
            g
        },
        None => String::from_str("no ready generation was published; inspect the per-user log and retry"),
    };
    HawkError::AcknowledgementTimeout { operation: String::from_str("ready acknowledgement"), guidance }
}

/// The timeout of a stop: the daemon kept its lifetime lock past the deadline.
pub open spec fn is_stop_timeout(e: HawkError) -> bool {
    e matches HawkError::AcknowledgementTimeout { operation, guidance } && operation@
        == "shutdown acknowledgement"@ && guidance@
        == "the process was not killed from PID metadata; inspect the log and retry stop"@
}

/// The error when the daemon did not release its lifetime lock in time. The process is never
/// killed on the strength of its recorded PID.
pub fn stop_timeout_error() -> (e: HawkError)
    ensures
        is_stop_timeout(e),
{
    HawkError::AcknowledgementTimeout {
        operation: String::from_str("shutdown acknowledgement"),
        guidance: String::from_str("the process was not killed from PID metadata; inspect the log and retry stop"),
    }
}

/// One look at the daemon's lifetime lock during `stop`. A daemon that holds no lock is
/// stopped: "already" when no stop intent had been written yet. One that still holds it past
/// the deadline ends `stop` with the timeout; otherwise (`None`) the intent is written, or
/// was, and `stop` waits and looks again.
pub fn stop_progress(live: bool, intent_written: bool, past_deadline: bool) -> (r: Option<Result<String, HawkError>>)
    ensures
        !live ==> (r matches Some(Ok(s)) && s@ == (if intent_written {
            "daemon stopped"@
        } else {
            "daemon is already stopped"@
        })),
        live && past_deadline ==> (r matches Some(Err(e)) && is_stop_timeout(e)),
        live && !past_deadline ==> r is None,
{
    if !live {
        if intent_written {
            Some(Ok(String::from_str("daemon stopped")))
        } else {
            Some(Ok(String::from_str("daemon is already stopped")))
        }
    } else if past_deadline {
        Some(Err(stop_timeout_error()))
    } else {
        None
    }
}

/// One look at the runtime snapshot while `start` waits: done once it acknowledges
/// `generation`; past the deadline, the timeout naming the generation the snapshot reports
/// (compared with the `previous` one); otherwise (`None`) wait and look again.
pub fn ready_progress(
    current: &Option<RuntimeSnapshot>,
    generation: GenerationId,
    previous: Option<GenerationId>,
    past_deadline: bool,
) -> (r: Option<Result<(), HawkError>>)
    ensures
        (current matches Some(s) && s.applied_generation == Some(generation) && s.state
            == LifecycleState::Running) ==> r matches Some(Ok(())),
        !(current matches Some(s) && s.applied_generation == Some(generation) && s.state
            == LifecycleState::Running) && past_deadline ==> (r matches Some(Err(e)) && e matches HawkError::AcknowledgementTimeout { operation, guidance }
            && operation@ == "ready acknowledgement"@ && guidance@ == ready_guidance_text(
            match *current {
                Some(s) => s.applied_generation,
                None => None,
            },
            previous,
        )),
        !(current matches Some(s) && s.applied_generation == Some(generation) && s.state
            == LifecycleState::Running) && !past_deadline ==> r is None,
{
    let acknowledged = match current {
        Some(s) => acknowledges(s, generation),
        None => false,
    };
    if acknowledged {
        Some(Ok(()))
    } else if past_deadline {
        let observed = match current {
            Some(s) => s.applied_generation,
            None => None,
        };
        Some(Err(ready_timeout_error(observed, previous)))
    } else {
        None
    }
}

} // verus!
