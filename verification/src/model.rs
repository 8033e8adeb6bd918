//! The records the daemon and its controller share: configuration generations, control
//! intents, execution journals and runtime snapshots, with the checks each must pass.
use crate::calendar::{utc_now_ms, LocalDate};
use crate::error::{
    fails_validation, fails_version, fails_with_text, is_validation, validation_error, HawkError,
};
use crate::text::{
    all_digits, all_white_space, chars_all_digits, chars_of, clone_opt_string, clone_strings,
    debug_quoted, debug_text, digits_to_u32, digits_value, find_char, first_index_from,
    format_two_digits, has_control_char, is_control_char, lemma_trimmed_empty, texts, trim_chars,
    two_digits, char_is_control,
};
use vstd::arithmetic::power::pow;
use vstd::prelude::*;

verus! {

pub const SCHEMA_VERSION: u32 = 1;

/// The lower-case hexadecimal digit of `n` (0 to 15).
pub open spec fn hex_digit(n: int) -> char {
    if n < 10 {
        (('0' as int) + n) as char
    } else {
        (('a' as int) + n - 10) as char
    }
}

/// Hexadecimal digit `i` of `v`, counting from the most significant (0 to 31).
pub open spec fn uuid_nibble(v: u128, i: int) -> int {
    (v as int / pow(16, (31 - i) as nat)) % 16
}

/// Which hexadecimal digit stands at position `j` of the hyphenated text.
pub open spec fn uuid_digit_at(j: int) -> int {
    j - (if j > 8 { 1int } else { 0 }) - (if j > 13 { 1int } else { 0 }) - (if j > 18 { 1int } else { 0 }) - (
    if j > 23 {
        1int
    } else {
        0
    })
}

/// The text uuid's `Display` gives the UUID whose 128-bit value is `v`: its 32 lower-case
/// hexadecimal digits, most significant first, grouped 8-4-4-4-12 by hyphens.
pub open spec fn uuid_text(v: u128) -> Seq<char> {
    Seq::new(
        36,
        |j: int|
            if j == 8 || j == 13 || j == 18 || j == 23 {
                '-'
            } else {
                hex_digit(uuid_nibble(v, uuid_digit_at(j)))
            },
    )
}

/// `Uuid::new_v4().as_u128()`: a random UUID; uuid sets its version nibble to 4 and its
/// variant bits to `10`, which is all that holds of every outcome.
#[verifier::external_body]
fn random_uuid() -> (v: u128)
    ensures
        v & 0xf000_0000_0000_0000_0000u128 == 0x4000_0000_0000_0000_0000u128,
        v & 0xc000_0000_0000_0000u128 == 0x8000_0000_0000_0000u128,
{
    uuid::Uuid::new_v4().as_u128()
}

/// `Uuid::from_u128(v).to_string()`.
#[verifier::external_body]
fn uuid_to_text(v: u128) -> (s: String)
    ensures
        s@ == uuid_text(v),
{
    uuid::Uuid::from_u128(v).to_string()
}

/// The identity of one applied configuration, a random (version 4) UUID.
#[derive(Clone, Copy, Debug, PartialEq, Eq, Structural, Hash)]
pub struct GenerationId(pub u128);

impl GenerationId {
    /// A new random (version 4, RFC 4122 variant) UUID.
    pub fn new() -> (g: GenerationId)
        ensures
            g.0 & 0xf000_0000_0000_0000_0000u128 == 0x4000_0000_0000_0000_0000u128,
            g.0 & 0xc000_0000_0000_0000u128 == 0x8000_0000_0000_0000u128,
    {
        GenerationId(random_uuid())
    }

    /// The hyphenated text of the UUID.
    pub fn to_text(&self) -> (s: String)
        ensures
            s@ == uuid_text(self.0),
    {
        uuid_to_text(self.0)
    }
}

impl Default for GenerationId {
    fn default() -> (g: GenerationId)
        ensures
            g.0 & 0xf000_0000_0000_0000_0000u128 == 0x4000_0000_0000_0000_0000u128,
            g.0 & 0xc000_0000_0000_0000u128 == 0x8000_0000_0000_0000u128,
    {
        GenerationId::new()
    }
}

/// A daily local wall-clock time, to the minute.
#[derive(Clone, Copy, Debug, PartialEq, Eq, Structural)]
pub struct LocalTime {
    hour: u32,
    minute: u32,
}

pub open spec fn time_format_message() -> Seq<char> {
    "time must use H:MM or HH:MM 24-hour format"@
}

pub open spec fn time_range_message() -> Seq<char> {
    "time must be between 00:00 and 23:59"@
}

/// The position of the first `:` in `s`.
pub open spec fn colon_at(s: Seq<char>) -> int {
    first_index_from(s, ':', 0)
}

/// `s` has the shape `H:MM` or `HH:MM`: one or two digits, the first colon, two digits.
pub open spec fn time_shape_ok(s: Seq<char>) -> bool {
    let p = colon_at(s);
    &&& p < s.len()
    &&& 1 <= p <= 2
    &&& s.len() - (p + 1) == 2
    &&& all_digits(s.subrange(0, p))
    &&& all_digits(s.subrange(p + 1, s.len() as int))
}

pub open spec fn time_hour_of(s: Seq<char>) -> int {
    digits_value(s.subrange(0, colon_at(s)))
}

pub open spec fn time_minute_of(s: Seq<char>) -> int {
    digits_value(s.subrange(colon_at(s) + 1, s.len() as int))
}

impl LocalTime {
    #[verifier::type_invariant]
    spec fn valid(self) -> bool {
        self.hour < 24 && self.minute < 60
    }

    pub closed spec fn hh(self) -> int {
        self.hour as int
    }

    pub closed spec fn mm(self) -> int {
        self.minute as int
    }

    /// The time `hour:minute`, if it names a time of day.
    pub fn new(hour: u32, minute: u32) -> (r: Option<LocalTime>)
        ensures
            r is Some <==> (hour < 24 && minute < 60),
            r matches Some(t) ==> t.hh() == hour && t.mm() == minute,
    {
        if hour < 24 && minute < 60 {
            Some(LocalTime { hour, minute })
        } else {
            None
        }
    }

    pub fn hour(self) -> (h: u32)
        ensures
            h == self.hh(),
            h < 24,
    {
        proof {
            use_type_invariant(&self);
        }
        self.hour
    }

    pub fn minute(self) -> (m: u32)
        ensures
            m == self.mm(),
            m < 60,
    {
        proof {
            use_type_invariant(&self);
        }
        self.minute
    }

    /// Reads `H:MM` or `HH:MM` (24-hour).
    pub fn parse(value: &str) -> (r: Result<LocalTime, String>)
        ensures
            !time_shape_ok(value@) ==> fails_with_text(r, time_format_message()),
            time_shape_ok(value@) && (time_hour_of(value@) >= 24 || time_minute_of(value@) >= 60)
                ==> fails_with_text(r, time_range_message()),
            time_shape_ok(value@) && time_hour_of(value@) < 24 && time_minute_of(value@) < 60
                ==> (r matches Ok(t) && t.hh() == time_hour_of(value@) && t.mm() == time_minute_of(
                value@,
            )),
    {
        let v = chars_of(value);
        let n = v.len();
        let p = find_char(&v, ':', 0);
        if p >= n || p < 1 || p > 2 || n - (p + 1) != 2 || !chars_all_digits(&v, 0, p)
            || !chars_all_digits(&v, p + 1, n) {
            return Err(String::from_str("time must use H:MM or HH:MM 24-hour format"));
        }
        let hour = digits_to_u32(&v, 0, p);
        let minute = digits_to_u32(&v, p + 1, n);
        match LocalTime::new(hour, minute) {
            Some(t) => Ok(t),
            None => Err(String::from_str("time must be between 00:00 and 23:59")),
        }
    }

    /// The normalized `HH:MM` text.
    pub fn to_text(&self) -> (s: String)
        ensures
            s@ == local_time_text(self.hh(), self.mm()),
    {
        let h = self.hour();
        let m = self.minute();
        let hs = format_two_digits(h);
        let ms = format_two_digits(m);
        let mut s = hs;
        s.append(":");
        s.append(ms.as_str());
        s
    }
}

/// `HH:MM` with both parts zero-padded.
pub open spec fn local_time_text(hour: int, minute: int) -> Seq<char> {
    two_digits(hour) + ":"@ + two_digits(minute)
}

impl core::str::FromStr for LocalTime {
    type Err = String;

    fn from_str(value: &str) -> (r: Result<LocalTime, String>)
        ensures
            !time_shape_ok(value@) ==> fails_with_text(r, time_format_message()),
            time_shape_ok(value@) && (time_hour_of(value@) >= 24 || time_minute_of(value@) >= 60)
                ==> fails_with_text(r, time_range_message()),
            time_shape_ok(value@) && time_hour_of(value@) < 24 && time_minute_of(value@) < 60
                ==> (r matches Ok(t) && t.hh() == time_hour_of(value@) && t.mm() == time_minute_of(
                value@,
            )),
    {
        LocalTime::parse(value)
    }
}

pub open spec fn empty_list_message() -> Seq<char> {
    "at least one profile is required"@
}

pub open spec fn blank_profile_message() -> Seq<char> {
    "profile names must not be empty"@
}

pub open spec fn control_profile_message() -> Seq<char> {
    "profile names must not contain control characters"@
}

pub open spec fn duplicate_profile_message(p: Seq<char>) -> Seq<char> {
    "profile "@ + debug_text(p) + " is duplicated; profiles must be unique"@
}

/// Profile `i` repeats an earlier one.
pub open spec fn repeats_earlier(ps: Seq<Seq<char>>, i: int) -> bool {
    exists|j: int| 0 <= j < i && ps[j] == ps[i]
}

/// Profile `i` is blank, holds a control character, or repeats an earlier profile.
pub open spec fn profile_bad_at(ps: Seq<Seq<char>>, i: int) -> bool {
    ||| all_white_space(ps[i])
    ||| has_control_char(ps[i])
    ||| repeats_earlier(ps, i)
}

/// The message for the problem found at profile `i`, checked in the order blank, control
/// character, duplicate.
pub open spec fn profile_problem_message(ps: Seq<Seq<char>>, i: int) -> Seq<char> {
    if all_white_space(ps[i]) {
        blank_profile_message()
    } else if has_control_char(ps[i]) {
        control_profile_message()
    } else {
        duplicate_profile_message(ps[i])
    }
}

/// A non-empty list of profiles, none blank, none with a control character, no two equal.
pub open spec fn profiles_valid(ps: Seq<Seq<char>>) -> bool {
    ps.len() > 0 && forall|i: int| 0 <= i < ps.len() ==> !profile_bad_at(ps, i)
}

/// The error `validate_profiles` reports: for an empty list, that one; otherwise the problem
/// of the first bad profile.
pub open spec fn profiles_outcome_ok(ps: Seq<Seq<char>>, r: Result<(), HawkError>) -> bool {
    &&& (r is Ok <==> profiles_valid(ps))
    &&& ps.len() == 0 ==> fails_validation(r, empty_list_message())
    &&& (ps.len() > 0 && r is Err) ==> exists|k: int|
        0 <= k < ps.len() && profile_bad_at(ps, k) && (forall|i: int|
            0 <= i < k ==> !profile_bad_at(ps, i)) && fails_validation(
            r,
            profile_problem_message(ps, k),
        )
}

/// Whether `p` is blank or holds a control character; the message when it does.
fn single_profile_problem(p: &String) -> (r: Option<String>)
    ensures
        r is Some <==> (all_white_space(p@) || has_control_char(p@)),
        r matches Some(m) ==> (all_white_space(p@) ==> m@ == blank_profile_message()) && (
        !all_white_space(p@) ==> m@ == control_profile_message()),
{
    let v = chars_of(p.as_str());
    let t = trim_chars(&v);
    proof {
        lemma_trimmed_empty(v@);
    }
    if t.len() == 0 {
        return Some(String::from_str("profile names must not be empty"));
    }
    let mut i: usize = 0;
    while i < v.len()
        invariant
            v@ == p@,
            i <= v@.len(),
            forall|k: int| 0 <= k < i ==> !is_control_char(#[trigger] v@[k]),
            !all_white_space(v@),
        decreases v@.len() - i,
    {
        if char_is_control(v[i]) {
            return Some(String::from_str("profile names must not contain control characters"));
        }
        i = i + 1;
    }
    None
}

/// Checks the ordered profile list: at least one profile, none blank or holding a control
/// character, no duplicates.
pub fn validate_profiles(profiles: &[String]) -> (r: Result<(), HawkError>)
    ensures
        profiles_outcome_ok(texts(profiles@), r),
{
    let ghost ps = texts(profiles@);
    if profiles.len() == 0 {
        return Err(validation_error("at least one profile is required"));
    }
    let mut i: usize = 0;
    while i < profiles.len()
        invariant
            ps == texts(profiles@),
            ps.len() == profiles@.len(),
            i <= ps.len(),
            forall|k: int| 0 <= k < i ==> !profile_bad_at(ps, k),
        decreases ps.len() - i,
    {
        assert(ps[i as int] == profiles@[i as int]@);
        match single_profile_problem(&profiles[i]) {
            Some(m) => {
                let e = HawkError::Validation(m);
                assert(profile_bad_at(ps, i as int));
                assert(is_validation(e, profile_problem_message(ps, i as int)));
                return Err(e);
            },
            None => {},
        }
        let mut j: usize = 0;
        while j < i
            invariant
                ps == texts(profiles@),
                ps.len() == profiles@.len(),
                j <= i < ps.len(),
                forall|k: int| 0 <= k < j ==> ps[k] != ps[i as int],
                !all_white_space(ps[i as int]),
                !has_control_char(ps[i as int]),
                forall|k: int| 0 <= k < i ==> !profile_bad_at(ps, k),
            decreases i - j,
        {
            assert(ps[j as int] == profiles@[j as int]@);
            if profiles[j] == profiles[i] {
                let q = debug_quoted(profiles[i].as_str());
                let mut m = String::from_str("profile ");
                m.append(q.as_str());
                m.append(" is duplicated; profiles must be unique");
                let e = HawkError::Validation(m);
                assert(ps[j as int] == ps[i as int]);
                assert(repeats_earlier(ps, i as int));
                assert(is_validation(e, profile_problem_message(ps, i as int)));
                let r: Result<(), HawkError> = Err(e);
                assert(profile_bad_at(ps, i as int) && (forall|k: int|
                    0 <= k < i ==> !profile_bad_at(ps, k)) && fails_validation(
                    r,
                    profile_problem_message(ps, i as int),
                ));
                return r;
            }
            j = j + 1;
        }
        assert(!repeats_earlier(ps, i as int));
        i = i + 1;
    }
    Ok(())
}

/// Accepts exactly the current schema version.
pub fn ensure_version(record: &str, found: u32) -> (r: Result<(), HawkError>)
    ensures
        found == SCHEMA_VERSION <==> r is Ok,
        found != SCHEMA_VERSION ==> fails_version(r, record@, found),
{
    if found == SCHEMA_VERSION {
        Ok(())
    } else {
        Err(HawkError::UnsupportedVersion { record: String::from_str(record), found, expected: SCHEMA_VERSION })
    }
}

/// Whether std's `Path::is_absolute` holds of the path text `p` on this platform.
pub uninterp spec fn path_is_absolute(p: Seq<char>) -> bool;

/// `Path::new(p).is_absolute()`.
#[verifier::external_body]
pub(crate) fn is_absolute_path(p: &str) -> (b: bool)
    ensures
        b == path_is_absolute(p@),
{
    std::path::Path::new(p).is_absolute()
}

/// One applied configuration: the ordered profiles, the daily time, the NetBird executable
/// and when it was activated (Unix milliseconds).
pub struct DesiredConfig {
    pub schema_version: u32,
    pub generation: GenerationId,
    pub profiles: Vec<String>,
    pub local_time: LocalTime,
    pub netbird_executable: String,
    pub activated_at: i64,
}

pub open spec fn executable_message() -> Seq<char> {
    "the saved NetBird executable path must be absolute"@
}

/// The checks a stored configuration must pass, in order: schema version, profiles, an
/// absolute executable path.
pub open spec fn config_valid(c: DesiredConfig) -> bool {
    c.schema_version == SCHEMA_VERSION && profiles_valid(texts(c.profiles@)) && path_is_absolute(
        c.netbird_executable@,
    )
}

/// Two configurations with the same fields, the profile lists compared by their contents.
pub open spec fn same_config(a: DesiredConfig, b: DesiredConfig) -> bool {
    &&& a.schema_version == b.schema_version
    &&& a.generation == b.generation
    &&& a.profiles@ == b.profiles@
    &&& a.local_time == b.local_time
    &&& a.netbird_executable == b.netbird_executable
    &&& a.activated_at == b.activated_at
}

impl DesiredConfig {
    pub fn validate(&self) -> (r: Result<(), HawkError>)
        ensures
            r is Ok <==> config_valid(*self),
            self.schema_version != SCHEMA_VERSION ==> fails_version(
                r,
                "desired configuration"@,
                self.schema_version,
            ),
            self.schema_version == SCHEMA_VERSION ==> (r is Err && !profiles_valid(
                texts(self.profiles@),
            ) ==> profiles_outcome_ok(texts(self.profiles@), r)),
            self.schema_version == SCHEMA_VERSION && profiles_valid(texts(self.profiles@))
                && !path_is_absolute(self.netbird_executable@) ==> fails_validation(
                r,
                executable_message(),
            ),
    {
        ensure_version("desired configuration", self.schema_version)?;
        validate_profiles(self.profiles.as_slice())?;
        if !is_absolute_path(self.netbird_executable.as_str()) {
            return Err(validation_error("the saved NetBird executable path must be absolute"));
        }
        Ok(())
    }

    pub fn duplicate(&self) -> (c: DesiredConfig)
        ensures
            same_config(c, *self),
    {
        DesiredConfig {
            schema_version: self.schema_version,
            generation: self.generation,
            profiles: clone_strings(&self.profiles),
            local_time: self.local_time,
            netbird_executable: self.netbird_executable.clone(),
            activated_at: self.activated_at,
        }
    }
}

#[derive(Clone, Copy, Debug, PartialEq, Eq, Structural)]
pub enum DesiredRunState {
    Running,
    Stopped,
}

/// What the controller last asked of the daemon.
pub struct ControlIntent {
    pub schema_version: u32,
    pub desired: DesiredRunState,
    pub generation: Option<GenerationId>,
    pub requested_at: i64,
}

impl ControlIntent {
    pub fn validate(&self) -> (r: Result<(), HawkError>)
        ensures
            r is Ok <==> self.schema_version == SCHEMA_VERSION,
            self.schema_version != SCHEMA_VERSION ==> fails_version(r, "control intent"@, self.schema_version),
    {
        ensure_version("control intent", self.schema_version)
    }
}

#[derive(Clone, Copy, Debug, PartialEq, Eq, Structural)]
pub enum LifecycleState {
    Starting,
    Running,
    Degraded,
    Stopped,
}

pub open spec fn lifecycle_label(s: LifecycleState) -> Seq<char> {
    match s {
        LifecycleState::Starting => "starting"@,
        LifecycleState::Running => "running"@,
        LifecycleState::Degraded => "degraded"@,
        LifecycleState::Stopped => "stopped"@,
    }
}

impl LifecycleState {
    /// The lower-case name shown in status reports.
    pub fn label(&self) -> (s: String)
        ensures
            s@ == lifecycle_label(*self),
    {
        match self {
            LifecycleState::Starting => String::from_str("starting"),
            LifecycleState::Running => String::from_str("running"),
            LifecycleState::Degraded => String::from_str("degraded"),
            LifecycleState::Stopped => String::from_str("stopped"),
        }
    }
}

#[derive(Clone, Copy, Debug, PartialEq, Eq, Structural)]
pub enum ErrorCategory {
    ExecutableMissing,
    CommandFailed,
    TimedOut,
    MalformedStatus,
    StateIo,
    Configuration,
    Internal,
}

/// A NetBird failure reduced to an allow-listed category, a fixed message, an exit code and
/// a timeout flag: never raw command output.
#[derive(Clone, Debug)]
pub struct SanitizedError {
    pub category: ErrorCategory,
    pub message: String,
    pub exit_code: Option<i32>,
    pub timed_out: bool,
}

pub open spec fn failed_message(operation: Seq<char>) -> Seq<char> {
    "NetBird "@ + operation + " failed"@
}

pub open spec fn timed_out_message(operation: Seq<char>) -> Seq<char> {
    "NetBird "@ + operation + " timed out"@
}

impl SanitizedError {
    pub fn command_failed(operation: &str, exit_code: Option<i32>) -> (e: SanitizedError)
        ensures
            e.category == ErrorCategory::CommandFailed,
            e.message@ == failed_message(operation@),
            e.exit_code == exit_code,
            !e.timed_out,
    {
        let mut message = String::from_str("NetBird ");
        message.append(operation);
        message.append(" failed");
        SanitizedError { category: ErrorCategory::CommandFailed, message, exit_code, timed_out: false }
    }

    pub fn timed_out(operation: &str) -> (e: SanitizedError)
        ensures
            e.category == ErrorCategory::TimedOut,
            e.message@ == timed_out_message(operation@),
            e.exit_code is None,
            e.timed_out,
    {
        let mut message = String::from_str("NetBird ");
        message.append(operation);
        message.append(" timed out");
        SanitizedError { category: ErrorCategory::TimedOut, message, exit_code: None, timed_out: true }
    }

    pub fn malformed_status(reason: String) -> (e: SanitizedError)
        ensures
            e.category == ErrorCategory::MalformedStatus,
            e.message == reason,
            e.exit_code is None,
            !e.timed_out,
    {
        SanitizedError { category: ErrorCategory::MalformedStatus, message: reason, exit_code: None, timed_out: false }
    }

    pub fn duplicate(&self) -> (e: SanitizedError)
        ensures
            e == *self,
    {
        SanitizedError {
            category: self.category,
            message: self.message.clone(),
            exit_code: self.exit_code,
            timed_out: self.timed_out,
        }
    }
}

pub fn clone_opt_error(o: &Option<SanitizedError>) -> (r: Option<SanitizedError>)
    ensures
        r == *o,
{
    match o {
        Some(e) => Some(e.duplicate()),
        None => None,
    }
}

#[derive(Clone, Copy, Debug, PartialEq, Eq, Structural)]
pub enum JournalOutcome {
    PendingDiscovery,
    InProgress,
    Success,
    Superseded,
    Failed,
}

pub open spec fn outcome_terminal(o: JournalOutcome) -> bool {
    o is Success || o is Superseded || o is Failed
}

impl JournalOutcome {
    pub fn is_terminal(self) -> (b: bool)
        ensures
            b == outcome_terminal(self),
    {
        match self {
            JournalOutcome::Success | JournalOutcome::Superseded | JournalOutcome::Failed => true,
            _ => false,
        }
    }
}

/// The durable record of one occurrence (a generation and a local date): the profile found
/// before selecting, the intended target, attempts so far and the outcome.
#[derive(Debug)]
pub struct ExecutionJournal {
    pub schema_version: u32,
    pub generation: GenerationId,
    pub local_date: LocalDate,
    pub original_profile: Option<String>,
    pub intended_target: Option<String>,
    pub attempts: u32,
    pub outcome: JournalOutcome,
    pub next_retry_at: Option<i64>,
    pub last_error: Option<SanitizedError>,
    pub updated_at: i64,
}

pub open spec fn in_progress_message() -> Seq<char> {
    "an in-progress journal requires original and target profiles"@
}

/// A journal of the current schema that, when in progress, names both profiles.
pub open spec fn journal_valid(j: ExecutionJournal) -> bool {
    j.schema_version == SCHEMA_VERSION && (j.outcome is InProgress ==> j.original_profile is Some
        && j.intended_target is Some)
}

impl ExecutionJournal {
    pub fn validate(&self) -> (r: Result<(), HawkError>)
        ensures
            r is Ok <==> journal_valid(*self),
            self.schema_version != SCHEMA_VERSION ==> fails_version(r, "execution journal"@, self.schema_version),
            self.schema_version == SCHEMA_VERSION && !journal_valid(*self) ==> fails_validation(
                r,
                in_progress_message(),
            ),
    {
        ensure_version("execution journal", self.schema_version)?;
        let in_progress = match self.outcome {
            JournalOutcome::InProgress => true,
            _ => false,
        };
        if in_progress && (self.original_profile.is_none() || self.intended_target.is_none()) {
            return Err(validation_error("an in-progress journal requires original and target profiles"));
        }
        Ok(())
    }

    pub fn duplicate(&self) -> (j: ExecutionJournal)
        ensures
            j == *self,
    {
        ExecutionJournal {
            schema_version: self.schema_version,
            generation: self.generation,
            local_date: self.local_date,
            original_profile: clone_opt_string(&self.original_profile),
            intended_target: clone_opt_string(&self.intended_target),
            attempts: self.attempts,
            outcome: self.outcome,
            next_retry_at: self.next_retry_at,
            last_error: clone_opt_error(&self.last_error),
            updated_at: self.updated_at,
        }
    }
}

/// What the daemon last published about itself.
pub struct RuntimeSnapshot {
    pub schema_version: u32,
    pub state: LifecycleState,
    pub applied_generation: Option<GenerationId>,
    pub pid: Option<u32>,
    pub profiles: Vec<String>,
    pub local_time: Option<LocalTime>,
    pub active_profile: Option<String>,
    pub next_profile: Option<String>,
    pub next_local_occurrence: Option<String>,
    pub last_result: Option<String>,
    pub last_error: Option<SanitizedError>,
    pub updated_at: i64,
}

impl RuntimeSnapshot {
    pub fn validate(&self) -> (r: Result<(), HawkError>)
        ensures
            r is Ok <==> self.schema_version == SCHEMA_VERSION,
            self.schema_version != SCHEMA_VERSION ==> fails_version(r, "runtime snapshot"@, self.schema_version),
    {
        ensure_version("runtime snapshot", self.schema_version)
    }

    /// The snapshot of a daemon that is not running, stamped with the current time.
    pub fn stopped() -> (s: RuntimeSnapshot)
        ensures
            s.schema_version == SCHEMA_VERSION,
            s.state == LifecycleState::Stopped,
            s.applied_generation is None,
            s.pid is None,
            s.profiles@.len() == 0,
            s.local_time is None,
            s.active_profile is None,
            s.next_profile is None,
            s.next_local_occurrence is None,
            s.last_result is None,
            s.last_error is None,
    {
        RuntimeSnapshot {
            schema_version: SCHEMA_VERSION,
            state: LifecycleState::Stopped,
            applied_generation: None,
            pid: None,
            profiles: Vec::new(),
            local_time: None,
            active_profile: None,
            next_profile: None,
            next_local_occurrence: None,
            last_result: None,
            last_error: None,
            updated_at: utc_now_ms(),
        }
    }
}

/// The normalized text of a time reads back as the same time: `to_text` and `parse` are
/// inverse on every valid time.
pub proof fn lemma_time_text_round_trip(hour: int, minute: int)
    requires
        0 <= hour < 24,
        0 <= minute < 60,
    ensures
        time_shape_ok(local_time_text(hour, minute)),
        time_hour_of(local_time_text(hour, minute)) == hour,
        time_minute_of(local_time_text(hour, minute)) == minute,
{
    reveal_strlit(":");
    let s = local_time_text(hour, minute);
    assert(s.len() == 5);
    assert(s[0] == (('0' as u32) + hour / 10) as char);
    assert(s[1] == (('0' as u32) + hour % 10) as char);
    assert(s[2] == ':');
    assert(s[3] == (('0' as u32) + minute / 10) as char);
    assert(s[4] == (('0' as u32) + minute % 10) as char);
    assert(s[0] != ':' && s[1] != ':');
    assert(first_index_from(s, ':', 2) == 2);
    assert(first_index_from(s, ':', 1) == 2);
    assert(colon_at(s) == 2);
    let hs = s.subrange(0, 2);
    let ms = s.subrange(3, 5);
    assert(all_digits(hs));
    assert(all_digits(ms));
    assert(hs.drop_last() =~= seq![hs[0]]);
    assert(seq![hs[0]].drop_last() =~= Seq::<char>::empty());
    assert(ms.drop_last() =~= seq![ms[0]]);
    assert(seq![ms[0]].drop_last() =~= Seq::<char>::empty());
    assert(digits_value(Seq::<char>::empty()) == 0);
    assert(digits_value(seq![hs[0]]) == hour / 10);
    assert(digits_value(hs) == (hour / 10) * 10 + hour % 10);
    assert(digits_value(seq![ms[0]]) == minute / 10);
    assert(digits_value(ms) == (minute / 10) * 10 + minute % 10);
}

} // verus!
