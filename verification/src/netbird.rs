//! The NetBird command contract: the argument lists, reading the active profile from
//! `netbird status --json` or `netbird status`, and reducing every failure to a sanitized
//! error. Running the commands themselves is the caller's part.
use crate::error::{fails_validation, validation_error, HawkError};
use crate::model::{
    failed_message, is_absolute_path, path_is_absolute, timed_out_message, ErrorCategory, SanitizedError,
};
use crate::text::{
    chars_equal, chars_of, find_char, first_index_from, lemma_first_index_from, slice_chars,
    string_from_chars, trim_chars, trimmed,
};
use vstd::prelude::*;

verus! {

pub const DEFAULT_COMMAND_TIMEOUT_MS: u64 = 15000;

/// `["status", "--json"]`.
pub fn json_status_arguments() -> (args: Vec<String>)
    ensures
        args@.len() == 2,
        args@[0]@ == "status"@,
        args@[1]@ == "--json"@,
{
    let mut args: Vec<String> = Vec::new();
    args.push(String::from_str("status"));
    args.push(String::from_str("--json"));
    args
}

/// `["status"]`.
pub fn status_arguments() -> (args: Vec<String>)
    ensures
        args@.len() == 1,
        args@[0]@ == "status"@,
{
    let mut args: Vec<String> = Vec::new();
    args.push(String::from_str("status"));
    args
}

/// `["profile", "select", target]`: the target is one argument of its own, never shell text.
pub fn select_arguments(target: &str) -> (args: Vec<String>)
    ensures
        args@.len() == 3,
        args@[0]@ == "profile"@,
        args@[1]@ == "select"@,
        args@[2]@ == target@,
{
    let mut args: Vec<String> = Vec::new();
    args.push(String::from_str("profile"));
    args.push(String::from_str("select"));
    args.push(String::from_str(target));
    args
}

/// How a NetBird process ended: whether it succeeded, its exit code, and what it wrote.
pub struct CommandOutput {
    pub success: bool,
    pub exit_code: Option<i32>,
    pub stdout: Vec<u8>,
    pub stderr: Vec<u8>,
}

/// Why a NetBird process gave no output: it could not be run, or it outlived the timeout.
pub enum CommandRunError {
    Io(String),
    TimedOut,
}

/// Runs NetBird with tokio's process support (the running is done outside the library).
#[derive(Clone, Copy, Debug, Default)]
pub struct TokioCommandRunner;

/// A runner failure as a sanitized error: a timeout, or a failure without exit code.
pub fn sanitize_runner_error(operation: &str, error: &CommandRunError) -> (e: SanitizedError)
    ensures
        error is TimedOut ==> e.category == ErrorCategory::TimedOut && e.message@ == timed_out_message(
            operation@,
        ) && e.exit_code is None && e.timed_out,
        error is Io ==> e.category == ErrorCategory::CommandFailed && e.message@ == failed_message(
            operation@,
        ) && e.exit_code is None && !e.timed_out,
{
    match error {
        CommandRunError::TimedOut => SanitizedError::timed_out(operation),
        CommandRunError::Io(_) => SanitizedError::command_failed(operation, None),
    }
}

/// `e` is how the controller reports the sanitized failure `error`: a timeout, an unusable
/// status with its message, or a failed command with its exit code.
pub open spec fn reports_operational(error: SanitizedError, e: HawkError) -> bool {
    &&& error.timed_out ==> (e matches HawkError::NetbirdTimeout { operation } && operation@ == "command"@)
    &&& !error.timed_out && error.category == ErrorCategory::MalformedStatus ==> (e matches HawkError::NetbirdStatus(
        m,
    ) && m == error.message)
    &&& !error.timed_out && error.category != ErrorCategory::MalformedStatus ==> (e matches HawkError::NetbirdCommand {
        operation,
        exit_code,
    } && operation@ == "command"@ && exit_code == error.exit_code)
}

/// A sanitized NetBird failure as the controller reports it.
pub fn operational_error(error: &SanitizedError) -> (e: HawkError)
    ensures
        reports_operational(*error, e),
{
    if error.timed_out {
        HawkError::NetbirdTimeout { operation: String::from_str("command") }
    } else if error.category == ErrorCategory::MalformedStatus {
        HawkError::NetbirdStatus(error.message.clone())
    } else {
        HawkError::NetbirdCommand { operation: String::from_str("command"), exit_code: error.exit_code }
    }
}

// ---------------------------------------------------------------------------------------
// The human-readable `Profile:` field.
/// `l` without one trailing carriage return.
pub open spec fn strip_cr(l: Seq<char>) -> Seq<char> {
    if l.len() > 0 && l.last() == '\r' {
        l.drop_last()
    } else {
        l
    }
}

/// The line starting at `i`, as `str::lines` yields it: up to the next newline, a `\r`
/// before that newline removed.
pub open spec fn line_at(s: Seq<char>, i: int) -> Seq<char> {
    let e = first_index_from(s, '\n', i);
    if e < s.len() {
        strip_cr(s.subrange(i, e))
    } else {
        s.subrange(i, e)
    }
}

/// The lines of `s` from position `i` on, as `str::lines` splits them.
pub open spec fn lines_from(s: Seq<char>, i: int) -> Seq<Seq<char>>
    decreases s.len() - i,
    via lines_from_decreases
{
    if i < 0 || i >= s.len() {
        seq![]
    } else {
        if first_index_from(s, '\n', i) < s.len() {
            seq![line_at(s, i)] + lines_from(s, first_index_from(s, '\n', i) + 1)
        } else {
            seq![line_at(s, i)]
        }
    }
}

#[via_fn]
proof fn lines_from_decreases(s: Seq<char>, i: int) {
    if !(i < 0 || i >= s.len()) {
        lemma_first_index_from(s, '\n', i);
    }
}

/// The value of a `Profile:` line: the text before its first colon, trimmed, is `Profile`;
/// the value is the text after that colon, trimmed.
pub open spec fn line_profile_value(l: Seq<char>) -> Option<Seq<char>> {
    let p = first_index_from(l, ':', 0);
    if p < l.len() && trimmed(l.subrange(0, p)) == "Profile"@ {
        Some(trimmed(l.subrange(p + 1, l.len() as int)))
    } else {
        None
    }
}

/// The values of all `Profile:` lines, in order.
pub open spec fn profile_values(ls: Seq<Seq<char>>) -> Seq<Seq<char>>
    decreases ls.len(),
{
    if ls.len() == 0 {
        seq![]
    } else {
        let init = profile_values(ls.drop_last());
        match line_profile_value(ls.last()) {
            Some(v) => init.push(v),
            None => init,
        }
    }
}

pub open spec fn missing_profile_message() -> Seq<char> {
    "the Profile field was missing"@
}

pub open spec fn empty_profile_message() -> Seq<char> {
    "the Profile field was empty"@
}

pub open spec fn repeated_profile_message() -> Seq<char> {
    "more than one Profile field was returned"@
}

/// What reading the `Profile:` field of `s` gives, line by line: the first field's value,
/// unless it is empty or a second field follows (an empty second field is reported as
/// empty).
pub open spec fn profile_field(s: Seq<char>) -> Result<Seq<char>, Seq<char>> {
    let vals = profile_values(lines_from(s, 0));
    if vals.len() == 0 {
        Err(missing_profile_message())
    } else if vals[0].len() == 0 {
        Err(empty_profile_message())
    } else if vals.len() == 1 {
        Ok(vals[0])
    } else if vals[1].len() == 0 {
        Err(empty_profile_message())
    } else {
        Err(repeated_profile_message())
    }
}

pub open spec fn text_result(r: Result<String, String>) -> Result<Seq<char>, Seq<char>> {
    match r {
        Ok(v) => Ok(v@),
        Err(m) => Err(m@),
    }
}

proof fn lemma_first_index_is(s: Seq<char>, c: char, from: int, to: int)
    requires
        0 <= from <= to <= s.len(),
        forall|k: int| from <= k < to ==> s[k] != c,
        to < s.len() ==> s[to] == c,
    ensures
        first_index_from(s, c, from) == to,
    decreases to - from,
{
    if from < to {
        lemma_first_index_is(s, c, from + 1, to);
    }
}

/// The `Profile:` value of one line, if it is a `Profile:` line.
fn line_value(l: &Vec<char>) -> (r: Option<Vec<char>>)
    ensures
        match r {
            Some(v) => line_profile_value(l@) == Some(v@),
            None => line_profile_value(l@) is None,
        },
{
    let p = find_char(l, ':', 0);
    if p >= l.len() {
        return None;
    }
    let field = slice_chars(l, 0, p);
    let field = trim_chars(&field);
    let expected = chars_of("Profile");
    proof {
        reveal_strlit("Profile");
    }
    if !chars_equal(&field, &expected) {
        return None;
    }
    let value = slice_chars(l, p + 1, l.len());
    Some(trim_chars(&value))
}

/// The `Profile:` values of the lines of `output`, in order.
fn profile_values_of(s: &Vec<char>) -> (vals: Vec<Vec<char>>)
    ensures
        vals@.map_values(|v: Vec<char>| v@) == profile_values(lines_from(s@, 0)),
{
    let n = s.len();
    let mut vals: Vec<Vec<char>> = Vec::new();
    let ghost mut done: Seq<Seq<char>> = seq![];
    let mut start: usize = 0;
    let mut i: usize = 0;
    while i < n
        invariant
            n == s@.len(),
            start <= i <= n,
            forall|k: int| start <= k < i ==> s@[k] != '\n',
            done + lines_from(s@, start as int) == lines_from(s@, 0),
            vals@.map_values(|v: Vec<char>| v@) == profile_values(done),
        decreases n - i,
    {
        if s[i] == '\n' {
            proof {
                lemma_first_index_is(s@, '\n', start as int, i as int);
            }
            let mut end = i;
            if end > start && s[end - 1] == '\r' {
                end = end - 1;
            }
            let line = slice_chars(s, start, end);
            assert(line@ == line_at(s@, start as int));
            let ghost old_vals = vals@.map_values(|v: Vec<char>| v@);
            match line_value(&line) {
                Some(v) => {
                    vals.push(v);
                    assert(vals@.map_values(|v: Vec<char>| v@) =~= old_vals.push(v@));
                },
                None => {},
            }
            proof {
                assert(lines_from(s@, start as int) == seq![line_at(s@, start as int)] + lines_from(
                    s@,
                    i + 1,
                ));
                assert((done.push(line@)).drop_last() =~= done);
                assert(done.push(line@) + lines_from(s@, i + 1) =~= done + lines_from(s@, start as int));
                done = done.push(line@);
            }
            start = i + 1;
        }
        i = i + 1;
    }
    if start < n {
        proof {
            lemma_first_index_is(s@, '\n', start as int, n as int);
        }
        let line = slice_chars(s, start, n);
        assert(line@ == line_at(s@, start as int));
        let ghost old_vals = vals@.map_values(|v: Vec<char>| v@);
        match line_value(&line) {
            Some(v) => {
                vals.push(v);
                assert(vals@.map_values(|v: Vec<char>| v@) =~= old_vals.push(v@));
            },
            None => {},
        }
        proof {
            assert(lines_from(s@, start as int) == seq![line_at(s@, start as int)]);
            assert((done.push(line@)).drop_last() =~= done);
            assert(done.push(line@) =~= done + lines_from(s@, start as int));
            done = done.push(line@);
        }
    }
    vals
}

/// Extracts the single, non-empty value of the `Profile:` field from `netbird status`
/// output, independent of the order of the other lines.
pub fn parse_active_profile(output: &str) -> (r: Result<String, String>)
    ensures
        text_result(r) == profile_field(output@),
{
    let s = chars_of(output);
    let vals = profile_values_of(&s);
    if vals.len() == 0 {
        return Err(String::from_str("the Profile field was missing"));
    }
    assert(vals@[0]@ == profile_values(lines_from(s@, 0))[0]);
    if vals[0].len() == 0 {
        return Err(String::from_str("the Profile field was empty"));
    }
    if vals.len() == 1 {
        return Ok(string_from_chars(&vals[0]));
    }
    assert(vals@[1]@ == profile_values(lines_from(s@, 0))[1]);
    if vals[1].len() == 0 {
        return Err(String::from_str("the Profile field was empty"));
    }
    Err(String::from_str("more than one Profile field was returned"))
}

// ---------------------------------------------------------------------------------------
// The structured `profileName` field.
/// What serde_json makes of `bytes` and the member `key`: `None` when `bytes` is not JSON;
/// `Some(None)` when the document has no string member `key` at its top level (not an
/// object, no such member, or not a string); `Some(Some(text))` otherwise.
pub uninterp spec fn serde_json_string_member(bytes: Seq<u8>, key: Seq<char>) -> Option<Option<Seq<char>>>;

/// The string member `key` of a JSON document, as serde_json reads it.
pub enum JsonMember {
    InvalidJson,
    NotAString,
    Text(String),
}

pub open spec fn json_member_view(m: JsonMember) -> Option<Option<Seq<char>>> {
    match m {
        JsonMember::InvalidJson => None,
        JsonMember::NotAString => Some(None),
        JsonMember::Text(t) => Some(Some(t@)),
    }
}

/// `serde_json::from_slice::<Value>`, then `Value::get(key)` and `Value::as_str`.
#[verifier::external_body]
fn json_string_member(bytes: &[u8], key: &str) -> (m: JsonMember)
    ensures
        json_member_view(m) == serde_json_string_member(bytes@, key@),
{
    match serde_json::from_slice::<serde_json::Value>(bytes) {
        Err(_) => JsonMember::InvalidJson,
        Ok(value) => match value.get(key).and_then(serde_json::Value::as_str) {
            None => JsonMember::NotAString,
            Some(text) => JsonMember::Text(text.to_owned()),
        },
    }
}

pub open spec fn invalid_json_message() -> Seq<char> {
    "structured status was invalid JSON"@
}

pub open spec fn omitted_profile_name_message() -> Seq<char> {
    "structured status omitted profileName"@
}

pub open spec fn empty_profile_name_message() -> Seq<char> {
    "structured status contained an empty profileName"@
}

/// What the `profileName` member yields: its trimmed text, unless the document was not JSON,
/// had no string `profileName`, or the text is blank.
pub open spec fn profile_from_member(m: Option<Option<Seq<char>>>) -> Result<Seq<char>, Seq<char>> {
    match m {
        None => Err(invalid_json_message()),
        Some(None) => Err(omitted_profile_name_message()),
        Some(Some(t)) => if trimmed(t).len() == 0 {
            Err(empty_profile_name_message())
        } else {
            Ok(trimmed(t))
        },
    }
}

/// The active profile from the `profileName` member serde_json found.
pub fn profile_from_json_member(member: JsonMember) -> (r: Result<String, String>)
    ensures
        text_result(r) == profile_from_member(json_member_view(member)),
{
    match member {
        JsonMember::InvalidJson => Err(String::from_str("structured status was invalid JSON")),
        JsonMember::NotAString => Err(String::from_str("structured status omitted profileName")),
        JsonMember::Text(t) => {
            let v = chars_of(t.as_str());
            let trimmed_value = trim_chars(&v);
            if trimmed_value.len() == 0 {
                Err(String::from_str("structured status contained an empty profileName"))
            } else {
                Ok(string_from_chars(&trimmed_value))
            }
        },
    }
}

/// Reads the documented `profileName` member of `netbird status --json` output.
pub fn parse_json_active_profile(output: &[u8]) -> (r: Result<String, String>)
    ensures
        text_result(r) == profile_from_member(serde_json_string_member(output@, "profileName"@)),
{
    let member = json_string_member(output, "profileName");
    profile_from_json_member(member)
}

// ---------------------------------------------------------------------------------------
// Deciding on command results.
/// The text `String::from_utf8_lossy` makes of `bytes` (invalid sequences become U+FFFD).
pub uninterp spec fn utf8_lossy_text(bytes: Seq<u8>) -> Seq<char>;

/// `String::from_utf8_lossy(bytes).into_owned()`.
#[verifier::external_body]
fn utf8_lossy(bytes: &[u8]) -> (s: String)
    ensures
        s@ == utf8_lossy_text(bytes@),
{
    String::from_utf8_lossy(bytes).into_owned()
}

/// After `netbird status --json`: either the answer, or the text status must be tried.
pub enum StatusStep {
    Done(Result<String, SanitizedError>),
    TryTextStatus,
}

/// The decision after the structured status command: a usable `profileName` answers; a
/// timeout or a failure to run is final; anything else falls back to the text status.
pub fn after_json_status(result: &Result<CommandOutput, CommandRunError>) -> (step: StatusStep)
    ensures
        match result {
            Ok(out) => if out.success && profile_from_member(
                serde_json_string_member(out.stdout@, "profileName"@),
            ) is Ok {
                step matches StatusStep::Done(Ok(p)) && Ok::<Seq<char>, Seq<char>>(p@) == profile_from_member(
                    serde_json_string_member(out.stdout@, "profileName"@),
                )
            } else {
                step is TryTextStatus
            },
            Err(CommandRunError::TimedOut) => step matches StatusStep::Done(Err(e)) && e.timed_out
                && e.category == ErrorCategory::TimedOut && e.message@ == timed_out_message("status"@),
            Err(CommandRunError::Io(_)) => step matches StatusStep::Done(Err(e)) && !e.timed_out
                && e.category == ErrorCategory::CommandFailed && e.message@ == failed_message(
                "status"@,
            ) && e.exit_code is None,
        },
{
    match result {
        Ok(out) => {
            if out.success {
                match parse_json_active_profile(out.stdout.as_slice()) {
                    Ok(p) => {
                        return StatusStep::Done(Ok(p));
                    },
                    Err(_) => {},
                }
            }
            StatusStep::TryTextStatus
        },
        Err(CommandRunError::TimedOut) => StatusStep::Done(Err(SanitizedError::timed_out("status"))),
        Err(CommandRunError::Io(_)) => StatusStep::Done(Err(SanitizedError::command_failed("status", None))),
    }
}

/// What the text status command yields: a runner failure or an unsuccessful exit is
/// reported without output; otherwise the `Profile:` field decides.
pub open spec fn text_status_outcome(result: Result<CommandOutput, CommandRunError>, r: Result<String, SanitizedError>) -> bool {
    match result {
        Err(error) => r matches Err(e) && e.exit_code is None && e.timed_out == (error is TimedOut) && (
        error is TimedOut ==> e.category == ErrorCategory::TimedOut && e.message@ == timed_out_message(
            "status"@,
        )) && (error is Io ==> e.category == ErrorCategory::CommandFailed && e.message@ == failed_message(
            "status"@,
        )),
        Ok(out) => if !out.success {
            r matches Err(e) && e.category == ErrorCategory::CommandFailed && e.message@ == failed_message(
                "status"@,
            ) && e.exit_code == out.exit_code && !e.timed_out
        } else {
            match profile_field(utf8_lossy_text(out.stdout@)) {
                Ok(p) => r matches Ok(v) && v@ == p,
                Err(m) => r matches Err(e) && e.category == ErrorCategory::MalformedStatus && e.message@ == m
                    && e.exit_code is None && !e.timed_out,
            }
        },
    }
}

/// The decision after the text status command.
pub fn after_text_status(result: &Result<CommandOutput, CommandRunError>) -> (r: Result<String, SanitizedError>)
    ensures
        text_status_outcome(*result, r),
{
    match result {
        Err(error) => Err(sanitize_runner_error("status", error)),
        Ok(out) => {
            if !out.success {
                return Err(SanitizedError::command_failed("status", out.exit_code));
            }
            let text = utf8_lossy(out.stdout.as_slice());
            match parse_active_profile(text.as_str()) {
                Ok(p) => Ok(p),
                Err(m) => Err(SanitizedError::malformed_status(m)),
            }
        },
    }
}

/// The decision after `netbird profile select`: success only on a successful exit.
pub fn after_select(result: &Result<CommandOutput, CommandRunError>) -> (r: Result<(), SanitizedError>)
    ensures
        r is Ok <==> (result matches Ok(out) && out.success),
        match result {
            Ok(out) => !out.success ==> (r matches Err(e) && e.category == ErrorCategory::CommandFailed
                && e.message@ == failed_message("profile selection"@) && e.exit_code == out.exit_code
                && !e.timed_out),
            Err(error) => r matches Err(e) && e.exit_code is None && e.timed_out == (error is TimedOut)
                && (error is TimedOut ==> e.category == ErrorCategory::TimedOut && e.message@ == timed_out_message(
                "profile selection"@,
            )) && (error is Io ==> e.category == ErrorCategory::CommandFailed && e.message@ == failed_message(
                "profile selection"@,
            )),
        },
{
    match result {
        Err(error) => Err(sanitize_runner_error("profile selection", error)),
        Ok(out) => {
            if out.success {
                Ok(())
            } else {
                Err(SanitizedError::command_failed("profile selection", out.exit_code))
            }
        },
    }
}

/// The NetBird command-line client: an absolute executable path, a command runner and a
/// timeout in milliseconds.
pub struct NetbirdClient<R> {
    executable: String,
    runner: R,
    timeout_ms: u64,
}

pub open spec fn relative_executable_message() -> Seq<char> {
    "NetBird executable path must be absolute"@
}

impl<R> NetbirdClient<R> {
    pub closed spec fn executable_view(&self) -> Seq<char> {
        self.executable@
    }

    pub closed spec fn runner_view(&self) -> R {
        self.runner
    }

    pub closed spec fn timeout_view(&self) -> u64 {
        self.timeout_ms
    }

    pub fn new(executable: String, runner: R, timeout_ms: u64) -> (r: Result<NetbirdClient<R>, HawkError>)
        ensures
            r is Ok <==> path_is_absolute(executable@),
            r matches Ok(c) ==> c.executable_view() == executable@ && c.runner_view() == runner && c.timeout_view()
                == timeout_ms,
            !path_is_absolute(executable@) ==> fails_validation(r, relative_executable_message()),
    {
        if !is_absolute_path(executable.as_str()) {
            return Err(validation_error("NetBird executable path must be absolute"));
        }
        Ok(NetbirdClient { executable, runner, timeout_ms })
    }

    pub fn executable(&self) -> (p: &str)
        ensures
            p@ == self.executable_view(),
    {
        self.executable.as_str()
    }

    pub fn runner(&self) -> (r: &R)
        ensures
            *r == self.runner_view(),
    {
        &self.runner
    }

    pub fn timeout_ms(&self) -> (t: u64)
        ensures
            t == self.timeout_view(),
    {
        self.timeout_ms
    }

    /// Switches to another NetBird executable; a relative path is refused and leaves the
    /// client unchanged.
    pub fn set_executable(&mut self, executable: &str) -> (r: Result<(), SanitizedError>)
        ensures
            r is Ok <==> path_is_absolute(executable@),
            r is Ok ==> final(self).executable_view() == executable@,
            r is Err ==> final(self).executable_view() == old(self).executable_view(),
            final(self).timeout_view() == old(self).timeout_view(),
            final(self).runner_view() == old(self).runner_view(),
            r matches Err(e) ==> e.category == ErrorCategory::Configuration && e.message@
                == "saved NetBird executable path is not absolute"@ && e.exit_code is None && !e.timed_out,
    {
        if !is_absolute_path(executable) {
            return Err(
                SanitizedError {
                    category: ErrorCategory::Configuration,
                    message: String::from_str("saved NetBird executable path is not absolute"),
                    exit_code: None,
                    timed_out: false,
                },
            );
        }
        self.executable = String::from_str(executable);
        Ok(())
    }
}

/// One of the fixed messages status discovery may report.
pub open spec fn fixed_status_message(m: Seq<char>) -> bool {
    ||| m == failed_message("status"@)
    ||| m == timed_out_message("status"@)
    ||| m == missing_profile_message()
    ||| m == empty_profile_message()
    ||| m == repeated_profile_message()
}

/// NetBird's output never reaches an error: whatever the text status command printed, an
/// error from it carries one of the fixed messages.
pub proof fn lemma_status_errors_carry_fixed_messages(
    result: Result<CommandOutput, CommandRunError>,
    r: Result<String, SanitizedError>,
)
    requires
        text_status_outcome(result, r),
        r is Err,
    ensures
        fixed_status_message(r->Err_0.message@),
{
}

} // verus!
