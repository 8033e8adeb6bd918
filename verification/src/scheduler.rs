//! Which profile comes next, and when a daily local wall time falls due.
use crate::calendar::{chrono_date_exists, chrono_tz_lookup, last_day_number, lookup, LocalDate, LocalLookup, Zone};
use crate::error::{fails_validation, validation_error, HawkError};
use crate::model::LocalTime;
use crate::text::texts;
use vstd::prelude::*;

verus! {

pub const WALL_CLOCK_GUARD_SECONDS: u64 = 5;

/// Index of the first element of `s` equal to `x` at or after `i`, or the length.
pub open spec fn seq_index_from<A>(s: Seq<A>, x: A, i: int) -> int
    decreases s.len() - i,
{
    if i >= s.len() {
        s.len() as int
    } else if i >= 0 && s[i] == x {
        i
    } else {
        seq_index_from(s, x, i + 1)
    }
}

pub proof fn lemma_seq_index_from<A>(s: Seq<A>, x: A, i: int)
    requires
        0 <= i <= s.len(),
    ensures
        i <= seq_index_from(s, x, i) <= s.len(),
        forall|k: int| i <= k < seq_index_from(s, x, i) ==> s[k] != x,
        seq_index_from(s, x, i) < s.len() ==> s[seq_index_from(s, x, i)] == x,
    decreases s.len() - i,
{
    if i < s.len() && s[i] != x {
        lemma_seq_index_from(s, x, i + 1);
    }
}

/// The position of the profile that follows `active` in circular order: the one after the
/// first match, wrapping from the last to the first; the first profile when `active` is not
/// listed.
pub open spec fn successor_index(ps: Seq<Seq<char>>, active: Seq<char>) -> int {
    let i = seq_index_from(ps, active, 0);
    if i < ps.len() {
        (i + 1) % (ps.len() as int)
    } else {
        0
    }
}

/// The profile to select after `active`.
pub fn circular_successor<'a>(profiles: &'a [String], active: &str) -> (r: Option<&'a str>)
    ensures
        r is None <==> profiles@.len() == 0,
        r matches Some(s) ==> s@ == texts(profiles@)[successor_index(texts(profiles@), active@)],
{
    let ghost ps = texts(profiles@);
    if profiles.len() == 0 {
        return None;
    }
    let a = String::from_str(active);
    let mut i: usize = 0;
    while i < profiles.len() && !(profiles[i] == a)
        invariant
            ps == texts(profiles@),
            a@ == active@,
            i <= profiles@.len(),
            seq_index_from(ps, active@, i as int) == seq_index_from(ps, active@, 0),
        decreases profiles@.len() - i,
    {
        assert(ps[i as int] == profiles@[i as int]@);
        i = i + 1;
    }
    if i < profiles.len() {
        assert(ps[i as int] == profiles@[i as int]@);
    }
    proof {
        lemma_seq_index_from(ps, active@, i as int);
    }
    let next = if i < profiles.len() {
        (i + 1) % profiles.len()
    } else {
        0
    };
    assert(ps[next as int] == profiles@[next as int]@);
    Some(profiles[next].as_str())
}

/// The profiles in a list without repetitions rotate in list order: the successor of the
/// profile at `i` is the one at `i + 1`, and the last is followed by the first.
pub proof fn lemma_rotation_follows_list_order(ps: Seq<Seq<char>>, i: int)
    requires
        0 <= i < ps.len(),
        forall|a: int, b: int| 0 <= a < b < ps.len() ==> ps[a] != ps[b],
    ensures
        successor_index(ps, ps[i]) == (i + 1) % (ps.len() as int),
        i == ps.len() - 1 ==> successor_index(ps, ps[i]) == 0,
{
    lemma_seq_index_from(ps, ps[i], 0);
    let k = seq_index_from(ps, ps[i], 0);
    if k < i {
        assert(ps[k] == ps[i]);
    }
    assert(k == i);
    let n = ps.len() as int;
    if i == n - 1 {
        assert(n % n == 0) by (nonlinear_arith)
            requires
                n > 0,
        ;
    }
}

/// The successor always names a listed profile, and a profile outside the list is followed
/// by the first one.
pub proof fn lemma_successor_is_listed(ps: Seq<Seq<char>>, active: Seq<char>)
    requires
        ps.len() > 0,
    ensures
        0 <= successor_index(ps, active) < ps.len(),
        !ps.contains(active) ==> successor_index(ps, active) == 0,
{
    lemma_seq_index_from(ps, active, 0);
    let k = seq_index_from(ps, active, 0);
    if !ps.contains(active) && k < ps.len() {
        assert(ps[k] == active);
    }
}

/// The earliest instant a zone's answer offers, if any.
pub open spec fn lookup_instant(l: LocalLookup) -> Option<i64> {
    match l {
        LocalLookup::Single(v) => Some(v),
        LocalLookup::Ambiguous(a, b) => Some(if a <= b { a } else { b }),
        LocalLookup::Gap => None,
    }
}

/// The instant of minute `m` of day `days` in the chrono-tz zone `name`, or of the first
/// later minute that exists, trying `remaining` minutes in all.
pub open spec fn named_resolution_from(name: Seq<char>, days: int, m: int, remaining: int) -> Option<i64>
    decreases remaining,
{
    if remaining <= 0 {
        None
    } else {
        match lookup_instant(chrono_tz_lookup(name, days, m / 60, m % 60)) {
            Some(v) => Some(v),
            None => if m + 1 < 1440 {
                named_resolution_from(name, days, m + 1, remaining - 1)
            } else if chrono_date_exists(days + 1) {
                named_resolution_from(name, days + 1, 0, remaining - 1)
            } else {
                None
            },
        }
    }
}

/// The instant the wall time `time` on the date numbered `days` resolves to in the chrono-tz
/// zone `name`: a repeated time uses its earliest instant, a skipped time moves forward a
/// minute at a time, six hours at most.
pub open spec fn named_occurrence(name: Seq<char>, days: int, time: LocalTime) -> Option<i64> {
    named_resolution_from(name, days, time.hh() * 60 + time.mm(), 361)
}

/// One step of resolving a wall time: the instant found, or the minute to try next.
pub enum Resolution {
    Found(i64),
    Next(LocalDate, u32),
    Exhausted,
}

/// The step after asking a zone about minute `minute` of `day`: an answer with an instant
/// yields its earliest instant; a skipped minute moves on to the following minute, across
/// midnight to the next date; past the last representable date nothing is left to try.
pub fn resolution_step(answer: LocalLookup, day: LocalDate, minute: u32) -> (r: Resolution)
    requires
        minute < 1440,
    ensures
        match lookup_instant(answer) {
            Some(v) => r == Resolution::Found(v),
            None => if minute + 1 < 1440 {
                r matches Resolution::Next(d, m) && d == day && m == minute + 1
            } else if chrono_date_exists(day.num() + 1) {
                r matches Resolution::Next(d, m) && d.num() == day.num() + 1 && m == 0
            } else {
                r is Exhausted
            },
        },
{
    match answer {
        LocalLookup::Single(v) => Resolution::Found(v),
        LocalLookup::Ambiguous(a, b) => Resolution::Found(
            if a <= b {
                a
            } else {
                b
            },
        ),
        LocalLookup::Gap => {
            if minute + 1 < 1440 {
                Resolution::Next(day, minute + 1)
            } else {
                match day.succ() {
                    Some(d) => Resolution::Next(d, 0),
                    None => Resolution::Exhausted,
                }
            }
        },
    }
}

/// Resolves a wall-clock occurrence. Ambiguous times use the earliest instant;
/// nonexistent times advance minute by minute to the first valid local instant, for at most
/// six hours. `None` when no instant was found. Each step is `resolution_step` on the zone's
/// answer, whatever the zone.
pub fn resolve_occurrence(zone: &Zone, date: LocalDate, time: LocalTime) -> (r: Option<i64>)
    ensures
        zone matches Zone::Named(name) ==> r == named_occurrence(name@, date.num(), time),
{
    let mut day = date;
    let mut m: u32 = time.hour() * 60 + time.minute();
    let mut k: u32 = 0;
    while k < 361
        invariant
            k <= 361,
            m < 1440,
            zone matches Zone::Named(name) ==> named_resolution_from(name@, day.num(), m as int, 361 - k)
                == named_occurrence(name@, date.num(), time),
        decreases 361 - k,
    {
        let answer = lookup(zone, day, m / 60, m % 60);
        match resolution_step(answer, day, m) {
            Resolution::Found(v) => {
                return Some(v);
            },
            Resolution::Next(d, next) => {
                day = d;
                m = next;
            },
            Resolution::Exhausted => {
                return None;
            },
        }
        k = k + 1;
    }
    None
}

/// The current instant (Unix milliseconds) together with the local date it falls on.
#[derive(Clone, Copy, Debug)]
pub struct LocalInstant {
    pub utc_ms: i64,
    pub date: LocalDate,
}

/// The date whose occurrence is the most recent candidate: today when today's occurrence has
/// come, otherwise yesterday (when that date exists).
pub open spec fn due_candidate_spec(today: int, today_occurrence: i64, now_ms: i64) -> Option<int> {
    if today_occurrence <= now_ms {
        Some(today)
    } else if chrono_date_exists(today - 1) {
        Some(today - 1)
    } else {
        None
    }
}

/// A candidate is due when its occurrence came after activation and its date is later than
/// the last handled date.
pub open spec fn due_accepted(candidate: int, occurrence: i64, activated_ms: i64, handled: Option<LocalDate>) -> bool {
    occurrence > activated_ms && (handled matches Some(h) ==> candidate > h.num())
}

pub fn due_candidate(today: LocalDate, today_occurrence: i64, now_ms: i64) -> (r: Option<LocalDate>)
    ensures
        (match r {
            Some(d) => Some(d.num()),
            None => None::<int>,
        }) == due_candidate_spec(today.num(), today_occurrence, now_ms),
{
    if today_occurrence <= now_ms {
        Some(today)
    } else {
        today.pred()
    }
}

pub fn accept_due(candidate: LocalDate, occurrence: i64, activated_ms: i64, handled: Option<LocalDate>) -> (r: Option<LocalDate>)
    ensures
        r is Some <==> due_accepted(candidate.num(), occurrence, activated_ms, handled),
        r matches Some(d) ==> d == candidate,
{
    let after_handled = match handled {
        Some(h) => candidate.days() > h.days(),
        None => true,
    };
    if occurrence > activated_ms && after_handled {
        Some(candidate)
    } else {
        None
    }
}

pub open spec fn gap_message() -> Seq<char> {
    "timezone contained a local-time gap longer than six hours"@
}

pub open spec fn date_overflow_message() -> Seq<char> {
    "calendar date overflow while scheduling"@
}

/// The due date a chrono-tz zone yields: `None` when a wall time could not be resolved,
/// `Some(None)` when nothing is due, `Some(Some(d))` when date `d` is due.
pub open spec fn named_latest_due(
    name: Seq<char>,
    now: LocalInstant,
    activated_ms: i64,
    time: LocalTime,
    handled: Option<LocalDate>,
) -> Option<Option<int>> {
    match named_occurrence(name, now.date.num(), time) {
        None => None,
        Some(t) => match due_candidate_spec(now.date.num(), t, now.utc_ms) {
            None => Some(None),
            Some(c) => match named_occurrence(name, c, time) {
                None => None,
                Some(o) => if due_accepted(c, o, activated_ms, handled) {
                    Some(Some(c))
                } else {
                    Some(None)
                },
            },
        },
    }
}

pub open spec fn due_outcome(r: Result<Option<LocalDate>, HawkError>) -> Option<Option<int>> {
    match r {
        Ok(Some(d)) => Some(Some(d.num())),
        Ok(None) => Some(None),
        Err(_) => None,
    }
}

/// Returns only the most recent due date, preventing historical catch-up bursts: today when
/// today's occurrence has passed, otherwise yesterday, and only when that occurrence came
/// after activation and the date was not handled yet. In every zone, today is due only when
/// activation came before now: a configuration applied after today's time first runs later.
pub fn latest_due_date(
    zone: &Zone,
    now: LocalInstant,
    activated_ms: i64,
    time: LocalTime,
    handled: Option<LocalDate>,
) -> (r: Result<Option<LocalDate>, HawkError>)
    ensures
        r matches Ok(Some(d)) ==> d.num() == now.date.num() || d.num() == now.date.num() - 1,
        r matches Ok(Some(d)) ==> (handled matches Some(h) ==> d.num() > h.num()),
        r is Err ==> fails_validation(r, gap_message()),
        r matches Ok(Some(d)) && d.num() == now.date.num() ==> activated_ms < now.utc_ms,
        zone matches Zone::Named(name) ==> due_outcome(r) == named_latest_due(
            name@,
            now,
            activated_ms,
            time,
            handled,
        ),
{
    let today = now.date;
    let today_occurrence = match resolve_occurrence(zone, today, time) {
        Some(v) => v,
        None => {
            return Err(validation_error("timezone contained a local-time gap longer than six hours"));
        },
    };
    let candidate = match due_candidate(today, today_occurrence, now.utc_ms) {
        Some(c) => c,
        None => {
            return Ok(None);
        },
    };
    let occurrence = if candidate.days() == today.days() {
        today_occurrence
    } else {
        match resolve_occurrence(zone, candidate, time) {
            Some(v) => v,
            None => {
                return Err(validation_error("timezone contained a local-time gap longer than six hours"));
            },
        }
    };
    Ok(accept_due(candidate, occurrence, activated_ms, handled))
}

/// A date's occurrence qualifies as the next one when it is still ahead of `now`, after
/// activation, and its date was not handled yet.
pub open spec fn occurrence_qualifies(
    date: int,
    occurrence: i64,
    now_ms: i64,
    activated_ms: i64,
    handled: Option<LocalDate>,
) -> bool {
    occurrence > now_ms && occurrence > activated_ms && (handled matches Some(h) ==> date > h.num())
}

/// Whether `occurrence`, the instant `date`'s wall time resolved to, is the next one: still
/// ahead of `now_ms`, after activation, and on a date not handled yet. The same test holds in
/// every zone.
pub fn qualifies(date: LocalDate, occurrence: i64, now_ms: i64, activated_ms: i64, handled: Option<LocalDate>) -> (b: bool)
    ensures
        b == occurrence_qualifies(date.num(), occurrence, now_ms, activated_ms, handled),
{
    let after_handled = match handled {
        Some(h) => date.days() > h.days(),
        None => true,
    };
    occurrence > now_ms && occurrence > activated_ms && after_handled
}

/// Every date from `from` up to (not including) `to` resolves in the named zone and does not
/// qualify.
pub open spec fn named_none_qualify(
    name: Seq<char>,
    from: int,
    to: int,
    now_ms: i64,
    activated_ms: i64,
    time: LocalTime,
    handled: Option<LocalDate>,
) -> bool {
    forall|d: int|
        from <= d < to ==> #[trigger] named_occurrence(name, d, time) is Some && !occurrence_qualifies(
            d,
            named_occurrence(name, d, time)->0,
            now_ms,
            activated_ms,
            handled,
        )
}

/// In the chrono-tz zone `name`, date `d` (not before `from`) holds the first qualifying
/// occurrence, at instant `x`: every date from `from` up to `d` resolves and does not qualify.
pub open spec fn named_next_at(
    name: Seq<char>,
    from: int,
    d: int,
    x: i64,
    now_ms: i64,
    activated_ms: i64,
    time: LocalTime,
    handled: Option<LocalDate>,
) -> bool {
    &&& from <= d
    &&& named_occurrence(name, d, time) == Some(x)
    &&& occurrence_qualifies(d, x, now_ms, activated_ms, handled)
    &&& named_none_qualify(name, from, d, now_ms, activated_ms, time, handled)
}

/// The first date that qualifies is the only one that can hold the first qualifying
/// occurrence.
proof fn lemma_first_qualifying(
    name: Seq<char>,
    from: int,
    date: int,
    occurrence: i64,
    now_ms: i64,
    activated_ms: i64,
    time: LocalTime,
    handled: Option<LocalDate>,
)
    requires
        named_next_at(name, from, date, occurrence, now_ms, activated_ms, time, handled),
    ensures
        forall|d: int, x: i64|
            #[trigger] named_next_at(name, from, d, x, now_ms, activated_ms, time, handled) ==> d == date && x
                == occurrence,
{
    assert forall|d: int, x: i64|
        #[trigger] named_next_at(name, from, d, x, now_ms, activated_ms, time, handled) implies d == date && x
            == occurrence by {
        if date < d {
            assert(named_occurrence(name, date, time) is Some);
        }
        if d < date {
            assert(named_occurrence(name, d, time) is Some);
        }
    }
}

/// The first occurrence at or after today that is still ahead, after activation, and on a
/// date not yet handled. In a chrono-tz zone it is found exactly when it exists on a
/// representable date; an error then means a date before it did not resolve.
pub fn next_occurrence(
    zone: &Zone,
    now: LocalInstant,
    activated_ms: i64,
    time: LocalTime,
    handled: Option<LocalDate>,
) -> (r: Result<i64, HawkError>)
    ensures
        r matches Ok(x) ==> x > now.utc_ms && x > activated_ms,
        r is Err ==> fails_validation(r, gap_message()) || fails_validation(r, date_overflow_message()),
        zone matches Zone::Named(name) ==> (r matches Ok(x) ==> exists|d: int|
            #[trigger] named_next_at(name@, now.date.num(), d, x, now.utc_ms, activated_ms, time, handled)),
        zone matches Zone::Named(name) ==> forall|d: int, x: i64|
            #[trigger] named_next_at(name@, now.date.num(), d, x, now.utc_ms, activated_ms, time, handled)
                && d <= last_day_number() ==> r == Ok::<i64, HawkError>(x),
{
    let mut date = now.date;
    let start_days = date.days();
    let mut days = start_days;
    loop
        invariant
            days as int == date.num(),
            chrono_date_exists(date.num()),
            start_days as int == now.date.num(),
            start_days <= days,
            zone matches Zone::Named(name) ==> named_none_qualify(
                name@,
                now.date.num(),
                date.num(),
                now.utc_ms,
                activated_ms,
                time,
                handled,
            ),
            zone matches Zone::Named(name) ==> forall|d: int, x: i64|
                #[trigger] named_next_at(name@, now.date.num(), d, x, now.utc_ms, activated_ms, time, handled)
                    ==> date.num() <= d,
        decreases i32::MAX - days,
    {
        let resolved = resolve_occurrence(zone, date, time);
        let occurrence = match resolved {
            Some(v) => v,
            None => {
                proof {
                    if let Zone::Named(name) = zone {
                        assert forall|d: int, x: i64|
                            #[trigger] named_next_at(
                                name@,
                                now.date.num(),
                                d,
                                x,
                                now.utc_ms,
                                activated_ms,
                                time,
                                handled,
                            ) implies false by {
                            if date.num() < d {
                                assert(named_occurrence(name@, date.num(), time) is Some);
                            }
                        }
                    }
                }
                return Err(validation_error("timezone contained a local-time gap longer than six hours"));
            },
        };
        if qualifies(date, occurrence, now.utc_ms, activated_ms, handled) {
            proof {
                if let Zone::Named(name) = zone {
                    lemma_first_qualifying(
                        name@,
                        now.date.num(),
                        date.num(),
                        occurrence,
                        now.utc_ms,
                        activated_ms,
                        time,
                        handled,
                    );
                }
            }
            let r: Result<i64, HawkError> = Ok(occurrence);
            proof {
                if let Zone::Named(name) = zone {
                    assert(named_next_at(
                        name@,
                        now.date.num(),
                        date.num(),
                        r->Ok_0,
                        now.utc_ms,
                        activated_ms,
                        time,
                        handled,
                    ));
                }
            }
            return r;
        }
        proof {
            if let Zone::Named(name) = zone {
                assert forall|d: int, x: i64|
                    #[trigger] named_next_at(
                        name@,
                        now.date.num(),
                        d,
                        x,
                        now.utc_ms,
                        activated_ms,
                        time,
                        handled,
                    ) implies date.num() < d by {
                    if date.num() == d {
                        assert(occurrence == x);
                    }
                }
            }
        }
        let ghost before = date;
        date = match date.succ() {
            Some(d) => d,
            None => {
                proof {
                    if let Zone::Named(name) = zone {
                        assert forall|d: int, x: i64|
                            #[trigger] named_next_at(
                                name@,
                                now.date.num(),
                                d,
                                x,
                                now.utc_ms,
                                activated_ms,
                                time,
                                handled,
                            ) && d <= last_day_number() implies false by {
                            assert(chrono_date_exists(before.num() + 1));
                        }
                    }
                }
                return Err(validation_error("calendar date overflow while scheduling"));
            },
        };
        days = date.days();
        proof {
            if let Zone::Named(name) = zone {
                assert(named_none_qualify(
                    name@,
                    now.date.num(),
                    date.num(),
                    now.utc_ms,
                    activated_ms,
                    time,
                    handled,
                )) by {
                    assert forall|d: int|
                        now.date.num() <= d < date.num() implies #[trigger] named_occurrence(name@, d, time) is Some
                            && !occurrence_qualifies(
                            d,
                            named_occurrence(name@, d, time)->0,
                            now.utc_ms,
                            activated_ms,
                            handled,
                        ) by {
                        if d == before.num() {
                            assert(named_occurrence(name@, d, time) == Some(occurrence));
                        }
                    }
                }
            }
        }
    }
}

/// A configuration activated at or after today's occurrence, once that occurrence has
/// passed, has nothing due today: it first runs on a later date.
pub proof fn lemma_activation_after_todays_time_waits(
    today: int,
    today_occurrence: i64,
    now_ms: i64,
    activated_ms: i64,
    handled: Option<LocalDate>,
)
    requires
        today_occurrence <= now_ms,
        today_occurrence <= activated_ms,
    ensures
        due_candidate_spec(today, today_occurrence, now_ms) == Some(today),
        !due_accepted(today, today_occurrence, activated_ms, handled),
{
}

/// Once a date is handled, neither it nor any earlier date is due again, whatever the clock
/// says later.
pub proof fn lemma_handled_dates_are_not_replayed(
    candidate: int,
    occurrence: i64,
    activated_ms: i64,
    handled: LocalDate,
)
    requires
        candidate <= handled.num(),
    ensures
        !due_accepted(candidate, occurrence, activated_ms, Some(handled)),
{
}

} // verus!
