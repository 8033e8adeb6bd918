//! Calendar dates, wall-clock zones and the instants they resolve to, all held as plain
//! numbers. The calendar and zone arithmetic itself is chrono's (and chrono-tz's for named
//! zones); it is reached through the trusted items of this module.
use chrono::Datelike;
use chrono::TimeZone;
use vstd::prelude::*;

verus! {

/// The number of chrono's first representable date, January 1 of year -262143.
pub open spec fn first_day_number() -> int {
    -95746129
}

/// The number of chrono's last representable date, December 31 of year 262142.
pub open spec fn last_day_number() -> int {
    95745399
}

/// Whether chrono's `NaiveDate` can represent the date numbered `days`
/// (`NaiveDate::from_num_days_from_ce_opt(days).is_some()`, January 1 of year 1 being day 1):
/// the years from -262143 to 262142, one unbroken range of day numbers.
pub open spec fn chrono_date_exists(days: int) -> bool {
    first_day_number() <= days <= last_day_number()
}

/// The day number (`num_days_from_ce`) of the proleptic Gregorian date `year-month-day`,
/// when chrono's `NaiveDate::from_ymd_opt` accepts it.
pub uninterp spec fn chrono_ymd_days(year: int, month: int, day: int) -> Option<int>;

/// The text chrono's `Display` gives the date numbered `days` (`YYYY-MM-DD`).
pub uninterp spec fn chrono_date_text(days: int) -> Seq<char>;

/// What chrono-tz's zone called `zone` makes of the local wall time `hour:minute` on the date
/// numbered `days` (`TimeZone::from_local_datetime`), as Unix milliseconds.
pub uninterp spec fn chrono_tz_lookup(zone: Seq<char>, days: int, hour: int, minute: int) -> LocalLookup;

/// `NaiveDate::from_num_days_from_ce_opt`: whether the day number names a representable date.
#[verifier::external_body]
fn date_exists(days: i32) -> (b: bool)
    ensures
        b == chrono_date_exists(days as int),
{
    chrono::NaiveDate::from_num_days_from_ce_opt(days).is_some()
}

/// `NaiveDate::checked_add_days` by one day. chrono's day arithmetic yields the next day
/// number exactly when that day is still representable.
#[verifier::external_body]
fn date_next(days: i32) -> (r: Option<i32>)
    requires
        chrono_date_exists(days as int),
    ensures
        r is Some <==> chrono_date_exists(days + 1),
        r matches Some(d) ==> d == days + 1,
{
    chrono::NaiveDate::from_num_days_from_ce_opt(days).unwrap().checked_add_days(chrono::Days::new(1)).map(
        |d| d.num_days_from_ce(),
    )
}

/// `NaiveDate::checked_sub_days` by one day. chrono's day arithmetic yields the previous day
/// number exactly when that day is still representable.
#[verifier::external_body]
fn date_previous(days: i32) -> (r: Option<i32>)
    requires
        chrono_date_exists(days as int),
    ensures
        r is Some <==> chrono_date_exists(days - 1),
        r matches Some(d) ==> d == days - 1,
{
    chrono::NaiveDate::from_num_days_from_ce_opt(days).unwrap().checked_sub_days(chrono::Days::new(1)).map(
        |d| d.num_days_from_ce(),
    )
}

/// `NaiveDate::from_ymd_opt` followed by `num_days_from_ce`; every date it accepts is
/// representable.
#[verifier::external_body]
fn ymd_days(year: i32, month: u32, day: u32) -> (r: Option<i32>)
    ensures
        r matches Some(d) ==> chrono_date_exists(d as int),
        chrono_ymd_days(year as int, month as int, day as int) == (match r {
            Some(d) => Some(d as int),
            None => None::<int>,
        }),
{
    chrono::NaiveDate::from_ymd_opt(year, month, day).map(|d| d.num_days_from_ce())
}

/// chrono's `Display` of the date numbered `days`.
#[verifier::external_body]
fn date_text(days: i32) -> (s: String)
    requires
        chrono_date_exists(days as int),
    ensures
        s@ == chrono_date_text(days as int),
{
    chrono::NaiveDate::from_num_days_from_ce_opt(days).unwrap().to_string()
}

/// `Local.from_local_datetime`: the operating system's current zone at the time of the call.
/// What it answers depends on the machine's zone settings, so nothing is stated of it.
#[verifier::external_body]
fn lookup_system_zone(days: i32, hour: u32, minute: u32) -> (r: LocalLookup)
    requires
        chrono_date_exists(days as int),
        hour < 24,
        minute < 60,
{
    let naive = chrono::NaiveDate::from_num_days_from_ce_opt(days).unwrap().and_hms_opt(hour, minute, 0).unwrap();
    match chrono::Local.from_local_datetime(&naive) {
        chrono::LocalResult::Single(v) => LocalLookup::Single(v.timestamp_millis()),
        chrono::LocalResult::Ambiguous(a, b) => LocalLookup::Ambiguous(a.timestamp_millis(), b.timestamp_millis()),
        chrono::LocalResult::None => LocalLookup::Gap,
    }
}

/// chrono-tz's `Tz::from_str` for `zone`, then `from_local_datetime` in that zone. A name
/// chrono-tz does not know yields no instant at all.
#[verifier::external_body]
fn lookup_named_zone(zone: &str, days: i32, hour: u32, minute: u32) -> (r: LocalLookup)
    requires
        chrono_date_exists(days as int),
        hour < 24,
        minute < 60,
    ensures
        r == chrono_tz_lookup(zone@, days as int, hour as int, minute as int),
{
    let naive = chrono::NaiveDate::from_num_days_from_ce_opt(days).unwrap().and_hms_opt(hour, minute, 0).unwrap();
    match zone.parse::<chrono_tz::Tz>() {
        Err(_) => LocalLookup::Gap,
        Ok(tz) => match tz.from_local_datetime(&naive) {
            chrono::LocalResult::Single(v) => LocalLookup::Single(v.timestamp_millis()),
            chrono::LocalResult::Ambiguous(a, b) => LocalLookup::Ambiguous(a.timestamp_millis(), b.timestamp_millis()),
            chrono::LocalResult::None => LocalLookup::Gap,
        },
    }
}

/// `Utc::now()` in Unix milliseconds.
#[verifier::external_body]
pub(crate) fn utc_now_ms() -> (ms: i64) {
    chrono::Utc::now().timestamp_millis()
}

/// What a zone makes of one local wall time: one instant, two (a repeated hour), or none
/// (a skipped hour). Instants are Unix milliseconds.
#[derive(Clone, Copy, Debug, PartialEq, Eq, Structural)]
pub enum LocalLookup {
    Single(i64),
    Ambiguous(i64, i64),
    Gap,
}

/// The zone in which wall times are read: the computer's own, or one named in the IANA
/// database.
#[derive(Clone, Debug)]
pub enum Zone {
    Local,
    Named(String),
}

/// A calendar date, numbered as chrono's `num_days_from_ce` (January 1 of year 1 is day 1).
#[derive(Clone, Copy, Debug, PartialEq, Eq, Structural)]
pub struct LocalDate {
    days: i32,
}

impl LocalDate {
    #[verifier::type_invariant]
    spec fn valid(self) -> bool {
        chrono_date_exists(self.days as int)
    }

    /// The day number.
    pub closed spec fn num(self) -> int {
        self.days as int
    }

    pub fn days(&self) -> (d: i32)
        ensures
            d as int == self.num(),
            chrono_date_exists(d as int),
    {
        proof {
            use_type_invariant(self);
        }
        self.days
    }

    /// The date numbered `days`, if chrono can represent it.
    pub fn from_days(days: i32) -> (r: Option<LocalDate>)
        ensures
            r is Some <==> chrono_date_exists(days as int),
            r matches Some(d) ==> d.num() == days,
    {
        if date_exists(days) {
            Some(LocalDate { days })
        } else {
            None
        }
    }

    /// The date `year-month-day`, if it is a valid, representable calendar date.
    pub fn from_ymd(year: i32, month: u32, day: u32) -> (r: Option<LocalDate>)
        ensures
            chrono_ymd_days(year as int, month as int, day as int) == (match r {
                Some(d) => Some(d.num()),
                None => None::<int>,
            }),
    {
        match ymd_days(year, month, day) {
            Some(days) => Some(LocalDate { days }),
            None => None,
        }
    }

    /// The following day, unless this is the last representable date.
    pub fn succ(&self) -> (r: Option<LocalDate>)
        ensures
            r is Some <==> chrono_date_exists(self.num() + 1),
            r matches Some(d) ==> d.num() == self.num() + 1,
    {
        proof {
            use_type_invariant(self);
        }
        match date_next(self.days) {
            Some(days) => Some(LocalDate { days }),
            None => None,
        }
    }

    /// The preceding day, unless this is the first representable date.
    pub fn pred(&self) -> (r: Option<LocalDate>)
        ensures
            r is Some <==> chrono_date_exists(self.num() - 1),
            r matches Some(d) ==> d.num() == self.num() - 1,
    {
        proof {
            use_type_invariant(self);
        }
        match date_previous(self.days) {
            Some(days) => Some(LocalDate { days }),
            None => None,
        }
    }

    /// The date as `YYYY-MM-DD`.
    pub fn to_text(&self) -> (s: String)
        ensures
            s@ == chrono_date_text(self.num()),
    {
        proof {
            use_type_invariant(self);
        }
        date_text(self.days)
    }
}

/// The zone's answer for `hour:minute` on `date`.
pub fn lookup(zone: &Zone, date: LocalDate, hour: u32, minute: u32) -> (r: LocalLookup)
    requires
        hour < 24,
        minute < 60,
    ensures
        zone matches Zone::Named(name) ==> r == chrono_tz_lookup(name@, date.num(), hour as int, minute as int),
{
    let days = date.days();
    match zone {
        Zone::Local => lookup_system_zone(days, hour, minute),
        Zone::Named(name) => lookup_named_zone(name.as_str(), days, hour, minute),
    }
}

} // verus!
