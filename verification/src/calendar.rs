//! Calendar dates as plain `(year, month, day)` values, with the calendar
//! arithmetic delegated to `chrono`.

use chrono::Datelike;
use vstd::prelude::*;

verus! {

/// Gregorian leap-year rule (proleptic, also for years before 1583).
pub open spec fn is_leap_year(y: int) -> bool {
    y % 4 == 0 && (y % 100 != 0 || y % 400 == 0)
}

/// Number of days in month `m` (1-based) of year `y`.
pub open spec fn days_in_month(y: int, m: int) -> int {
    if m == 2 {
        if is_leap_year(y) {
            29
        } else {
            28
        }
    } else if m == 4 || m == 6 || m == 9 || m == 11 {
        30
    } else {
        31
    }
}

/// The years that a `chrono::NaiveDate` can represent.
pub open spec fn is_representable_year(y: int) -> bool {
    -262143 <= y <= 262142
}

/// `(y, m, d)` names an existing, representable calendar day.
pub open spec fn is_valid_date(y: int, m: int, d: int) -> bool {
    &&& is_representable_year(y)
    &&& 1 <= m <= 12
    &&& 1 <= d <= days_in_month(y, m)
}

/// Chronological order of two dates given as `(year, month, day)`.
pub open spec fn date_before(a: (int, int, int), b: (int, int, int)) -> bool {
    ||| a.0 < b.0
    ||| a.0 == b.0 && a.1 < b.1
    ||| a.0 == b.0 && a.1 == b.1 && a.2 < b.2
}

/// The calendar day `(year, month, day)` when it exists and is
/// representable (what `chrono::NaiveDate::from_ymd_opt` accepts).
pub fn calendar_date(year: i32, month: u32, day: u32) -> (r: Option<(i32, u32, u32)>)
    ensures
        r is Some <==> is_valid_date(year as int, month as int, day as int),
        r matches Some(t) ==> t == (year, month, day),
{
    if year < -262143 || year > 262142 || month < 1 || month > 12 || day < 1 {
        return None;
    }
    let leap = year % 4 == 0 && (year % 100 != 0 || year % 400 == 0);
    assert(leap == is_leap_year(year as int)) by {
        assert((year % 4 == 0) == ((year as int) % 4 == 0));
        assert((year % 100 == 0) == ((year as int) % 100 == 0));
        assert((year % 400 == 0) == ((year as int) % 400 == 0));
    }
    let last: u32 = if month == 2 {
        if leap {
            29
        } else {
            28
        }
    } else if month == 4 || month == 6 || month == 9 || month == 11 {
        30
    } else {
        31
    };
    if day > last {
        None
    } else {
        Some((year, month, day))
    }
}

/// `chrono::Utc::now().date_naive()`: today's date in UTC.
/// Claimed: only that it is a valid, representable date (it depends on the clock).
#[verifier::external_body]
pub(crate) fn utc_today() -> (r: (i32, u32, u32))
    ensures
        is_valid_date(r.0 as int, r.1 as int, r.2 as int),
{
    let d = chrono::Utc::now().date_naive();
    (d.year(), d.month(), d.day())
}

/// Strict chronological comparison of two dates.
pub fn is_date_before(a: (i32, u32, u32), b: (i32, u32, u32)) -> (r: bool)
    ensures
        r == date_before((a.0 as int, a.1 as int, a.2 as int), (b.0 as int, b.1 as int, b.2 as int)),
{
    a.0 < b.0 || (a.0 == b.0 && a.1 < b.1) || (a.0 == b.0 && a.1 == b.1 && a.2 < b.2)
}

/// The date `days` days after `(y, m, d)`, as `chrono` computes it
/// (`None` for an invalid start date or a result out of range).
pub uninterp spec fn date_plus_days(y: i32, m: u32, d: u32, days: u64) -> Option<(i32, u32, u32)>;

/// `chrono::NaiveDate::checked_add_days`: the date `days` days after `date`.
/// Claimed: the result is the named `date_plus_days` of the arguments; it is
/// `None` for an invalid start date; for a valid one it is `Some` exactly
/// when the day number `days` later does not pass the last day of year
/// 262142, and then a valid date with that day number.
#[verifier::external_body]
pub(crate) fn add_days(date: (i32, u32, u32), days: u64) -> (r: Option<(i32, u32, u32)>)
    ensures
        r == date_plus_days(date.0, date.1, date.2, days),
        !is_valid_date(date.0 as int, date.1 as int, date.2 as int) ==> r is None,
        is_valid_date(date.0 as int, date.1 as int, date.2 as int) ==> (r is Some <==> day_number_of(date) + days
            <= day_number(262142, 12, 31)),
        r matches Some(t) ==> is_valid_date(t.0 as int, t.1 as int, t.2 as int) && day_number_of(t)
            == day_number_of(date) + days,
{
    match chrono::NaiveDate::from_ymd_opt(date.0, date.1, date.2) {
        Some(d) => match d.checked_add_days(chrono::Days::new(days)) {
            Some(x) => Some((x.year(), x.month(), x.day())),
            None => None,
        },
        None => None,
    }
}

/// Day of the week of `(y, m, d)` counted from Monday = 0, as `chrono`
/// computes it (`None` for an invalid date).
pub uninterp spec fn weekday_number(y: i32, m: u32, d: u32) -> Option<u32>;

/// `chrono::Weekday::num_days_from_monday` of the date `date`.
/// Claimed: the named `weekday_number` of the date; `Some` exactly for valid
/// dates, and then the day number's position in the week counted from
/// 0001-01-01, a Monday.
#[verifier::external_body]
pub(crate) fn weekday_from_monday(date: (i32, u32, u32)) -> (r: Option<u32>)
    ensures
        r == weekday_number(date.0, date.1, date.2),
        r is Some <==> is_valid_date(date.0 as int, date.1 as int, date.2 as int),
        r matches Some(w) ==> w < 7 && w == (day_number_of(date) - 1) % 7,
{
    match chrono::NaiveDate::from_ymd_opt(date.0, date.1, date.2) {
        Some(d) => Some(d.weekday().num_days_from_monday()),
        None => None,
    }
}

/// `chrono::Local::now().date_naive()`: today's date in the local time zone.
/// Claimed: only that it is a valid, representable date (it depends on the
/// clock and the time zone).
#[verifier::external_body]
pub(crate) fn local_today() -> (r: (i32, u32, u32))
    ensures
        is_valid_date(r.0 as int, r.1 as int, r.2 as int),
{
    let d = chrono::Local::now().date_naive();
    (d.year(), d.month(), d.day())
}

/// Days in the months of year `y` before month `m`.
pub open spec fn days_before_month(y: int, m: nat) -> int
    decreases m,
{
    if m <= 1 {
        0
    } else {
        days_before_month(y, (m - 1) as nat) + days_in_month(y, m - 1)
    }
}

/// Days in the years before year `y` counted from year 1 (negative for
/// years before 1), in the proleptic Gregorian calendar.
pub open spec fn days_before_year(y: int) -> int {
    365 * (y - 1) + (y - 1) / 4 - (y - 1) / 100 + (y - 1) / 400
}

/// The day number of `(y, m, d)`: 1 for 0001-01-01, one more each day.
pub open spec fn day_number(y: int, m: int, d: int) -> int {
    days_before_year(y) + days_before_month(y, m as nat) + d
}

/// The day number of a date triple.
pub open spec fn day_number_of(t: (i32, u32, u32)) -> int {
    day_number(t.0 as int, t.1 as int, t.2 as int)
}

/// `end − start` of two valid dates in days, with `chrono`'s date
/// subtraction (`NaiveDate - NaiveDate`, then `num_days`).
/// Claimed: the difference of the proleptic Gregorian day numbers.
#[verifier::external_body]
pub(crate) fn days_between(start: (i32, u32, u32), end: (i32, u32, u32)) -> (r: i64)
    requires
        is_valid_date(start.0 as int, start.1 as int, start.2 as int),
        is_valid_date(end.0 as int, end.1 as int, end.2 as int),
    ensures
        r == day_number_of(end) - day_number_of(start),
{
    let a = chrono::NaiveDate::from_ymd_opt(start.0, start.1, start.2).unwrap();
    let b = chrono::NaiveDate::from_ymd_opt(end.0, end.1, end.2).unwrap();
    (b - a).num_days()
}

/// The dates `chrono::NaiveDate::parse_from_str(s, "%Y-%m-%d")` accepts,
/// read back as `(year, month, day)`.
pub uninterp spec fn parsed_iso_date(s: Seq<char>) -> Option<(i32, u32, u32)>;

/// `chrono::NaiveDate::parse_from_str` with the format `%Y-%m-%d`.
/// Claimed: the result is the named `parsed_iso_date` of the text, and a
/// parsed date is a valid one.
#[verifier::external_body]
pub(crate) fn parse_iso_date(s: &str) -> (r: Option<(i32, u32, u32)>)
    ensures
        r == parsed_iso_date(s@),
        r matches Some(t) ==> is_valid_date(t.0 as int, t.1 as int, t.2 as int),
{
    match chrono::NaiveDate::parse_from_str(s, "%Y-%m-%d") {
        Ok(d) => Some((d.year(), d.month(), d.day())),
        Err(_) => None,
    }
}

/// Days before month `m` stay within a year.
pub proof fn lemma_days_before_month_bounds(y: int, m: nat)
    requires
        m <= 13,
    ensures
        0 <= days_before_month(y, m) <= 31 * m,
    decreases m,
{
    if m > 1 {
        lemma_days_before_month_bounds(y, (m - 1) as nat);
    }
}

/// Day numbers of valid dates lie within ±100 million.
pub proof fn lemma_day_number_bounds(y: int, m: int, d: int)
    requires
        is_valid_date(y, m, d),
    ensures
        -100_000_000 <= day_number(y, m, d) <= 100_000_000,
{
    lemma_days_before_month_bounds(y, m as nat);
    let z = y - 1;
    assert(-262144 <= z <= 262141);
    assert(-65536 <= z / 4 <= 65536);
    assert(-2622 <= z / 100 <= 2622);
    assert(-656 <= z / 400 <= 656);
}

/// Day number (from 0001-01-01 = 1) of 1970-01-01, the Unix epoch.
pub open spec fn unix_epoch_day() -> int {
    719_163
}

/// The UTC calendar date `chrono` gives for a Unix timestamp.
pub uninterp spec fn timestamp_utc_date(secs: i64) -> Option<(i32, u32, u32)>;

/// `chrono::DateTime::from_timestamp(secs, 0)`: the UTC calendar date of a
/// Unix timestamp. Claimed: the result is the named `timestamp_utc_date`;
/// it is `Some` exactly when the day `secs.div_euclid(86400)` after the
/// epoch lies between the first day of year -262143 and the last day of
/// year 262142, and then a valid date with that day number.
#[verifier::external_body]
pub(crate) fn utc_date_of_timestamp(secs: i64) -> (r: Option<(i32, u32, u32)>)
    ensures
        r == timestamp_utc_date(secs),
        r is Some <==> day_number(-262143, 1, 1) <= unix_epoch_day() + secs / 86400 <= day_number(262142, 12, 31),
        r matches Some(t) ==> is_valid_date(t.0 as int, t.1 as int, t.2 as int) && day_number_of(t)
            == unix_epoch_day() + secs / 86400,
{
    match chrono::DateTime::from_timestamp(secs, 0) {
        Some(d) => Some((d.year(), d.month(), d.day())),
        None => None,
    }
}

} // verus!
