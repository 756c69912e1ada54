//! Civil date and time in the Gregorian calendar, and its relation to
//! seconds since the Unix epoch.
//!
//! The conversion from seconds to a civil time is done by the `chrono` crate.
//! What it returns is accepted only after this module has counted the
//! seconds of the returned civil time back and found the number it started
//! from, so a civil time handed out here is the right one whatever the
//! outside crate did.

use vstd::prelude::*;
use vstd::arithmetic::div_mod::lemma_fundamental_div_mod_converse;
use chrono::{Datelike, TimeZone, Timelike, Utc};

verus! {

/// First year that a `CivilTime` can hold: the year of the Unix epoch.
pub const MIN_YEAR: i32 = 1970;

/// Last year that a `CivilTime` can hold: the last one of four digits.
pub const MAX_YEAR: i32 = 9999;

/// Seconds in a minute.
pub const SECONDS_PER_MINUTE: u64 = 60;

/// Seconds in an hour.
pub const SECONDS_PER_HOUR: u64 = 3600;

/// Seconds in a day. A day of this calendar has no leap second.
pub const SECONDS_PER_DAY: u64 = 86400;

/// The leap years of the first 1969 years of the calendar.
pub const LEAP_YEARS_BEFORE_MIN_YEAR: u64 = 477;

/// A date and a time of day in UTC.
#[derive(Clone, Copy, Debug, PartialEq, Eq, Structural)]
pub struct CivilTime {
    /// Year of the common era.
    pub year: i32,
    /// 1 for January to 12 for December.
    pub month: u32,
    /// Day of the month, from 1.
    pub day: u32,
    /// Hour of the day, from 0 to 23.
    pub hour: u32,
    /// Minute of the hour, from 0 to 59.
    pub minute: u32,
    /// Second of the minute, from 0 to 59.
    pub second: u32,
}

/// Whether `year` has a 29th of February.
pub open spec fn is_leap_year(year: int) -> bool {
    year % 4 == 0 && (year % 100 != 0 || year % 400 == 0)
}

/// The number of days of `year`.
pub open spec fn days_in_year(year: int) -> int {
    if is_leap_year(year) {
        366
    } else {
        365
    }
}

/// The number of days of `month` (1 to 12) in `year`.
pub open spec fn days_in_month(year: int, month: int) -> int {
    if month == 2 {
        if is_leap_year(year) {
            29
        } else {
            28
        }
    } else if month == 4 || month == 6 || month == 9 || month == 11 {
        30
    } else {
        31
    }
}

/// Days from the first of January 1970 to the first of January of `year`.
pub open spec fn days_before_year(year: int) -> int
    decreases year,
{
    if year <= MIN_YEAR {
        0
    } else {
        days_before_year(year - 1) + days_in_year(year - 1)
    }
}

/// Days from the first of January of `year` to the first of `month` in it.
pub open spec fn days_before_month(year: int, month: int) -> int
    decreases month,
{
    if month <= 1 {
        0
    } else {
        days_before_month(year, month - 1) + days_in_month(year, month - 1)
    }
}

/// What `chrono` returns as the civil time in UTC of a number of seconds
/// since the Unix epoch: the year, month, day, hour, minute and second of
/// `Utc.timestamp_opt(epoch_seconds, 0)`, or `None` where it gives no single
/// time.
pub uninterp spec fn utc_civil_fields(epoch_seconds: u32) -> Option<CivilTime>;

/// The civil time among `fields` that stands for `epoch_seconds`, if any.
pub open spec fn accepted_civil(fields: Option<CivilTime>, epoch_seconds: int) -> Option<CivilTime> {
    match fields {
        Some(civil) => if civil.represents_seconds(epoch_seconds) {
            Some(civil)
        } else {
            None
        },
        None => None,
    }
}

/// The civil time of a number of seconds since the Unix epoch. There is
/// exactly one for every `u32` (`lemma_civil_time_exists`,
/// `lemma_civil_time_unique`).
pub open spec fn civil_time_of(epoch_seconds: int) -> CivilTime {
    choose|civil: CivilTime| civil.represents_seconds(epoch_seconds)
}

impl CivilTime {
    /// The fields name a day that exists and a time of day on it.
    pub open spec fn wf(self) -> bool {
        &&& MIN_YEAR <= self.year <= MAX_YEAR
        &&& 1 <= self.month <= 12
        &&& 1 <= self.day <= days_in_month(self.year as int, self.month as int)
        &&& self.hour < 24
        &&& self.minute < 60
        &&& self.second < 60
    }

    /// Days from the first of January 1970 to this day.
    pub open spec fn days_since_epoch(self) -> int {
        days_before_year(self.year as int) + days_before_month(self.year as int, self.month as int)
            + self.day - 1
    }

    /// Seconds from midnight to this time of day.
    pub open spec fn second_of_day(self) -> int {
        self.hour * 3600 + self.minute * 60 + self.second
    }

    /// Seconds from 1970-01-01 00:00:00 to this civil time.
    pub open spec fn seconds_since_epoch(self) -> int {
        self.days_since_epoch() * 86400 + self.second_of_day()
    }

    /// This is the civil time of `epoch_seconds`.
    pub open spec fn represents_seconds(self, epoch_seconds: int) -> bool {
        self.wf() && self.seconds_since_epoch() == epoch_seconds
    }

    /// Tests whether the fields name a day that exists, in a year from
    /// `MIN_YEAR` to `MAX_YEAR`, and a time of day on it.
    pub fn is_valid(&self) -> (valid: bool)
        ensures
            valid == self.wf(),
    {
        if self.year < MIN_YEAR || self.year > MAX_YEAR {
            return false;
        }
        if self.month < 1 || self.month > 12 {
            return false;
        }
        let year: u64 = self.year as u64;
        1 <= self.day && self.day as u64 <= month_length(year, self.month as u64) && self.hour < 24
            && self.minute < 60 && self.second < 60
    }

    /// Counts the seconds from 1970-01-01 00:00:00 to this civil time.
    pub fn epoch_seconds(&self) -> (seconds: u64)
        requires
            self.wf(),
        ensures
            seconds == self.seconds_since_epoch(),
    {
        let year: u64 = self.year as u64;
        let day_of_year: u64 = month_start_day(year, self.month as u64) + (self.day as u64 - 1);
        let days: u64 = year_start_day(year) + day_of_year;
        days * SECONDS_PER_DAY + self.hour as u64 * SECONDS_PER_HOUR + self.minute as u64
            * SECONDS_PER_MINUTE + self.second as u64
    }

    /// Tests whether this is the civil time of `epoch_seconds`.
    pub fn represents(&self, epoch_seconds: u32) -> (yes: bool)
        ensures
            yes == self.represents_seconds(epoch_seconds as int),
    {
        self.is_valid() && self.epoch_seconds() == epoch_seconds as u64
    }
}

/// Tests whether `year` has a 29th of February.
pub fn leap_year(year: u64) -> (leap: bool)
    ensures
        leap == is_leap_year(year as int),
{
    year % 4 == 0 && (year % 100 != 0 || year % 400 == 0)
}

/// The number of days of a month.
pub fn month_length(year: u64, month: u64) -> (days: u64)
    requires
        1 <= month <= 12,
    ensures
        days == days_in_month(year as int, month as int),
        28 <= days <= 31,
{
    if month == 2 {
        if leap_year(year) {
            29
        } else {
            28
        }
    } else if month == 4 || month == 6 || month == 9 || month == 11 {
        30
    } else {
        31
    }
}

/// Days from the first of January 1970 to the first of January of `year`.
fn year_start_day(year: u64) -> (days: u64)
    requires
        MIN_YEAR <= year <= MAX_YEAR,
    ensures
        days == days_before_year(year as int),
        days <= 366 * (year - MIN_YEAR),
{
    proof {
        lemma_days_before_year_closed(year as int);
    }
    let last: u64 = year - 1;
    let leap_years: u64 = last / 4 - last / 100 + last / 400 - LEAP_YEARS_BEFORE_MIN_YEAR;
    365 * (year - 1970) + leap_years
}

/// Days from the first of January of `year` to the first of `month` in it.
fn month_start_day(year: u64, month: u64) -> (days: u64)
    requires
        1 <= month <= 12,
    ensures
        days == days_before_month(year as int, month as int),
        days <= 31 * (month - 1),
{
    let mut days: u64 = 0;
    let mut m: u64 = 1;
    while m < month
        invariant
            1 <= m <= month <= 12,
            days == days_before_month(year as int, m as int),
            days <= 31 * (m - 1),
        decreases month - m,
    {
        days = days + month_length(year, m);
        m = m + 1;
    }
    days
}

/// The civil time in UTC of `epoch_seconds`, as `chrono` computes it and as
/// far as counting its seconds back confirms it. `None` says that the outside
/// crate returned something else than the civil time of `epoch_seconds`.
pub fn to_civil(epoch_seconds: u32) -> (civil: Option<CivilTime>)
    ensures
        civil == accepted_civil(utc_civil_fields(epoch_seconds), epoch_seconds as int),
        civil matches Some(c) ==> c.represents_seconds(epoch_seconds as int) && c == civil_time_of(
            epoch_seconds as int,
        ),
{
    match utc_fields(epoch_seconds) {
        Some(fields) => if fields.represents(epoch_seconds) {
            proof {
                lemma_civil_time_unique(fields, civil_time_of(epoch_seconds as int));
            }
            Some(fields)
        } else {
            None
        },
        None => None,
    }
}

/// `chrono::Utc.timestamp_opt(epoch_seconds, 0)` and, on the `DateTime` it
/// gives, `year`, `month`, `day` (of `Datelike`) and `hour`, `minute`,
/// `second` (of `Timelike`). The contract only names the result: it depends
/// on the argument alone. `single` turns every outcome but one time into
/// `None`, so nothing here panics.
#[verifier::external_body]
fn utc_fields(epoch_seconds: u32) -> (fields: Option<CivilTime>)
    ensures
        fields == utc_civil_fields(epoch_seconds),
{
    match Utc.timestamp_opt(i64::from(epoch_seconds), 0).single() {
        Some(t) => Some(
            CivilTime {
                year: t.year(),
                month: t.month(),
                day: t.day(),
                hour: t.hour(),
                minute: t.minute(),
                second: t.second(),
            },
        ),
        None => None,
    }
}

/// Every number of seconds that a `u32` holds has a civil time.
pub proof fn lemma_civil_time_exists(epoch_seconds: u32)
    ensures
        exists|civil: CivilTime| civil.represents_seconds(epoch_seconds as int),
        civil_time_of(epoch_seconds as int).represents_seconds(epoch_seconds as int),
{
    let midnight = lemma_day_exists(epoch_seconds as int / 86400);
    let rest = epoch_seconds as int % 86400;
    let civil = CivilTime {
        year: midnight.year,
        month: midnight.month,
        day: midnight.day,
        hour: (rest / 3600) as u32,
        minute: (rest / 60 % 60) as u32,
        second: (rest % 60) as u32,
    };
    assert(civil.represents_seconds(epoch_seconds as int));
}

/// The time of day of a civil time is the remainder of its seconds in the
/// day, so the second field follows the count of seconds with no drift.
pub proof fn lemma_time_of_day(civil: CivilTime)
    requires
        civil.wf(),
    ensures
        civil.second == civil.seconds_since_epoch() % 60,
        civil.minute == civil.seconds_since_epoch() / 60 % 60,
        civil.hour == civil.seconds_since_epoch() / 3600 % 24,
        civil.days_since_epoch() == civil.seconds_since_epoch() / 86400,
{
    lemma_seconds_split(
        civil.days_since_epoch(),
        civil.hour as int,
        civil.minute as int,
        civil.second as int,
    );
}

/// No two civil times stand for the same number of seconds.
pub proof fn lemma_civil_time_unique(a: CivilTime, b: CivilTime)
    requires
        a.wf(),
        b.wf(),
        a.seconds_since_epoch() == b.seconds_since_epoch(),
    ensures
        a == b,
{
    assert(a.days_since_epoch() == b.days_since_epoch());
    assert(a.second_of_day() == b.second_of_day());
    lemma_day_within_year(a);
    lemma_day_within_year(b);
    if a.year < b.year {
        lemma_days_before_year_increasing(a.year as int, b.year as int);
    } else if b.year < a.year {
        lemma_days_before_year_increasing(b.year as int, a.year as int);
    } else if a.month < b.month {
        lemma_days_before_month_increasing(a.year as int, a.month as int, b.month as int);
    } else if b.month < a.month {
        lemma_days_before_month_increasing(a.year as int, b.month as int, a.month as int);
    }
}

/// The civil time of a number of seconds is at or after the Unix epoch, and
/// 1970-01-01 00:00:00 is the civil time of zero seconds.
pub proof fn lemma_epoch_is_zero(civil: CivilTime)
    requires
        civil.wf(),
    ensures
        civil.seconds_since_epoch() >= 0,
        civil.seconds_since_epoch() == 0 <==> civil == (CivilTime {
            year: MIN_YEAR,
            month: 1,
            day: 1,
            hour: 0,
            minute: 0,
            second: 0,
        }),
{
    let epoch = CivilTime { year: MIN_YEAR, month: 1, day: 1, hour: 0, minute: 0, second: 0 };
    assert(epoch.seconds_since_epoch() == 0) by {
        reveal_with_fuel(days_before_month, 2);
    }
    lemma_days_before_year_closed(civil.year as int);
    lemma_day_within_year(civil);
    if civil.seconds_since_epoch() == 0 {
        lemma_civil_time_unique(civil, epoch);
    }
}

/// The leap years among the years 1 to `year - 1`.
spec fn leap_years_before(year: int) -> int {
    (year - 1) / 4 - (year - 1) / 100 + (year - 1) / 400
}

/// A year adds one to the count of leap years exactly where it is one.
proof fn lemma_leap_years_step(year: int)
    ensures
        leap_years_before(year + 1) - leap_years_before(year) == if is_leap_year(year) {
            1int
        } else {
            0int
        },
{
    assert(year / 4 - (year - 1) / 4 == if year % 4 == 0 { 1int } else { 0int });
    assert(year / 100 - (year - 1) / 100 == if year % 100 == 0 { 1int } else { 0int });
    assert(year / 400 - (year - 1) / 400 == if year % 400 == 0 { 1int } else { 0int });
    assert(year % 400 == 0 ==> year % 100 == 0);
    assert(year % 100 == 0 ==> year % 4 == 0);
}

/// The days before a year in closed form: 365 for each year since 1970 and
/// one more for each leap year among them.
proof fn lemma_days_before_year_closed(year: int)
    requires
        year >= MIN_YEAR,
    ensures
        days_before_year(year) == 365 * (year - MIN_YEAR) + leap_years_before(year)
            - LEAP_YEARS_BEFORE_MIN_YEAR,
        365 * (year - MIN_YEAR) <= days_before_year(year) <= 366 * (year - MIN_YEAR),
    decreases year,
{
    if year > MIN_YEAR {
        lemma_days_before_year_closed(year - 1);
        lemma_leap_years_step(year - 1);
    } else {
        assert(leap_years_before(MIN_YEAR as int) == LEAP_YEARS_BEFORE_MIN_YEAR);
    }
}

/// A later year starts after the whole of an earlier one.
proof fn lemma_days_before_year_increasing(earlier: int, later: int)
    requires
        MIN_YEAR <= earlier < later,
    ensures
        days_before_year(earlier) + days_in_year(earlier) <= days_before_year(later),
    decreases later,
{
    if earlier + 1 < later {
        lemma_days_before_year_increasing(earlier, later - 1);
    }
}

/// A later month starts after the whole of an earlier one.
proof fn lemma_days_before_month_increasing(year: int, earlier: int, later: int)
    requires
        1 <= earlier < later,
    ensures
        days_before_month(year, earlier) + days_in_month(year, earlier) <= days_before_month(
            year,
            later,
        ),
    decreases later,
{
    if earlier + 1 < later {
        lemma_days_before_month_increasing(year, earlier, later - 1);
    }
}

/// The twelve months of a year have as many days as the year.
proof fn lemma_months_fill_year(year: int)
    ensures
        days_before_month(year, 13) == days_in_year(year),
{
    reveal_with_fuel(days_before_month, 14);
}

/// The day of a well-formed civil time lies within its year.
proof fn lemma_day_within_year(civil: CivilTime)
    requires
        civil.wf(),
    ensures
        0 <= days_before_month(civil.year as int, civil.month as int),
        days_before_month(civil.year as int, civil.month as int) + civil.day - 1 < days_in_year(
            civil.year as int,
        ),
{
    lemma_months_fill_year(civil.year as int);
    lemma_days_before_month_increasing(civil.year as int, civil.month as int, 13);
    lemma_days_before_month_nonnegative(civil.year as int, civil.month as int);
}

/// No month starts before its year.
proof fn lemma_days_before_month_nonnegative(year: int, month: int)
    ensures
        0 <= days_before_month(year, month),
    decreases month,
{
    if month > 1 {
        lemma_days_before_month_nonnegative(year, month - 1);
    }
}

/// The civil time at midnight of the day that lies `days` days after the
/// first of January 1970, found by stepping from one day to the next.
proof fn lemma_day_exists(days: int) -> (civil: CivilTime)
    requires
        0 <= days <= 365 * (MAX_YEAR - MIN_YEAR),
    ensures
        civil.wf(),
        civil.days_since_epoch() == days,
        civil.hour == 0 && civil.minute == 0 && civil.second == 0,
    decreases days,
{
    if days == 0 {
        let first = CivilTime { year: MIN_YEAR, month: 1, day: 1, hour: 0, minute: 0, second: 0 };
        assert(first.days_since_epoch() == 0) by {
            reveal_with_fuel(days_before_month, 2);
        }
        first
    } else {
        let before = lemma_day_exists(days - 1);
        let year = before.year as int;
        let month = before.month as int;
        lemma_days_before_year_closed(year);
        lemma_day_within_year(before);
        if before.day < days_in_month(year, month) {
            CivilTime { day: (before.day + 1) as u32, ..before }
        } else if before.month < 12 {
            CivilTime { month: (before.month + 1) as u32, day: 1, ..before }
        } else {
            lemma_months_fill_year(year);
            assert(days_before_month(year + 1, 1) == 0) by {
                reveal_with_fuel(days_before_month, 2);
            }
            lemma_days_before_year_closed(year + 1);
            CivilTime { year: (before.year + 1) as i32, month: 1, day: 1, ..before }
        }
    }
}

/// A count of seconds splits in one way into days, hours, minutes and
/// seconds.
proof fn lemma_seconds_split(days: int, hour: int, minute: int, second: int)
    requires
        0 <= hour < 24,
        0 <= minute < 60,
        0 <= second < 60,
    ensures
        (days * 86400 + (hour * 3600 + minute * 60 + second)) % 60 == second,
        (days * 86400 + (hour * 3600 + minute * 60 + second)) / 60 % 60 == minute,
        (days * 86400 + (hour * 3600 + minute * 60 + second)) / 3600 % 24 == hour,
        (days * 86400 + (hour * 3600 + minute * 60 + second)) / 86400 == days,
{
    let seconds = days * 86400 + (hour * 3600 + minute * 60 + second);
    let minutes = days * 1440 + hour * 60 + minute;
    let hours = days * 24 + hour;
    lemma_fundamental_div_mod_converse(seconds, 60, minutes, second);
    lemma_fundamental_div_mod_converse(minutes, 60, hours, minute);
    lemma_fundamental_div_mod_converse(seconds, 3600, hours, minute * 60 + second);
    lemma_fundamental_div_mod_converse(hours, 24, days, hour);
    lemma_fundamental_div_mod_converse(seconds, 86400, days, hour * 3600 + minute * 60 + second);
}

} // verus!
