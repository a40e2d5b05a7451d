//! Dates and moments as plain values: a moment is a UNIX timestamp in
//! seconds, and the calendar arithmetic that builds one from a civil date is
//! verified against a day-count specification.

use vstd::prelude::*;
use crate::value::{FromSql, FromSqlError, FromSqlResult, SqlScalar, SqlValue, ToSql, ValueKind};

verus! {

pub const SECONDS_PER_DAY: i64 = 86400;

/// A moment in time, as seconds since 1970-01-01 00:00:00 UTC. A plain date
/// is carried as the midnight that starts it.
#[derive(Clone, Copy, Debug, PartialEq, Eq, Structural)]
pub struct Timestamp {
    pub seconds: i64,
}

impl FromSql for Timestamp {
    open spec fn spec_column_result(v: SqlValue) -> FromSqlResult<Timestamp> {
        match v {
            SqlValue::Integer(i) => Ok(Timestamp { seconds: i }),
            _ => Err(FromSqlError::InvalidType {
                expected: ValueKind::Integer,
                actual: v.spec_kind(),
            }),
        }
    }

    fn column_result(v: &SqlValue) -> (r: FromSqlResult<Timestamp>) {
        match v {
            SqlValue::Integer(i) => Ok(Timestamp { seconds: *i }),
            _ => Err(FromSqlError::InvalidType {
                expected: ValueKind::Integer,
                actual: v.kind(),
            }),
        }
    }
}

impl ToSql for Timestamp {
    open spec fn spec_to_sql(&self) -> SqlValue {
        SqlValue::Integer(self.seconds)
    }

    fn to_sql(&self) -> (r: SqlValue) {
        SqlValue::Integer(self.seconds)
    }
}

impl SqlScalar for Timestamp {
    open spec fn scalar_wf(x: Timestamp) -> bool {
        true
    }

    proof fn lemma_never_null(x: Timestamp) {
    }

    proof fn lemma_roundtrip(x: Timestamp) {
    }
}

/// Whether a year has 366 days.
pub open spec fn spec_is_leap(y: int) -> bool {
    y % 4 == 0 && (y % 100 != 0 || y % 400 == 0)
}

pub open spec fn spec_days_in_year(y: int) -> int {
    if spec_is_leap(y) {
        366
    } else {
        365
    }
}

/// The length of month `m` (1-based) of year `y`.
pub open spec fn spec_days_in_month(y: int, m: int) -> int {
    if m == 2 {
        if spec_is_leap(y) {
            29
        } else {
            28
        }
    } else if m == 4 || m == 6 || m == 9 || m == 11 {
        30
    } else {
        31
    }
}

/// How many days lie between 1970-01-01 and the first day of year `y`.
pub open spec fn spec_days_before_year(y: int) -> int
    decreases y,
{
    if y <= 1970 {
        0
    } else {
        spec_days_before_year(y - 1) + spec_days_in_year(y - 1)
    }
}

/// How many days of year `y` lie before the first day of month `m` (1-based).
pub open spec fn spec_days_before_month(y: int, m: int) -> int
    decreases m,
{
    if m <= 1 {
        0
    } else {
        spec_days_before_month(y, m - 1) + spec_days_in_month(y, m - 1)
    }
}

/// The day number of the civil date `y-m-d`: how many days it lies after
/// 1970-01-01.
pub open spec fn spec_day_number(y: int, m: int, d: int) -> int {
    spec_days_before_year(y) + spec_days_before_month(y, m) + (d - 1)
}

/// A year between 1970 and 9999 starts within 366 days of each year before
/// it, so its day number stays small.
proof fn lemma_days_before_year_bounds(y: int)
    requires
        1970 <= y <= 10000,
    ensures
        0 <= spec_days_before_year(y) <= (y - 1970) * 366,
    decreases y,
{
    if y > 1970 {
        lemma_days_before_year_bounds(y - 1);
    }
}

proof fn lemma_days_before_month_bounds(y: int, m: int)
    requires
        1 <= m <= 12,
    ensures
        0 <= spec_days_before_month(y, m) <= (m - 1) * 31,
    decreases m,
{
    if m > 1 {
        lemma_days_before_month_bounds(y, m - 1);
    }
}

/// Whether `y-m-d h:mi:s` is a civil moment this library accepts: a date
/// between 1970 and 9999 whose day exists in its month, with a valid wall
/// time.
pub open spec fn spec_valid_civil(y: int, m: int, d: int, h: int, mi: int, s: int) -> bool {
    &&& 1970 <= y <= 9999
    &&& 1 <= m <= 12
    &&& 1 <= d <= spec_days_in_month(y, m)
    &&& 0 <= h <= 23
    &&& 0 <= mi <= 59
    &&& 0 <= s <= 59
}

/// The timestamp of the civil moment `y-m-d h:mi:s` (UTC).
pub open spec fn spec_civil_seconds(y: int, m: int, d: int, h: int, mi: int, s: int) -> int {
    spec_day_number(y, m, d) * 86400 + h * 3600 + mi * 60 + s
}

impl Timestamp {
    /// Builds the timestamp of a civil date and wall time (UTC).
    pub fn from_ymd_hms(y: u32, m: u32, d: u32, h: u32, mi: u32, s: u32) -> (r: Timestamp)
        requires
            spec_valid_civil(y as int, m as int, d as int, h as int, mi as int, s as int),
        ensures
            r.seconds == spec_civil_seconds(y as int, m as int, d as int, h as int, mi as int, s as int),
    {
        proof {
            lemma_days_before_year_bounds(y as int);
            lemma_days_before_month_bounds(y as int, m as int);
        }
        let mut days: i64 = 0;
        let mut year: u32 = 1970;
        while year < y
            invariant
                1970 <= year <= y <= 9999,
                days == spec_days_before_year(year as int),
                0 <= days <= (year - 1970) * 366,
            decreases y - year,
        {
            proof {
                lemma_days_before_year_bounds(year as int + 1);
            }
            days = days + days_in_year(year);
            year = year + 1;
        }
        let mut month: u32 = 1;
        while month < m
            invariant
                1970 <= y <= 9999,
                1 <= month <= m <= 12,
                days == spec_days_before_year(y as int) + spec_days_before_month(
                    y as int,
                    month as int,
                ),
                0 <= days <= (y - 1970) * 366 + (month - 1) * 31,
            decreases m - month,
        {
            days = days + days_in_month(y, month);
            month = month + 1;
        }
        let day_number: i64 = days + (d as i64 - 1);
        Timestamp {
            seconds: day_number * SECONDS_PER_DAY + (h as i64) * 3600 + (mi as i64) * 60
                + (s as i64),
        }
    }

    /// The day number this moment falls on: how many whole days lie between
    /// 1970-01-01 00:00:00 UTC and it.
    pub fn day_number(&self) -> (r: i64)
        requires
            self.seconds >= 0,
        ensures
            r == self.seconds as int / 86400,
    {
        self.seconds / SECONDS_PER_DAY
    }
}

fn days_in_year(y: u32) -> (r: i64)
    ensures
        r == spec_days_in_year(y as int),
{
    if is_leap(y) {
        366
    } else {
        365
    }
}

fn is_leap(y: u32) -> (r: bool)
    ensures
        r == spec_is_leap(y as int),
{
    y % 4 == 0 && (y % 100 != 0 || y % 400 == 0)
}

fn days_in_month(y: u32, m: u32) -> (r: i64)
    ensures
        r == spec_days_in_month(y as int, m as int),
{
    if m == 2 {
        if is_leap(y) {
            29
        } else {
            28
        }
    } else if m == 4 || m == 6 || m == 9 || m == 11 {
        30
    } else {
        31
    }
}

/// Converts a relative duration assumed from now to an absolute UNIX
/// timestamp measured in seconds, saturating at the far end of time. What it
/// returns depends on the clock.
pub fn relative_to_absolute(duration_secs: u64) -> i64 {
    let now = crate::engine::now_unix();
    let capped: i64 = if duration_secs > i64::MAX as u64 {
        i64::MAX
    } else {
        duration_secs as i64
    };
    if now > i64::MAX - capped {
        i64::MAX
    } else {
        now + capped
    }
}

/// The weekday of a day number, counted from Monday as 0; day zero,
/// 1970-01-01, was a Thursday.
pub open spec fn spec_weekday_from_monday(day_number: int) -> int {
    (day_number + 3) % 7
}

/// How many days the deadline weekday lies before the drive's weekday: the
/// gap within the week where the deadline weekday is strictly earlier, else a
/// full week minus the forward gap, so a deadline on the drive's own weekday
/// falls a whole week before it.
pub open spec fn spec_days_apart(deadline_weekday: int, drive_weekday: int) -> int {
    if deadline_weekday < drive_weekday {
        drive_weekday - deadline_weekday
    } else {
        7 - (deadline_weekday - drive_weekday)
    }
}

/// The exact deadline for a drive date: 23:00 on the last day before the
/// drive that falls on the configured weekday.
pub open spec fn spec_exact_deadline(deadline_weekday: int, drive_date: Timestamp) -> int {
    (drive_date.seconds / 86400 - spec_days_apart(
        deadline_weekday,
        spec_weekday_from_monday(drive_date.seconds / 86400),
    )) * 86400 + 23 * 3600
}

/// Figures out the moment a registration deadline falls on, from the
/// configured deadline weekday (Monday as 0) and the drive's date: 23:00 on
/// the last such weekday strictly before the drive's day.
pub fn figure_out_exact_deadline(deadline_weekday: u32, drive_date: Timestamp) -> (r: Timestamp)
    requires
        deadline_weekday < 7,
        0 <= drive_date.seconds,
    ensures
        r.seconds == spec_exact_deadline(deadline_weekday as int, drive_date),
{
    let drive_day: i64 = drive_date.seconds / SECONDS_PER_DAY;
    // figure out how many days we need to backtrack
    let drive_weekday: u32 = ((drive_day + 3) % 7) as u32;
    let days_apart: u32 = if deadline_weekday < drive_weekday {
        // they're in the same week
        drive_weekday - deadline_weekday
    } else {
        // they're one week apart, so offset
        7 - (deadline_weekday - drive_weekday)
    };
    // ...and actually backtrack
    let deadline_day: i64 = drive_day - days_apart as i64;
    Timestamp { seconds: deadline_day * SECONDS_PER_DAY + 23 * 3600 }
}

/// Returns the weekday of a day number, counted from Monday as 0.
pub fn weekday_from_monday(day_number: i64) -> (r: u32)
    requires
        0 <= day_number,
        day_number * 86400 <= i64::MAX,
    ensures
        r == spec_weekday_from_monday(day_number as int),
        r < 7,
{
    ((day_number + 3) % 7) as u32
}

} // verus!
