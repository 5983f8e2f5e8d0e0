//! The proleptic Gregorian calendar on plain values: dates, wall-clock
//! date-times, day numbers, and calendar-safe month arithmetic.
use vstd::prelude::*;

use crate::expr::Weekday;

verus! {

/// Earliest supported year.
pub const MIN_YEAR: i32 = 0;

/// Latest supported year.
pub const MAX_YEAR: i32 = 262_142;

/// Seconds in one day.
pub const SECONDS_PER_DAY: i64 = 86400;

/// Nanoseconds in one second.
pub const NANOS_PER_SECOND: u32 = 1_000_000_000;

pub open spec fn is_leap_year(y: int) -> bool {
    (y % 4 == 0 && y % 100 != 0) || y % 400 == 0
}

pub open spec fn month_length(y: int, m: int) -> int {
    if m == 2 {
        if is_leap_year(y) { 29 } else { 28 }
    } else if m == 4 || m == 6 || m == 9 || m == 11 {
        30
    } else {
        31
    }
}

pub open spec fn year_in_range(y: int) -> bool {
    MIN_YEAR <= y <= MAX_YEAR
}

/// A real calendar date of a supported year.
pub open spec fn valid_date(y: int, m: int, d: int) -> bool {
    year_in_range(y) && 1 <= m <= 12 && 1 <= d <= month_length(y, m)
}

pub open spec fn valid_time(h: int, mi: int, s: int, ns: int) -> bool {
    0 <= h < 24 && 0 <= mi < 60 && 0 <= s < 60 && 0 <= ns < NANOS_PER_SECOND
}

/// Days from 0000-01-01 to January 1st of year `y`.
pub open spec fn days_before_year(y: int) -> int {
    365 * y + (y + 3) / 4 - (y + 99) / 100 + (y + 399) / 400
}

/// Days from January 1st to the first day of month `m` of year `y`.
pub open spec fn days_before_month(y: int, m: int) -> int {
    let base = if m == 1 {
        0int
    } else if m == 2 {
        31
    } else if m == 3 {
        59
    } else if m == 4 {
        90
    } else if m == 5 {
        120
    } else if m == 6 {
        151
    } else if m == 7 {
        181
    } else if m == 8 {
        212
    } else if m == 9 {
        243
    } else if m == 10 {
        273
    } else if m == 11 {
        304
    } else {
        334
    };
    if m > 2 && is_leap_year(y) { base + 1 } else { base }
}

/// Days from 0000-01-01 to the given date.
pub open spec fn day_number(y: int, m: int, d: int) -> int {
    days_before_year(y) + days_before_month(y, m) + d - 1
}

/// Day number of the day after the last supported date.
pub open spec fn day_number_limit() -> int {
    days_before_year(MAX_YEAR + 1)
}

/// Monday-origin weekday of a day number; 0000-01-01 was a Saturday.
pub open spec fn weekday_of_day_number(n: int) -> int {
    (n + 5) % 7
}

pub open spec fn weekday_from_index(i: int) -> Weekday {
    if i == 0 {
        Weekday::Monday
    } else if i == 1 {
        Weekday::Tuesday
    } else if i == 2 {
        Weekday::Wednesday
    } else if i == 3 {
        Weekday::Thursday
    } else if i == 4 {
        Weekday::Friday
    } else if i == 5 {
        Weekday::Saturday
    } else {
        Weekday::Sunday
    }
}

/// A wall-clock reading: a date and a time of day, with no zone attached.
#[derive(PartialEq, Eq, Structural, Clone, Copy, Debug)]
pub struct CivilDateTime {
    pub year: i32,
    pub month: u8,
    pub day: u8,
    pub hour: u8,
    pub minute: u8,
    pub second: u8,
    pub nanosecond: u32,
}

/// An instant: the wall-clock reading at a fixed offset east of UTC.
#[derive(PartialEq, Eq, Structural, Clone, Copy, Debug)]
pub struct DateTime {
    pub civil: CivilDateTime,
    pub offset_seconds: i32,
}

pub open spec fn valid_offset(secs: int) -> bool {
    -SECONDS_PER_DAY < secs < SECONDS_PER_DAY
}

impl CivilDateTime {
    pub open spec fn wf(&self) -> bool {
        valid_date(self.year as int, self.month as int, self.day as int) && valid_time(
            self.hour as int,
            self.minute as int,
            self.second as int,
            self.nanosecond as int,
        )
    }

    pub open spec fn spec_day_number(&self) -> int {
        day_number(self.year as int, self.month as int, self.day as int)
    }

    /// Whole seconds since 0000-01-01T00:00:00 on this wall clock.
    pub open spec fn spec_timestamp(&self) -> int {
        self.spec_day_number() * SECONDS_PER_DAY + self.hour * 3600 + self.minute * 60
            + self.second
    }
}

impl DateTime {
    pub open spec fn wf(&self) -> bool {
        self.civil.wf() && valid_offset(self.offset_seconds as int)
    }

    /// Whole seconds since 0000-01-01T00:00:00 UTC.
    pub open spec fn spec_utc_timestamp(&self) -> int {
        self.civil.spec_timestamp() - self.offset_seconds
    }
}

/// Day numbers grow by the length of each year.
pub proof fn lemma_year_step(y: int)
    requires
        y >= 0,
    ensures
        days_before_year(y + 1) == days_before_year(y) + 365 + (if is_leap_year(y) { 1int } else { 0 }),
{
}

pub proof fn lemma_year_bounds(y: int)
    requires
        y >= 0,
    ensures
        365 * y <= days_before_year(y) <= 366 * y,
    decreases y,
{
    if y > 0 {
        lemma_year_bounds(y - 1);
        lemma_year_step(y - 1);
    }
}

pub proof fn lemma_year_monotone(a: int, b: int)
    requires
        0 <= a <= b,
    ensures
        days_before_year(a) + 365 * (b - a) <= days_before_year(b),
    decreases b - a,
{
    if a < b {
        lemma_year_monotone(a, b - 1);
        lemma_year_step(b - 1);
    }
}

/// Length of a month of a supported year.
pub fn days_in_month(year: i32, month: u8) -> (r: u8)
    requires
        1 <= month <= 12,
    ensures
        r as int == month_length(year as int, month as int),
{
    if month == 2 {
        if (year % 4 == 0 && year % 100 != 0) || year % 400 == 0 {
            29
        } else {
            28
        }
    } else if month == 4 || month == 6 || month == 9 || month == 11 {
        30
    } else {
        31
    }
}

/// Whether (year, month, day) is a real date of a supported year.
pub fn is_valid_date(year: i32, month: u8, day: u8) -> (r: bool)
    ensures
        r == valid_date(year as int, month as int, day as int),
{
    MIN_YEAR <= year && year <= MAX_YEAR && 1 <= month && month <= 12 && 1 <= day && day
        <= days_in_month(year, month)
}

fn days_before_year_exec(y: i64) -> (r: i64)
    requires
        0 <= y <= 300_000,
    ensures
        r as int == days_before_year(y as int),
{
    365 * y + (y + 3) / 4 - (y + 99) / 100 + (y + 399) / 400
}

fn days_before_month_exec(y: i32, m: u8) -> (r: i64)
    requires
        1 <= m <= 12,
    ensures
        r as int == days_before_month(y as int, m as int),
{
    let base: i64 = if m == 1 {
        0
    } else if m == 2 {
        31
    } else if m == 3 {
        59
    } else if m == 4 {
        90
    } else if m == 5 {
        120
    } else if m == 6 {
        151
    } else if m == 7 {
        181
    } else if m == 8 {
        212
    } else if m == 9 {
        243
    } else if m == 10 {
        273
    } else if m == 11 {
        304
    } else {
        334
    };
    if m > 2 && days_in_month(y, 2) == 29 {
        base + 1
    } else {
        base
    }
}

/// Days from 0000-01-01 to a valid date.
pub fn date_to_day_number(year: i32, month: u8, day: u8) -> (r: i64)
    requires
        valid_date(year as int, month as int, day as int),
    ensures
        r as int == day_number(year as int, month as int, day as int),
        0 <= r < day_number_limit(),
{
    proof {
        lemma_year_monotone(year as int, MAX_YEAR + 1);
    }
    days_before_year_exec(year as i64) + days_before_month_exec(year, month) + day as i64 - 1
}

/// The date with the given day number.
pub fn day_number_to_date(n: i64) -> (r: (i32, u8, u8))
    requires
        0 <= n < day_number_limit(),
    ensures
        valid_date(r.0 as int, r.1 as int, r.2 as int),
        day_number(r.0 as int, r.1 as int, r.2 as int) == n,
{
    let mut y: i64 = n / 366;
    proof {
        lemma_year_bounds(y as int);
        lemma_year_bounds(MAX_YEAR + 1);
    }
    while days_before_year_exec(y + 1) <= n
        invariant
            0 <= y,
            365 * y <= days_before_year(y as int) <= n,
            n < day_number_limit(),
            day_number_limit() <= 366 * (MAX_YEAR + 1),
        decreases n - days_before_year(y as int),
    {
        proof {
            lemma_year_step(y as int);
            lemma_year_bounds(y + 1);
        }
        y = y + 1;
    }
    proof {
        lemma_year_step(y as int);
        if y > MAX_YEAR {
            lemma_year_monotone(MAX_YEAR + 1, y as int);
        }
    }
    let year = y as i32;
    let mut rest: i64 = n - days_before_year_exec(y);
    let mut m: u8 = 1;
    while m < 12 && rest >= days_in_month(year, m) as i64
        invariant
            1 <= m <= 12,
            0 <= rest,
            year == y,
            rest + days_before_month(year as int, m as int) == n - days_before_year(y as int),
            n < days_before_year(y + 1),
        decreases 12 - m,
    {
        rest = rest - days_in_month(year, m) as i64;
        m = m + 1;
    }
    (year, m, (rest + 1) as u8)
}

/// Monday-origin weekday of a valid date.
pub fn weekday_of_date(year: i32, month: u8, day: u8) -> (r: Weekday)
    requires
        valid_date(year as int, month as int, day as int),
    ensures
        r == weekday_from_index(weekday_of_day_number(day_number(year as int, month as int, day as int))),
{
    let n = date_to_day_number(year, month, day);
    let i = (n + 5) % 7;
    if i == 0 {
        Weekday::Monday
    } else if i == 1 {
        Weekday::Tuesday
    } else if i == 2 {
        Weekday::Wednesday
    } else if i == 3 {
        Weekday::Thursday
    } else if i == 4 {
        Weekday::Friday
    } else if i == 5 {
        Weekday::Saturday
    } else {
        Weekday::Sunday
    }
}

/// Index of month `m` of year `y` in a count of all months since year 0:
/// `12 * y + (m - 1)`.
pub open spec fn month_count(y: int, m: int) -> int {
    12 * y + (m - 1)
}

/// Calendar-safe month arithmetic: move `k` months (backward when negative)
/// and clamp the day to the length of the target month. `None` when the
/// target year is not supported.
pub open spec fn shift_months(y: int, m: int, d: int, k: int) -> Option<(int, int, int)> {
    let total = month_count(y, m) + k;
    let ny = total / 12;
    let nm = total % 12 + 1;
    if total < 0 || !year_in_range(ny) {
        None
    } else {
        Some((ny, nm, if d <= month_length(ny, nm) { d } else { month_length(ny, nm) }))
    }
}

/// Moves a valid date by `months` months, clamping the day of month.
pub fn add_months(year: i32, month: u8, day: u8, months: i64) -> (r: Option<(i32, u8, u8)>)
    requires
        valid_date(year as int, month as int, day as int),
    ensures
        match shift_months(year as int, month as int, day as int, months as int) {
            Some((y, m, d)) => r == Some((y as i32, m as u8, d as u8)),
            None => r.is_none(),
        },
        r matches Some((y, m, d)) ==> valid_date(y as int, m as int, d as int),
{
    let total: i128 = 12 * (year as i128) + (month as i128 - 1) + months as i128;
    if total < 0 {
        return None;
    }
    let ny = total / 12;
    if ny > MAX_YEAR as i128 {
        return None;
    }
    let nm = (total % 12 + 1) as u8;
    let len = days_in_month(ny as i32, nm);
    let nd = if day <= len {
        day
    } else {
        len
    };
    Some((ny as i32, nm, nd))
}

/// Adding one month to any valid date gives a valid date whose day is the
/// starting day clamped to the next month's length; from January 31st that is
/// February 29th in a leap year and February 28th otherwise.
pub proof fn lemma_one_month_clamps(y: int, m: int, d: int)
    requires
        valid_date(y, m, d),
        year_in_range(if m == 12 { y + 1 } else { y }),
    ensures
        shift_months(y, m, d, 1) matches Some((ny, nm, nd)) && valid_date(ny, nm, nd) && nd
            == (if d <= month_length(ny, nm) { d } else { month_length(ny, nm) }) && ny == (if m
            == 12 { y + 1 } else { y }) && nm == (if m == 12 { 1 } else { m + 1 }),
        m == 1 && d == 31 ==> shift_months(y, m, d, 1) == Some(
            (y, 2int, if is_leap_year(y) { 29int } else { 28int }),
        ),
{
}

/// Twelve months after February 29th is February 28th of the next year: the
/// day is clamped and never rolls into March.
pub proof fn lemma_leap_day_plus_year(y: int)
    requires
        is_leap_year(y),
        year_in_range(y),
        year_in_range(y + 1),
    ensures
        shift_months(y, 2, 29, 12) == Some((y + 1, 2int, 28int)),
{
}

/// Seconds since midnight for a time of day.
pub open spec fn seconds_of_day(h: int, mi: int, s: int) -> int {
    h * 3600 + mi * 60 + s
}

/// First whole second after the last supported one.
pub open spec fn timestamp_limit() -> int {
    day_number_limit() * SECONDS_PER_DAY
}

impl CivilDateTime {
    /// Seconds since 0000-01-01T00:00:00 on this wall clock.
    pub fn timestamp(&self) -> (r: i64)
        requires
            self.wf(),
        ensures
            r as int == self.spec_timestamp(),
            0 <= r < timestamp_limit(),
    {
        let days = date_to_day_number(self.year, self.month, self.day);
        days * SECONDS_PER_DAY + self.hour as i64 * 3600 + self.minute as i64 * 60
            + self.second as i64
    }

    /// The wall-clock reading `t` seconds after 0000-01-01T00:00:00, with the
    /// given nanoseconds.
    pub fn from_timestamp(t: i64, nanosecond: u32) -> (r: CivilDateTime)
        requires
            0 <= t < timestamp_limit(),
            nanosecond < NANOS_PER_SECOND,
        ensures
            r.wf(),
            r.spec_timestamp() == t,
            r.nanosecond == nanosecond,
    {
        let days = t / SECONDS_PER_DAY;
        let sod = t % SECONDS_PER_DAY;
        let (year, month, day) = day_number_to_date(days);
        let hour = (sod / 3600) as u8;
        let minute = ((sod % 3600) / 60) as u8;
        let second = (sod % 60) as u8;
        CivilDateTime { year, month, day, hour, minute, second, nanosecond }
    }

    /// The reading `delta` seconds later (earlier when negative), or `None`
    /// outside the supported years.
    pub fn add_seconds(&self, delta: i128) -> (r: Option<CivilDateTime>)
        requires
            self.wf(),
        ensures
            match r {
                Some(c) => c.wf() && c.spec_timestamp() == self.spec_timestamp() + delta
                    && c.nanosecond == self.nanosecond,
                None => !(0 <= self.spec_timestamp() + delta < timestamp_limit()),
            },
    {
        proof {
            lemma_year_bounds(MAX_YEAR + 1);
        }
        let days_limit = day_number_limit_exec();
        let limit = days_limit as i128 * 86400;
        if delta >= limit || delta <= -limit {
            return None;
        }
        let t = self.timestamp() as i128 + delta;
        if t < 0 || t >= limit {
            None
        } else {
            Some(CivilDateTime::from_timestamp(t as i64, self.nanosecond))
        }
    }

    /// Whether this is a real reading of a supported year.
    pub fn is_well_formed(&self) -> (r: bool)
        ensures
            r == self.wf(),
    {
        is_valid_date(self.year, self.month, self.day) && self.hour < 24 && self.minute < 60
            && self.second < 60 && self.nanosecond < NANOS_PER_SECOND
    }

}

pub fn day_number_limit_exec() -> (r: i64)
    ensures
        r as int == day_number_limit(),
        0 < r <= 95_944_338,
{
    proof {
        lemma_year_bounds(MAX_YEAR + 1);
    }
    days_before_year_exec(MAX_YEAR as i64 + 1)
}

impl DateTime {
    /// The same instant read at another offset, or `None` when that reading
    /// falls outside the supported years.
    pub fn with_offset(&self, offset_seconds: i32) -> (r: Option<DateTime>)
        requires
            self.wf(),
            valid_offset(offset_seconds as int),
        ensures
            match r {
                Some(x) => x.wf() && x.offset_seconds == offset_seconds && x.spec_utc_timestamp()
                    == self.spec_utc_timestamp() && x.civil.nanosecond == self.civil.nanosecond,
                None => !(0 <= self.spec_utc_timestamp() + offset_seconds < timestamp_limit()),
            },
    {
        match self.civil.add_seconds(offset_seconds as i128 - self.offset_seconds as i128) {
            Some(civil) => Some(DateTime { civil, offset_seconds }),
            None => None,
        }
    }
}

proof fn lemma_day_of_year_bounds(y: int, m: int, d: int)
    requires
        valid_date(y, m, d),
    ensures
        0 <= days_before_month(y, m) + d - 1 < days_before_year(y + 1) - days_before_year(y),
{
    lemma_year_step(y);
}

/// Different valid dates have different day numbers.
pub proof fn lemma_day_number_injective(y1: int, m1: int, d1: int, y2: int, m2: int, d2: int)
    requires
        valid_date(y1, m1, d1),
        valid_date(y2, m2, d2),
        day_number(y1, m1, d1) == day_number(y2, m2, d2),
    ensures
        y1 == y2 && m1 == m2 && d1 == d2,
{
    lemma_day_of_year_bounds(y1, m1, d1);
    lemma_day_of_year_bounds(y2, m2, d2);
    if y1 < y2 {
        lemma_year_monotone(y1 + 1, y2);
    } else if y2 < y1 {
        lemma_year_monotone(y2 + 1, y1);
    }
    assert(y1 == y2);
}

/// Different well-formed readings have different timestamps or nanoseconds.
pub proof fn lemma_timestamp_injective(a: CivilDateTime, b: CivilDateTime)
    requires
        a.wf(),
        b.wf(),
        a.spec_timestamp() == b.spec_timestamp(),
        a.nanosecond == b.nanosecond,
    ensures
        a == b,
{
    let sa = seconds_of_day(a.hour as int, a.minute as int, a.second as int);
    let sb = seconds_of_day(b.hour as int, b.minute as int, b.second as int);
    assert(0 <= sa < SECONDS_PER_DAY);
    assert(0 <= sb < SECONDS_PER_DAY);
    assert(a.spec_day_number() == b.spec_day_number()) by (nonlinear_arith)
        requires
            a.spec_day_number() * SECONDS_PER_DAY + sa == b.spec_day_number() * SECONDS_PER_DAY
                + sb,
            0 <= sa < SECONDS_PER_DAY,
            0 <= sb < SECONDS_PER_DAY,
            SECONDS_PER_DAY == 86400,
    ;
    lemma_day_number_injective(
        a.year as int,
        a.month as int,
        a.day as int,
        b.year as int,
        b.month as int,
        b.day as int,
    );
    assert(a.hour == b.hour);
    assert(a.minute == b.minute);
}

} // verus!
