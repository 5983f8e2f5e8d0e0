//! The interpreter: turns a [`TimeExpression`] and the current instant into a
//! concrete date-time.
//!
//! Month and year steps are calendar-safe (the day is clamped to the target
//! month); seconds to weeks are fixed durations. Results that name a wall-clock
//! reading without a zone are returned as [`Resolution::Local`], to be placed
//! in the system zone with [`place_local`].
use vstd::prelude::*;

use crate::calendar::{
    add_months, date_to_day_number, day_number, day_number_limit, is_valid_date, seconds_of_day,
    shift_months, valid_date, valid_offset, valid_time, weekday_from_index,
    weekday_of_date, weekday_of_day_number, CivilDateTime, DateTime, SECONDS_PER_DAY,
};
use crate::error::{ErrorView, TempsError};
use crate::expr::{
    AbsoluteTime, DayReference, Direction, RelativeTime, Time, TimeExpression,
    TimeUnit, Timezone, weekday_index,
};
use crate::time_utils::{
    calculate_timezone_offset_seconds, calculate_weekday_offset, convert_12_to_24_hour, hour_24,
    offset_seconds, weekday_offset,
};

verus! {

/// Where a resolved expression lies in time.
#[derive(PartialEq, Eq, Structural, Clone, Copy, Debug)]
pub enum Resolution {
    /// An exact instant.
    Exact(DateTime),
    /// A wall-clock reading in the system's local zone, not yet placed.
    Local(CivilDateTime),
}

/// The offsets at which the system zone shows a wall-clock reading: none (a
/// gap), one, or two (a fold).
#[derive(PartialEq, Eq, Structural, Clone, Copy, Debug)]
pub enum LocalOffsets {
    Gap,
    Single(i32),
    Fold(i32, i32),
}

/// What resolving must produce, described by wall-clock seconds since
/// 0000-01-01T00:00:00.
pub enum Target {
    Fail(ErrorView),
    Exact { wall: int, nanosecond: int, offset: int },
    Local { wall: int, nanosecond: int },
}

/// `r` is the value that `t` describes.
pub open spec fn realizes(r: Result<Resolution, TempsError>, t: Target) -> bool {
    match t {
        Target::Fail(e) => r matches Err(x) && x@ == e,
        Target::Exact { wall, nanosecond, offset } => r matches Ok(Resolution::Exact(d)) && d.wf()
            && d.civil.spec_timestamp() == wall && d.civil.nanosecond == nanosecond
            && d.offset_seconds == offset,
        Target::Local { wall, nanosecond } => r matches Ok(Resolution::Local(c)) && c.wf()
            && c.spec_timestamp() == wall && c.nanosecond == nanosecond,
    }
}

pub open spec fn calc_error(message: Seq<char>) -> ErrorView {
    ErrorView::DateCalculationError { message, context: None }
}

pub open spec fn out_of_range() -> ErrorView {
    calc_error("Date calculation resulted in invalid date"@)
}

pub open spec fn now_day_number(now: DateTime) -> int {
    day_number(now.civil.year as int, now.civil.month as int, now.civil.day as int)
}

/// Seconds in one unit of a fixed-length unit.
pub open spec fn unit_seconds(u: TimeUnit) -> int {
    match u {
        TimeUnit::Second => 1,
        TimeUnit::Minute => 60,
        TimeUnit::Hour => 3600,
        TimeUnit::Day => 86400,
        TimeUnit::Week => 604800,
        _ => 0,
    }
}

pub open spec fn signed(amount: int, direction: Direction) -> int {
    match direction {
        Direction::Future => amount,
        Direction::Past => -amount,
    }
}

/// A wall-clock reading at the given offset, or the range error.
pub open spec fn exact_target(wall: int, nanosecond: int, offset: int) -> Target {
    if 0 <= wall < day_number_limit() * SECONDS_PER_DAY {
        Target::Exact { wall, nanosecond, offset }
    } else {
        Target::Fail(out_of_range())
    }
}

/// Calendar-safe month steps from `now`, keeping the time of day.
pub open spec fn month_target(now: DateTime, months: int) -> Target {
    let c = now.civil;
    match shift_months(c.year as int, c.month as int, c.day as int, months) {
        Some((y, m, d)) => Target::Local {
            wall: day_number(y, m, d) * SECONDS_PER_DAY + seconds_of_day(
                c.hour as int,
                c.minute as int,
                c.second as int,
            ),
            nanosecond: c.nanosecond as int,
        },
        None => Target::Fail(out_of_range()),
    }
}

pub open spec fn relative_target(rel: RelativeTime, now: DateTime) -> Target {
    match rel.unit {
        TimeUnit::Month => if rel.amount < 0 || rel.amount > u32::MAX {
            Target::Fail(calc_error("Month amount must be a positive number"@))
        } else {
            month_target(now, signed(rel.amount as int, rel.direction))
        },
        TimeUnit::Year => if rel.amount * 12 > i64::MAX || rel.amount * 12 < i64::MIN {
            Target::Fail(ErrorView::ArithmeticOverflow { operation: "Year calculation overflow"@ })
        } else if rel.amount * 12 < 0 || rel.amount * 12 > u32::MAX {
            Target::Fail(calc_error("Year amount must be a positive number"@))
        } else {
            month_target(now, signed(rel.amount * 12, rel.direction))
        },
        _ => exact_target(
            now.civil.spec_timestamp() + signed(rel.amount * unit_seconds(rel.unit), rel.direction),
            now.civil.nanosecond as int,
            now.offset_seconds as int,
        ),
    }
}

/// Day number of the day a day reference names, seen from `now`.
pub open spec fn referenced_day(r: DayReference, now: DateTime) -> int {
    let n = now_day_number(now);
    match r {
        DayReference::Today => n,
        DayReference::Yesterday => n - 1,
        DayReference::Tomorrow => n + 1,
        DayReference::Weekday { day, modifier } => n + weekday_offset(
            weekday_of_day_number(n),
            weekday_index(day),
            modifier,
        ),
    }
}

pub open spec fn day_in_range(n: int) -> bool {
    0 <= n < day_number_limit()
}

/// The time `t` on day `n`, local.
pub open spec fn time_on_day(n: int, t: Time) -> Target {
    let h = hour_24(t.hour as int, t.meridiem);
    if valid_time(h, t.minute as int, t.second as int, 0) {
        Target::Local {
            wall: n * SECONDS_PER_DAY + seconds_of_day(h, t.minute as int, t.second as int),
            nanosecond: 0,
        }
    } else {
        Target::Fail(ErrorView::InvalidTime { hour: t.hour, minute: t.minute, second: t.second })
    }
}

pub open spec fn absolute_target(a: AbsoluteTime) -> Target {
    if !valid_date(a.year as int, a.month as int, a.day as int) {
        Target::Fail(ErrorView::InvalidDate { year: a.year, month: a.month, day: a.day })
    } else {
        let n = day_number(a.year as int, a.month as int, a.day as int);
        match (a.hour, a.minute) {
            (Some(h), Some(m)) => {
                let s = match a.second {
                    Some(x) => x,
                    None => 0u8,
                };
                let ns = match a.nanosecond {
                    Some(x) => x,
                    None => 0u32,
                };
                if !valid_time(h as int, m as int, s as int, ns as int) {
                    Target::Fail(ErrorView::InvalidTime { hour: h, minute: m, second: s })
                } else {
                    let wall = n * SECONDS_PER_DAY + seconds_of_day(h as int, m as int, s as int);
                    match a.timezone {
                        Some(Timezone::Utc) => Target::Exact { wall, nanosecond: ns as int, offset: 0 },
                        Some(Timezone::Offset { hours, minutes }) => {
                            let off = offset_seconds(hours as int, minutes as int);
                            if valid_offset(off) {
                                Target::Exact { wall, nanosecond: ns as int, offset: off }
                            } else {
                                Target::Fail(ErrorView::InvalidTimezoneOffset { hours, minutes })
                            }
                        },
                        None => Target::Local { wall, nanosecond: ns as int },
                    }
                }
            },
            _ => Target::Local { wall: n * SECONDS_PER_DAY, nanosecond: 0 },
        }
    }
}

/// What `expr` resolves to when the current instant is `now`.
pub open spec fn resolve_target(expr: TimeExpression, now: DateTime) -> Target {
    match expr {
        TimeExpression::Now => Target::Exact {
            wall: now.civil.spec_timestamp(),
            nanosecond: now.civil.nanosecond as int,
            offset: now.offset_seconds as int,
        },
        TimeExpression::Relative(rel) => relative_target(rel, now),
        TimeExpression::Absolute(a) => absolute_target(a),
        TimeExpression::Day(r) => {
            let n = referenced_day(r, now);
            if day_in_range(n) {
                Target::Local { wall: n * SECONDS_PER_DAY, nanosecond: 0 }
            } else {
                Target::Fail(out_of_range())
            }
        },
        TimeExpression::Time(t) => time_on_day(now_day_number(now), t),
        TimeExpression::DayTime(dt) => {
            let n = referenced_day(dt.day, now);
            if day_in_range(n) {
                time_on_day(n, dt.time)
            } else {
                Target::Fail(out_of_range())
            }
        },
        TimeExpression::Date(d) => if valid_date(d.year as int, d.month as int, d.day as int) {
            Target::Local {
                wall: day_number(d.year as int, d.month as int, d.day as int) * SECONDS_PER_DAY,
                nanosecond: 0,
            }
        } else {
            Target::Fail(ErrorView::InvalidDate { year: d.year, month: d.month, day: d.day })
        },
    }
}

fn unit_seconds_exec(u: TimeUnit) -> (r: i128)
    ensures
        r as int == unit_seconds(u),
        0 <= r <= 604800,
{
    match u {
        TimeUnit::Second => 1,
        TimeUnit::Minute => 60,
        TimeUnit::Hour => 3600,
        TimeUnit::Day => 86400,
        TimeUnit::Week => 604800,
        _ => 0,
    }
}

fn local_at_day(n: i64, t: Option<(u8, u8, u8)>) -> (r: CivilDateTime)
    requires
        day_in_range(n as int),
        t matches Some((h, m, s)) ==> valid_time(h as int, m as int, s as int, 0),
    ensures
        r.wf(),
        r.nanosecond == 0,
        r.spec_timestamp() == n * SECONDS_PER_DAY + match t {
            Some((h, m, s)) => seconds_of_day(h as int, m as int, s as int),
            None => 0,
        },
{
    let sod: i64 = match t {
        Some((h, m, s)) => h as i64 * 3600 + m as i64 * 60 + s as i64,
        None => 0,
    };
    let (year, month, day) = crate::calendar::day_number_to_date(n);
    let c = CivilDateTime { year, month, day, hour: 0, minute: 0, second: 0, nanosecond: 0 };
    match t {
        Some((hour, minute, second)) => CivilDateTime { hour, minute, second, ..c },
        None => c,
    }
}

fn month_step(now: &DateTime, months: i64) -> (r: Result<Resolution, TempsError>)
    requires
        now.wf(),
    ensures
        realizes(r, month_target(*now, months as int)),
{
    let c = now.civil;
    match add_months(c.year, c.month, c.day, months) {
        Some((year, month, day)) => {
            let moved = CivilDateTime { year, month, day, ..c };
            proof {
                assert(moved.wf());
            }
            Ok(Resolution::Local(moved))
        },
        None => Err(TempsError::date_calculation("Date calculation resulted in invalid date")),
    }
}

fn resolve_relative(rel: &RelativeTime, now: &DateTime) -> (r: Result<Resolution, TempsError>)
    requires
        now.wf(),
    ensures
        realizes(r, relative_target(*rel, *now)),
{
    match rel.unit {
        TimeUnit::Month => {
            if rel.amount < 0 || rel.amount > u32::MAX as i64 {
                return Err(TempsError::date_calculation("Month amount must be a positive number"));
            }
            let months = match rel.direction {
                Direction::Future => rel.amount,
                Direction::Past => -rel.amount,
            };
            month_step(now, months)
        },
        TimeUnit::Year => {
            let total = match rel.amount.checked_mul(12) {
                Some(x) => x,
                None => return Err(TempsError::arithmetic_overflow("Year calculation overflow")),
            };
            if total < 0 || total > u32::MAX as i64 {
                return Err(TempsError::date_calculation("Year amount must be a positive number"));
            }
            let months = match rel.direction {
                Direction::Future => total,
                Direction::Past => -total,
            };
            month_step(now, months)
        },
        _ => {
            let per_unit = unit_seconds_exec(rel.unit);
            let amount = rel.amount as i128;
            proof {
                assert(-604800 * 0x8000_0000_0000_0000 <= amount * per_unit <= 604800 * 0x8000_0000_0000_0000)
                    by (nonlinear_arith)
                    requires
                        -0x8000_0000_0000_0000 <= amount < 0x8000_0000_0000_0000,
                        0 <= per_unit <= 604800,
                ;
            }
            let secs = amount * per_unit;
            let delta = match rel.direction {
                Direction::Future => secs,
                Direction::Past => -secs,
            };
            match now.civil.add_seconds(delta) {
                Some(civil) => Ok(Resolution::Exact(DateTime { civil, offset_seconds: now.offset_seconds })),
                None => Err(TempsError::date_calculation("Date calculation resulted in invalid date")),
            }
        },
    }
}

fn referenced_day_exec(r: &DayReference, now: &DateTime) -> (n: i64)
    requires
        now.wf(),
    ensures
        n as int == referenced_day(*r, *now),
{
    let c = now.civil;
    let n = date_to_day_number(c.year, c.month, c.day);
    match r {
        DayReference::Today => n,
        DayReference::Yesterday => n - 1,
        DayReference::Tomorrow => n + 1,
        DayReference::Weekday { day, modifier } => {
            let current = weekday_of_date(c.year, c.month, c.day);
            proof {
                let w = weekday_of_day_number(n as int);
                assert(0 <= w < 7);
                assert(weekday_index(weekday_from_index(w)) == w);
            }
            let off = calculate_weekday_offset(
                current.num_days_from_monday() as i64,
                day.num_days_from_monday() as i64,
                *modifier,
            );
            n + off
        },
    }
}

fn day_in_range_exec(n: i64) -> (r: bool)
    ensures
        r == day_in_range(n as int),
{
    proof {
        crate::calendar::lemma_year_bounds(crate::calendar::MAX_YEAR + 1);
    }
    0 <= n && n < crate::calendar::day_number_limit_exec()
}

fn time_on_day_exec(n: i64, t: &Time) -> (r: Result<Resolution, TempsError>)
    requires
        day_in_range(n as int),
    ensures
        realizes(r, time_on_day(n as int, *t)),
{
    let invalid = TempsError::invalid_time(t.hour, t.minute, t.second);
    if t.meridiem == Some(crate::expr::Meridiem::PM) && t.hour > 23 {
        return Err(invalid);
    }
    let h = convert_12_to_24_hour(t.hour, t.meridiem.as_ref());
    if h >= 24 || t.minute >= 60 || t.second >= 60 {
        return Err(invalid);
    }
    Ok(Resolution::Local(local_at_day(n, Some((h, t.minute, t.second)))))
}

fn resolve_absolute(a: &AbsoluteTime) -> (r: Result<Resolution, TempsError>)
    ensures
        realizes(r, absolute_target(*a)),
{
    if !is_valid_date(a.year as i32, a.month, a.day) {
        return Err(TempsError::invalid_date(a.year, a.month, a.day));
    }
    let n = date_to_day_number(a.year as i32, a.month, a.day);
    match (a.hour, a.minute) {
        (Some(h), Some(m)) => {
            let s = match a.second {
                Some(x) => x,
                None => 0u8,
            };
            let ns = match a.nanosecond {
                Some(x) => x,
                None => 0u32,
            };
            if h >= 24 || m >= 60 || s >= 60 || ns >= 1_000_000_000 {
                return Err(TempsError::invalid_time(h, m, s));
            }
            let civil = CivilDateTime { nanosecond: ns, ..local_at_day(n, Some((h, m, s))) };
            match a.timezone {
                Some(Timezone::Utc) => Ok(Resolution::Exact(DateTime { civil, offset_seconds: 0 })),
                Some(Timezone::Offset { hours, minutes }) => {
                    let off = calculate_timezone_offset_seconds(hours, minutes);
                    if off <= -86400 || off >= 86400 {
                        Err(TempsError::invalid_timezone_offset(hours, minutes))
                    } else {
                        Ok(Resolution::Exact(DateTime { civil, offset_seconds: off }))
                    }
                },
                None => Ok(Resolution::Local(civil)),
            }
        },
        _ => Ok(Resolution::Local(local_at_day(n, None))),
    }
}

/// Resolves `expr` against the current instant `now`.
pub fn resolve(expr: &TimeExpression, now: &DateTime) -> (r: Result<Resolution, TempsError>)
    requires
        now.wf(),
    ensures
        realizes(r, resolve_target(*expr, *now)),
{
    match expr {
        TimeExpression::Now => Ok(Resolution::Exact(*now)),
        TimeExpression::Relative(rel) => resolve_relative(rel, now),
        TimeExpression::Absolute(a) => resolve_absolute(a),
        TimeExpression::Day(d) => {
            let n = referenced_day_exec(d, now);
            if day_in_range_exec(n) {
                Ok(Resolution::Local(local_at_day(n, None)))
            } else {
                Err(TempsError::date_calculation("Date calculation resulted in invalid date"))
            }
        },
        TimeExpression::Time(t) => {
            let c = now.civil;
            let n = date_to_day_number(c.year, c.month, c.day);
            time_on_day_exec(n, t)
        },
        TimeExpression::DayTime(dt) => {
            let n = referenced_day_exec(&dt.day, now);
            if day_in_range_exec(n) {
                time_on_day_exec(n, &dt.time)
            } else {
                Err(TempsError::date_calculation("Date calculation resulted in invalid date"))
            }
        },
        TimeExpression::Date(d) => {
            if !is_valid_date(d.year as i32, d.month, d.day) {
                return Err(TempsError::invalid_date(d.year, d.month, d.day));
            }
            let n = date_to_day_number(d.year as i32, d.month, d.day);
            Ok(Resolution::Local(local_at_day(n, None)))
        },
    }
}

/// Places a wall-clock reading in the system zone, given the offsets at which
/// that zone shows it: exactly one offset is needed.
pub fn place_local(civil: &CivilDateTime, offsets: LocalOffsets) -> (r: Result<DateTime, TempsError>)
    requires
        civil.wf(),
    ensures
        match offsets {
            LocalOffsets::Single(off) if valid_offset(off as int) => r == Ok::<DateTime, TempsError>(
                DateTime { civil: *civil, offset_seconds: off },
            ),
            _ => r matches Err(e) && e@ == ErrorView::AmbiguousTime {
                message: "Ambiguous or invalid local time"@,
            },
        },
        r matches Ok(d) ==> d.wf(),
{
    match offsets {
        LocalOffsets::Single(off) => {
            if -86400 < off && off < 86400 {
                Ok(DateTime { civil: *civil, offset_seconds: off })
            } else {
                Err(TempsError::ambiguous_time("Ambiguous or invalid local time"))
            }
        },
        _ => Err(TempsError::ambiguous_time("Ambiguous or invalid local time")),
    }
}

/// Two results agree: equal values, or errors with equal views.
pub open spec fn same_result<T>(r1: Result<T, TempsError>, r2: Result<T, TempsError>) -> bool {
    match (r1, r2) {
        (Ok(a), Ok(b)) => a == b,
        (Err(a), Err(b)) => a@ == b@,
        _ => false,
    }
}

/// A target describes at most one result.
pub proof fn lemma_realizes_unique(
    r1: Result<Resolution, TempsError>,
    r2: Result<Resolution, TempsError>,
    t: Target,
)
    requires
        realizes(r1, t),
        realizes(r2, t),
    ensures
        same_result(r1, r2),
{
    match t {
        Target::Fail(_) => {},
        Target::Exact { .. } => {
            if let (Ok(Resolution::Exact(a)), Ok(Resolution::Exact(b))) = (r1, r2) {
                crate::calendar::lemma_timestamp_injective(a.civil, b.civil);
            }
        },
        Target::Local { .. } => {
            if let (Ok(Resolution::Local(a)), Ok(Resolution::Local(b))) = (r1, r2) {
                crate::calendar::lemma_timestamp_injective(a, b);
            }
        },
    }
}

/// `in 1 month` from any date gives the same time of day in the next month,
/// on the same day clamped to that month's length: never an invalid date and
/// never a day of the month after. When the next month falls after the last
/// supported year, the range error comes instead.
pub proof fn lemma_one_month_resolution(now: DateTime)
    requires
        now.wf(),
    ensures
        ({
            let c = now.civil;
            let y2 = if c.month == 12 { c.year + 1 } else { c.year as int };
            let m2 = if c.month == 12 { 1int } else { c.month + 1 };
            let len = crate::calendar::month_length(y2, m2);
            let d2 = if c.day <= len { c.day as int } else { len };
            let target = resolve_target(
                TimeExpression::Relative(
                    RelativeTime { amount: 1, unit: TimeUnit::Month, direction: Direction::Future },
                ),
                now,
            );
            if crate::calendar::year_in_range(y2) {
                crate::calendar::valid_date(y2, m2, d2) && target == (Target::Local {
                    wall: day_number(y2, m2, d2) * SECONDS_PER_DAY + seconds_of_day(
                        c.hour as int,
                        c.minute as int,
                        c.second as int,
                    ),
                    nanosecond: c.nanosecond as int,
                })
            } else {
                target == Target::Fail(out_of_range())
            }
        }),
{
    let c = now.civil;
    if crate::calendar::year_in_range(if c.month == 12 { c.year + 1 } else { c.year as int }) {
        crate::calendar::lemma_one_month_clamps(c.year as int, c.month as int, c.day as int);
    }
}

/// `in 1 month` from January 31st gives February 29th in a leap year and
/// February 28th otherwise, at the same time of day.
pub proof fn lemma_month_from_january_31(now: DateTime)
    requires
        now.wf(),
        now.civil.month == 1,
        now.civil.day == 31,
    ensures
        resolve_target(
            TimeExpression::Relative(
                RelativeTime { amount: 1, unit: TimeUnit::Month, direction: Direction::Future },
            ),
            now,
        ) == (Target::Local {
            wall: day_number(
                now.civil.year as int,
                2,
                if crate::calendar::is_leap_year(now.civil.year as int) { 29 } else { 28 },
            ) * SECONDS_PER_DAY + seconds_of_day(
                now.civil.hour as int,
                now.civil.minute as int,
                now.civil.second as int,
            ),
            nanosecond: now.civil.nanosecond as int,
        }),
{
    crate::calendar::lemma_one_month_clamps(now.civil.year as int, 1, 31);
}

/// `in 1 year` from February 29th gives February 28th of the next year: the
/// day is clamped and never rolls into March.
pub proof fn lemma_year_from_leap_day(now: DateTime)
    requires
        now.wf(),
        now.civil.month == 2,
        now.civil.day == 29,
        now.civil.year < crate::calendar::MAX_YEAR,
    ensures
        resolve_target(
            TimeExpression::Relative(
                RelativeTime { amount: 1, unit: TimeUnit::Year, direction: Direction::Future },
            ),
            now,
        ) == (Target::Local {
            wall: day_number(now.civil.year + 1, 2, 28) * SECONDS_PER_DAY + seconds_of_day(
                now.civil.hour as int,
                now.civil.minute as int,
                now.civil.second as int,
            ),
            nanosecond: now.civil.nanosecond as int,
        }),
{
    crate::calendar::lemma_leap_day_plus_year(now.civil.year as int);
}

} // verus!
