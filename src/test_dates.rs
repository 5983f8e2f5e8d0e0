//! Fixed wall-clock readings, handy as the "current moment" when resolving,
//! and sample phrases with what they read as.
use vstd::prelude::*;

use crate::calendar::{valid_date, valid_time, CivilDateTime};
use crate::expr::{Direction, Language, RelativeTime, TimeExpression, TimeUnit};

verus! {

/// The wall-clock reading with the given components and no fraction of a
/// second.
pub fn fixed_datetime(year: i32, month: u32, day: u32, hour: u32, minute: u32, second: u32) -> (r:
    CivilDateTime)
    requires
        valid_date(year as int, month as int, day as int),
        valid_time(hour as int, minute as int, second as int, 0),
    ensures
        r == (CivilDateTime {
            year,
            month: month as u8,
            day: day as u8,
            hour: hour as u8,
            minute: minute as u8,
            second: second as u8,
            nanosecond: 0,
        }),
        r.wf(),
{
    CivilDateTime {
        year,
        month: month as u8,
        day: day as u8,
        hour: hour as u8,
        minute: minute as u8,
        second: second as u8,
        nanosecond: 0,
    }
}

/// 2024-01-31 10:00:00, the last day of a month before a leap February.
pub fn jan_31_2024() -> (r: CivilDateTime)
    ensures
        r == fixed_datetime_spec(2024, 1, 31, 10, 0, 0),
        r.wf(),
{
    fixed_datetime(2024, 1, 31, 10, 0, 0)
}

/// 2024-02-29 10:00:00, a leap day.
pub fn feb_29_2024() -> (r: CivilDateTime)
    ensures
        r == fixed_datetime_spec(2024, 2, 29, 10, 0, 0),
        r.wf(),
{
    fixed_datetime(2024, 2, 29, 10, 0, 0)
}

/// 2023-06-15 14:30:00, a Thursday.
pub fn june_15_2023() -> (r: CivilDateTime)
    ensures
        r == fixed_datetime_spec(2023, 6, 15, 14, 30, 0),
        r.wf(),
{
    fixed_datetime(2023, 6, 15, 14, 30, 0)
}

pub open spec fn fixed_datetime_spec(year: i32, month: u8, day: u8, hour: u8, minute: u8, second: u8) -> CivilDateTime {
    CivilDateTime { year, month, day, hour, minute, second, nanosecond: 0 }
}

pub open spec fn rel(amount: i64, unit: TimeUnit, direction: Direction) -> TimeExpression {
    TimeExpression::Relative(RelativeTime { amount, unit, direction })
}

fn rel_exec(amount: i64, unit: TimeUnit, direction: Direction) -> (r: TimeExpression)
    ensures
        r == rel(amount, unit, direction),
{
    TimeExpression::Relative(RelativeTime { amount, unit, direction })
}

/// English relative phrases and what they read as.
pub fn english_relative_time_test_cases() -> (r: Vec<(&'static str, TimeExpression)>)
    ensures
        r@.len() == 4,
        r@[0].0@ == "in 5 seconds"@ && r@[0].1 == rel(5, TimeUnit::Second, Direction::Future),
        r@[1].0@ == "2 minutes ago"@ && r@[1].1 == rel(2, TimeUnit::Minute, Direction::Past),
        r@[2].0@ == "in an hour"@ && r@[2].1 == rel(1, TimeUnit::Hour, Direction::Future),
        r@[3].0@ == "a day ago"@ && r@[3].1 == rel(1, TimeUnit::Day, Direction::Past),
{
    let mut v: Vec<(&'static str, TimeExpression)> = Vec::new();
    v.push(("in 5 seconds", rel_exec(5, TimeUnit::Second, Direction::Future)));
    v.push(("2 minutes ago", rel_exec(2, TimeUnit::Minute, Direction::Past)));
    v.push(("in an hour", rel_exec(1, TimeUnit::Hour, Direction::Future)));
    v.push(("a day ago", rel_exec(1, TimeUnit::Day, Direction::Past)));
    v
}

/// German relative phrases and what they read as.
pub fn german_relative_time_test_cases() -> (r: Vec<(&'static str, TimeExpression)>)
    ensures
        r@.len() == 4,
        r@[0].0@ == "in 5 Sekunden"@ && r@[0].1 == rel(5, TimeUnit::Second, Direction::Future),
        r@[1].0@ == "vor 2 Minuten"@ && r@[1].1 == rel(2, TimeUnit::Minute, Direction::Past),
        r@[2].0@ == "in einer Stunde"@ && r@[2].1 == rel(1, TimeUnit::Hour, Direction::Future),
        r@[3].0@ == "vor einem Tag"@ && r@[3].1 == rel(1, TimeUnit::Day, Direction::Past),
{
    let mut v: Vec<(&'static str, TimeExpression)> = Vec::new();
    v.push(("in 5 Sekunden", rel_exec(5, TimeUnit::Second, Direction::Future)));
    v.push(("vor 2 Minuten", rel_exec(2, TimeUnit::Minute, Direction::Past)));
    v.push(("in einer Stunde", rel_exec(1, TimeUnit::Hour, Direction::Future)));
    v.push(("vor einem Tag", rel_exec(1, TimeUnit::Day, Direction::Past)));
    v
}

/// Phrases of both languages, with their language and what they read as.
pub fn language_specific_test_cases() -> (r: Vec<(&'static str, Language, TimeExpression)>)
    ensures
        r@.len() == 4,
        r@[0].0@ == "1 day ago"@ && r@[0].1 == Language::English && r@[0].2 == rel(
            1,
            TimeUnit::Day,
            Direction::Past,
        ),
        r@[1].0@ == "in 1 day"@ && r@[1].1 == Language::English && r@[1].2 == rel(
            1,
            TimeUnit::Day,
            Direction::Future,
        ),
        r@[2].0@ == "vor 1 Tag"@ && r@[2].1 == Language::German && r@[2].2 == rel(
            1,
            TimeUnit::Day,
            Direction::Past,
        ),
        r@[3].0@ == "in 1 Tag"@ && r@[3].1 == Language::German && r@[3].2 == rel(
            1,
            TimeUnit::Day,
            Direction::Future,
        ),
{
    let mut v: Vec<(&'static str, Language, TimeExpression)> = Vec::new();
    v.push(("1 day ago", Language::English, rel_exec(1, TimeUnit::Day, Direction::Past)));
    v.push(("in 1 day", Language::English, rel_exec(1, TimeUnit::Day, Direction::Future)));
    v.push(("vor 1 Tag", Language::German, rel_exec(1, TimeUnit::Day, Direction::Past)));
    v.push(("in 1 Tag", Language::German, rel_exec(1, TimeUnit::Day, Direction::Future)));
    v
}

} // verus!
