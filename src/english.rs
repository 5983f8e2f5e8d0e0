//! The English grammar.
//!
//! Alternatives are tried in a fixed order: ISO date-time, locale date,
//! day with time, `now`, day reference, time of day, `... ago`, `in ...`.
//! The first alternative that matches a prefix is taken, and only whitespace
//! may follow it. Words match without regard to ASCII case.
use vstd::prelude::*;

use crate::error::{ErrorView, TempsError};
use crate::expr::{
    DayReference, DayTime, Direction, Meridiem, RelativeTime, StandardDate, Time, TimeExpression,
    TimeUnit, Weekday, WeekdayModifier,
};
use crate::grammar::{failure_message, first, input_chars, utf8_offset, Outcome};
use crate::iso::{colon_two, colon_two_exec, iso_datetime, iso_datetime_exec, lemma_iso_datetime_end};
use crate::lexical::{
    blank1, blank1_exec, ch, char_matches, four_digits, four_digits_exec, int_digits, int_digits_exec, lift,
    lemma_digits_end, lemma_first_char_mismatch, lemma_lit_end, lemma_skip_blank_stops, lit_at,
    match_char, match_lit, no_bang_end, skip_blank, skip_blank_exec, tok, two_digits,
    two_digits_exec,
};

verus! {

/// A spelled-out count: the articles and `one` read as 1, then `two` to `ten`.
pub open spec fn number_word(s: Seq<char>, i: int) -> Option<(i64, int)> {
    if lit_at(s, i, "an"@, true) {
        Some((1, i + "an"@.len()))
    } else if lit_at(s, i, "a"@, true) {
        Some((1, i + "a"@.len()))
    } else if lit_at(s, i, "one"@, true) {
        Some((1, i + "one"@.len()))
    } else if lit_at(s, i, "two"@, true) {
        Some((2, i + "two"@.len()))
    } else if lit_at(s, i, "three"@, true) {
        Some((3, i + "three"@.len()))
    } else if lit_at(s, i, "four"@, true) {
        Some((4, i + "four"@.len()))
    } else if lit_at(s, i, "five"@, true) {
        Some((5, i + "five"@.len()))
    } else if lit_at(s, i, "six"@, true) {
        Some((6, i + "six"@.len()))
    } else if lit_at(s, i, "seven"@, true) {
        Some((7, i + "seven"@.len()))
    } else if lit_at(s, i, "eight"@, true) {
        Some((8, i + "eight"@.len()))
    } else if lit_at(s, i, "nine"@, true) {
        Some((9, i + "nine"@.len()))
    } else if lit_at(s, i, "ten"@, true) {
        Some((10, i + "ten"@.len()))
    } else {
        None
    }
}

fn number_word_exec(s: &[char], i: usize) -> (r: Option<(i64, usize)>)
    requires
        i <= s@.len(),
    ensures
        lift(r) == number_word(s@, i as int),
        r matches Some((_, j)) ==> i <= j <= s@.len(),
{
    if let Some(j) = match_lit(s, i, "an", true) {
        return Some((1, j));
    }
    if let Some(j) = match_lit(s, i, "a", true) {
        return Some((1, j));
    }
    if let Some(j) = match_lit(s, i, "one", true) {
        return Some((1, j));
    }
    if let Some(j) = match_lit(s, i, "two", true) {
        return Some((2, j));
    }
    if let Some(j) = match_lit(s, i, "three", true) {
        return Some((3, j));
    }
    if let Some(j) = match_lit(s, i, "four", true) {
        return Some((4, j));
    }
    if let Some(j) = match_lit(s, i, "five", true) {
        return Some((5, j));
    }
    if let Some(j) = match_lit(s, i, "six", true) {
        return Some((6, j));
    }
    if let Some(j) = match_lit(s, i, "seven", true) {
        return Some((7, j));
    }
    if let Some(j) = match_lit(s, i, "eight", true) {
        return Some((8, j));
    }
    if let Some(j) = match_lit(s, i, "nine", true) {
        return Some((9, j));
    }
    if let Some(j) = match_lit(s, i, "ten", true) {
        return Some((10, j));
    }
    None
}

/// A time unit, longer spellings first; a lone `m` is minutes and is tried last.
pub open spec fn time_unit(s: Seq<char>, i: int) -> Option<(TimeUnit, int)> {
    if lit_at(s, i, "seconds"@, true) {
        Some((TimeUnit::Second, i + "seconds"@.len()))
    } else if lit_at(s, i, "second"@, true) {
        Some((TimeUnit::Second, i + "second"@.len()))
    } else if lit_at(s, i, "secs"@, true) {
        Some((TimeUnit::Second, i + "secs"@.len()))
    } else if lit_at(s, i, "sec"@, true) {
        Some((TimeUnit::Second, i + "sec"@.len()))
    } else if lit_at(s, i, "s"@, true) {
        Some((TimeUnit::Second, i + "s"@.len()))
    } else if lit_at(s, i, "minutes"@, true) {
        Some((TimeUnit::Minute, i + "minutes"@.len()))
    } else if lit_at(s, i, "minute"@, true) {
        Some((TimeUnit::Minute, i + "minute"@.len()))
    } else if lit_at(s, i, "mins"@, true) {
        Some((TimeUnit::Minute, i + "mins"@.len()))
    } else if lit_at(s, i, "min"@, true) {
        Some((TimeUnit::Minute, i + "min"@.len()))
    } else if lit_at(s, i, "hours"@, true) {
        Some((TimeUnit::Hour, i + "hours"@.len()))
    } else if lit_at(s, i, "hour"@, true) {
        Some((TimeUnit::Hour, i + "hour"@.len()))
    } else if lit_at(s, i, "hrs"@, true) {
        Some((TimeUnit::Hour, i + "hrs"@.len()))
    } else if lit_at(s, i, "hr"@, true) {
        Some((TimeUnit::Hour, i + "hr"@.len()))
    } else if lit_at(s, i, "h"@, true) {
        Some((TimeUnit::Hour, i + "h"@.len()))
    } else if lit_at(s, i, "days"@, true) {
        Some((TimeUnit::Day, i + "days"@.len()))
    } else if lit_at(s, i, "day"@, true) {
        Some((TimeUnit::Day, i + "day"@.len()))
    } else if lit_at(s, i, "d"@, true) {
        Some((TimeUnit::Day, i + "d"@.len()))
    } else if lit_at(s, i, "weeks"@, true) {
        Some((TimeUnit::Week, i + "weeks"@.len()))
    } else if lit_at(s, i, "week"@, true) {
        Some((TimeUnit::Week, i + "week"@.len()))
    } else if lit_at(s, i, "wks"@, true) {
        Some((TimeUnit::Week, i + "wks"@.len()))
    } else if lit_at(s, i, "wk"@, true) {
        Some((TimeUnit::Week, i + "wk"@.len()))
    } else if lit_at(s, i, "w"@, true) {
        Some((TimeUnit::Week, i + "w"@.len()))
    } else if lit_at(s, i, "months"@, true) {
        Some((TimeUnit::Month, i + "months"@.len()))
    } else if lit_at(s, i, "month"@, true) {
        Some((TimeUnit::Month, i + "month"@.len()))
    } else if lit_at(s, i, "mos"@, true) {
        Some((TimeUnit::Month, i + "mos"@.len()))
    } else if lit_at(s, i, "mo"@, true) {
        Some((TimeUnit::Month, i + "mo"@.len()))
    } else if lit_at(s, i, "years"@, true) {
        Some((TimeUnit::Year, i + "years"@.len()))
    } else if lit_at(s, i, "year"@, true) {
        Some((TimeUnit::Year, i + "year"@.len()))
    } else if lit_at(s, i, "yrs"@, true) {
        Some((TimeUnit::Year, i + "yrs"@.len()))
    } else if lit_at(s, i, "yr"@, true) {
        Some((TimeUnit::Year, i + "yr"@.len()))
    } else if lit_at(s, i, "y"@, true) {
        Some((TimeUnit::Year, i + "y"@.len()))
    } else if lit_at(s, i, "m"@, true) {
        Some((TimeUnit::Minute, i + "m"@.len()))
    } else {
        None
    }
}

fn time_unit_exec(s: &[char], i: usize) -> (r: Option<(TimeUnit, usize)>)
    requires
        i <= s@.len(),
    ensures
        lift(r) == time_unit(s@, i as int),
        r matches Some((_, j)) ==> i <= j <= s@.len(),
{
    if let Some(j) = match_lit(s, i, "seconds", true) {
        return Some((TimeUnit::Second, j));
    }
    if let Some(j) = match_lit(s, i, "second", true) {
        return Some((TimeUnit::Second, j));
    }
    if let Some(j) = match_lit(s, i, "secs", true) {
        return Some((TimeUnit::Second, j));
    }
    if let Some(j) = match_lit(s, i, "sec", true) {
        return Some((TimeUnit::Second, j));
    }
    if let Some(j) = match_lit(s, i, "s", true) {
        return Some((TimeUnit::Second, j));
    }
    if let Some(j) = match_lit(s, i, "minutes", true) {
        return Some((TimeUnit::Minute, j));
    }
    if let Some(j) = match_lit(s, i, "minute", true) {
        return Some((TimeUnit::Minute, j));
    }
    if let Some(j) = match_lit(s, i, "mins", true) {
        return Some((TimeUnit::Minute, j));
    }
    if let Some(j) = match_lit(s, i, "min", true) {
        return Some((TimeUnit::Minute, j));
    }
    if let Some(j) = match_lit(s, i, "hours", true) {
        return Some((TimeUnit::Hour, j));
    }
    if let Some(j) = match_lit(s, i, "hour", true) {
        return Some((TimeUnit::Hour, j));
    }
    if let Some(j) = match_lit(s, i, "hrs", true) {
        return Some((TimeUnit::Hour, j));
    }
    if let Some(j) = match_lit(s, i, "hr", true) {
        return Some((TimeUnit::Hour, j));
    }
    if let Some(j) = match_lit(s, i, "h", true) {
        return Some((TimeUnit::Hour, j));
    }
    if let Some(j) = match_lit(s, i, "days", true) {
        return Some((TimeUnit::Day, j));
    }
    if let Some(j) = match_lit(s, i, "day", true) {
        return Some((TimeUnit::Day, j));
    }
    if let Some(j) = match_lit(s, i, "d", true) {
        return Some((TimeUnit::Day, j));
    }
    if let Some(j) = match_lit(s, i, "weeks", true) {
        return Some((TimeUnit::Week, j));
    }
    if let Some(j) = match_lit(s, i, "week", true) {
        return Some((TimeUnit::Week, j));
    }
    if let Some(j) = match_lit(s, i, "wks", true) {
        return Some((TimeUnit::Week, j));
    }
    if let Some(j) = match_lit(s, i, "wk", true) {
        return Some((TimeUnit::Week, j));
    }
    if let Some(j) = match_lit(s, i, "w", true) {
        return Some((TimeUnit::Week, j));
    }
    if let Some(j) = match_lit(s, i, "months", true) {
        return Some((TimeUnit::Month, j));
    }
    if let Some(j) = match_lit(s, i, "month", true) {
        return Some((TimeUnit::Month, j));
    }
    if let Some(j) = match_lit(s, i, "mos", true) {
        return Some((TimeUnit::Month, j));
    }
    if let Some(j) = match_lit(s, i, "mo", true) {
        return Some((TimeUnit::Month, j));
    }
    if let Some(j) = match_lit(s, i, "years", true) {
        return Some((TimeUnit::Year, j));
    }
    if let Some(j) = match_lit(s, i, "year", true) {
        return Some((TimeUnit::Year, j));
    }
    if let Some(j) = match_lit(s, i, "yrs", true) {
        return Some((TimeUnit::Year, j));
    }
    if let Some(j) = match_lit(s, i, "yr", true) {
        return Some((TimeUnit::Year, j));
    }
    if let Some(j) = match_lit(s, i, "y", true) {
        return Some((TimeUnit::Year, j));
    }
    if let Some(j) = match_lit(s, i, "m", true) {
        return Some((TimeUnit::Minute, j));
    }
    None
}

/// A weekday name or its three-letter abbreviation.
pub open spec fn weekday(s: Seq<char>, i: int) -> Option<(Weekday, int)> {
    if lit_at(s, i, "monday"@, true) {
        Some((Weekday::Monday, i + "monday"@.len()))
    } else if lit_at(s, i, "mon"@, true) {
        Some((Weekday::Monday, i + "mon"@.len()))
    } else if lit_at(s, i, "tuesday"@, true) {
        Some((Weekday::Tuesday, i + "tuesday"@.len()))
    } else if lit_at(s, i, "tue"@, true) {
        Some((Weekday::Tuesday, i + "tue"@.len()))
    } else if lit_at(s, i, "wednesday"@, true) {
        Some((Weekday::Wednesday, i + "wednesday"@.len()))
    } else if lit_at(s, i, "wed"@, true) {
        Some((Weekday::Wednesday, i + "wed"@.len()))
    } else if lit_at(s, i, "thursday"@, true) {
        Some((Weekday::Thursday, i + "thursday"@.len()))
    } else if lit_at(s, i, "thu"@, true) {
        Some((Weekday::Thursday, i + "thu"@.len()))
    } else if lit_at(s, i, "friday"@, true) {
        Some((Weekday::Friday, i + "friday"@.len()))
    } else if lit_at(s, i, "fri"@, true) {
        Some((Weekday::Friday, i + "fri"@.len()))
    } else if lit_at(s, i, "saturday"@, true) {
        Some((Weekday::Saturday, i + "saturday"@.len()))
    } else if lit_at(s, i, "sat"@, true) {
        Some((Weekday::Saturday, i + "sat"@.len()))
    } else if lit_at(s, i, "sunday"@, true) {
        Some((Weekday::Sunday, i + "sunday"@.len()))
    } else if lit_at(s, i, "sun"@, true) {
        Some((Weekday::Sunday, i + "sun"@.len()))
    } else {
        None
    }
}

fn weekday_exec(s: &[char], i: usize) -> (r: Option<(Weekday, usize)>)
    requires
        i <= s@.len(),
    ensures
        lift(r) == weekday(s@, i as int),
        r matches Some((_, j)) ==> i <= j <= s@.len(),
{
    if let Some(j) = match_lit(s, i, "monday", true) {
        return Some((Weekday::Monday, j));
    }
    if let Some(j) = match_lit(s, i, "mon", true) {
        return Some((Weekday::Monday, j));
    }
    if let Some(j) = match_lit(s, i, "tuesday", true) {
        return Some((Weekday::Tuesday, j));
    }
    if let Some(j) = match_lit(s, i, "tue", true) {
        return Some((Weekday::Tuesday, j));
    }
    if let Some(j) = match_lit(s, i, "wednesday", true) {
        return Some((Weekday::Wednesday, j));
    }
    if let Some(j) = match_lit(s, i, "wed", true) {
        return Some((Weekday::Wednesday, j));
    }
    if let Some(j) = match_lit(s, i, "thursday", true) {
        return Some((Weekday::Thursday, j));
    }
    if let Some(j) = match_lit(s, i, "thu", true) {
        return Some((Weekday::Thursday, j));
    }
    if let Some(j) = match_lit(s, i, "friday", true) {
        return Some((Weekday::Friday, j));
    }
    if let Some(j) = match_lit(s, i, "fri", true) {
        return Some((Weekday::Friday, j));
    }
    if let Some(j) = match_lit(s, i, "saturday", true) {
        return Some((Weekday::Saturday, j));
    }
    if let Some(j) = match_lit(s, i, "sat", true) {
        return Some((Weekday::Saturday, j));
    }
    if let Some(j) = match_lit(s, i, "sunday", true) {
        return Some((Weekday::Sunday, j));
    }
    if let Some(j) = match_lit(s, i, "sun", true) {
        return Some((Weekday::Sunday, j));
    }
    None
}

/// `today`, `yesterday` or `tomorrow`.
pub open spec fn day_shortcut(s: Seq<char>, i: int) -> Option<(DayReference, int)> {
    if lit_at(s, i, "today"@, true) {
        Some((DayReference::Today, i + "today"@.len()))
    } else if lit_at(s, i, "yesterday"@, true) {
        Some((DayReference::Yesterday, i + "yesterday"@.len()))
    } else if lit_at(s, i, "tomorrow"@, true) {
        Some((DayReference::Tomorrow, i + "tomorrow"@.len()))
    } else {
        None
    }
}

fn day_shortcut_exec(s: &[char], i: usize) -> (r: Option<(DayReference, usize)>)
    requires
        i <= s@.len(),
    ensures
        lift(r) == day_shortcut(s@, i as int),
        r matches Some((_, j)) ==> i <= j <= s@.len(),
{
    if let Some(j) = match_lit(s, i, "today", true) {
        return Some((DayReference::Today, j));
    }
    if let Some(j) = match_lit(s, i, "yesterday", true) {
        return Some((DayReference::Yesterday, j));
    }
    if let Some(j) = match_lit(s, i, "tomorrow", true) {
        return Some((DayReference::Tomorrow, j));
    }
    None
}

/// `last` or `next`.
pub open spec fn weekday_modifier(s: Seq<char>, i: int) -> Option<(WeekdayModifier, int)> {
    if lit_at(s, i, "last"@, true) {
        Some((WeekdayModifier::Last, i + "last"@.len()))
    } else if lit_at(s, i, "next"@, true) {
        Some((WeekdayModifier::Next, i + "next"@.len()))
    } else {
        None
    }
}

fn weekday_modifier_exec(s: &[char], i: usize) -> (r: Option<(WeekdayModifier, usize)>)
    requires
        i <= s@.len(),
    ensures
        lift(r) == weekday_modifier(s@, i as int),
        r matches Some((_, j)) ==> i <= j <= s@.len(),
{
    if let Some(j) = match_lit(s, i, "last", true) {
        return Some((WeekdayModifier::Last, j));
    }
    if let Some(j) = match_lit(s, i, "next", true) {
        return Some((WeekdayModifier::Next, j));
    }
    None
}

/// `am`, `a.m.`, `pm` or `p.m.`.
pub open spec fn meridiem(s: Seq<char>, i: int) -> Option<(Meridiem, int)> {
    if lit_at(s, i, "am"@, true) {
        Some((Meridiem::AM, i + "am"@.len()))
    } else if lit_at(s, i, "a.m."@, true) {
        Some((Meridiem::AM, i + "a.m."@.len()))
    } else if lit_at(s, i, "pm"@, true) {
        Some((Meridiem::PM, i + "pm"@.len()))
    } else if lit_at(s, i, "p.m."@, true) {
        Some((Meridiem::PM, i + "p.m."@.len()))
    } else {
        None
    }
}

fn meridiem_exec(s: &[char], i: usize) -> (r: Option<(Meridiem, usize)>)
    requires
        i <= s@.len(),
    ensures
        lift(r) == meridiem(s@, i as int),
        r matches Some((_, j)) ==> i <= j <= s@.len(),
{
    if let Some(j) = match_lit(s, i, "am", true) {
        return Some((Meridiem::AM, j));
    }
    if let Some(j) = match_lit(s, i, "a.m.", true) {
        return Some((Meridiem::AM, j));
    }
    if let Some(j) = match_lit(s, i, "pm", true) {
        return Some((Meridiem::PM, j));
    }
    if let Some(j) = match_lit(s, i, "p.m.", true) {
        return Some((Meridiem::PM, j));
    }
    None
}

/// A count: a run of digits that fits an `i64`, or a spelled-out number.
pub open spec fn number(s: Seq<char>, i: int) -> Option<(i64, int)> {
    first(int_digits(s, i), number_word(s, i))
}

fn number_exec(s: &[char], i: usize) -> (r: Option<(i64, usize)>)
    requires
        i <= s@.len(),
    ensures
        lift(r) == number(s@, i as int),
        r matches Some((_, j)) ==> i <= j <= s@.len(),
{
    if let Some(x) = int_digits_exec(s, i) {
        return Some(x);
    }
    number_word_exec(s, i)
}

/// `<count> <unit> ago`.
pub open spec fn relative_past(s: Seq<char>, i: int) -> Option<(TimeExpression, int)> {
    match number(s, i) {
        Some((amount, a)) => match blank1(s, a, true) {
            Some(b) => match time_unit(s, b) {
                Some((unit, c)) => match blank1(s, c, true) {
                    Some(d) => match tok(s, d, "ago"@, true) {
                        Some(e) => Some(
                            (
                                TimeExpression::Relative(
                                    RelativeTime { amount, unit, direction: Direction::Past },
                                ),
                                e,
                            ),
                        ),
                        None => None,
                    },
                    None => None,
                },
                None => None,
            },
            None => None,
        },
        None => None,
    }
}

fn relative_past_exec(s: &[char], i: usize) -> (r: Option<(TimeExpression, usize)>)
    requires
        i <= s@.len(),
    ensures
        lift(r) == relative_past(s@, i as int),
        r matches Some((_, j)) ==> i <= j <= s@.len(),
{
    let (amount, a) = match number_exec(s, i) {
        Some(x) => x,
        None => return None,
    };
    let b = match blank1_exec(s, a, true) {
        Some(x) => x,
        None => return None,
    };
    let (unit, c) = match time_unit_exec(s, b) {
        Some(x) => x,
        None => return None,
    };
    let d = match blank1_exec(s, c, true) {
        Some(x) => x,
        None => return None,
    };
    let e = match match_lit(s, d, "ago", true) {
        Some(x) => x,
        None => return None,
    };
    Some((TimeExpression::Relative(RelativeTime { amount, unit, direction: Direction::Past }), e))
}

/// `in <count> <unit>`.
pub open spec fn relative_future(s: Seq<char>, i: int) -> Option<(TimeExpression, int)> {
    match tok(s, i, "in"@, true) {
        Some(a) => match blank1(s, a, true) {
            Some(b) => match number(s, b) {
                Some((amount, c)) => match blank1(s, c, true) {
                    Some(d) => match time_unit(s, d) {
                        Some((unit, e)) => Some(
                            (
                                TimeExpression::Relative(
                                    RelativeTime { amount, unit, direction: Direction::Future },
                                ),
                                e,
                            ),
                        ),
                        None => None,
                    },
                    None => None,
                },
                None => None,
            },
            None => None,
        },
        None => None,
    }
}

fn relative_future_exec(s: &[char], i: usize) -> (r: Option<(TimeExpression, usize)>)
    requires
        i <= s@.len(),
    ensures
        lift(r) == relative_future(s@, i as int),
        r matches Some((_, j)) ==> i <= j <= s@.len(),
{
    let a = match match_lit(s, i, "in", true) {
        Some(x) => x,
        None => return None,
    };
    let b = match blank1_exec(s, a, true) {
        Some(x) => x,
        None => return None,
    };
    let (amount, c) = match number_exec(s, b) {
        Some(x) => x,
        None => return None,
    };
    let d = match blank1_exec(s, c, true) {
        Some(x) => x,
        None => return None,
    };
    let (unit, e) = match time_unit_exec(s, d) {
        Some(x) => x,
        None => return None,
    };
    Some((TimeExpression::Relative(RelativeTime { amount, unit, direction: Direction::Future }), e))
}

/// `now`.
pub open spec fn now(s: Seq<char>, i: int) -> Option<(TimeExpression, int)> {
    match tok(s, i, "now"@, true) {
        Some(j) => Some((TimeExpression::Now, j)),
        None => None,
    }
}

fn now_exec(s: &[char], i: usize) -> (r: Option<(TimeExpression, usize)>)
    requires
        i <= s@.len(),
    ensures
        lift(r) == now(s@, i as int),
        r matches Some((_, j)) ==> i <= j <= s@.len(),
{
    match match_lit(s, i, "now", true) {
        Some(j) => Some((TimeExpression::Now, j)),
        None => None,
    }
}

/// `last <weekday>` or `next <weekday>`.
pub open spec fn modified_weekday(s: Seq<char>, i: int) -> Option<(DayReference, int)> {
    match weekday_modifier(s, i) {
        Some((m, a)) => match blank1(s, a, true) {
            Some(b) => match weekday(s, b) {
                Some((day, c)) => Some((DayReference::Weekday { day, modifier: Some(m) }, c)),
                None => None,
            },
            None => None,
        },
        None => None,
    }
}

fn modified_weekday_exec(s: &[char], i: usize) -> (r: Option<(DayReference, usize)>)
    requires
        i <= s@.len(),
    ensures
        lift(r) == modified_weekday(s@, i as int),
        r matches Some((_, j)) ==> i <= j <= s@.len(),
{
    let (m, a) = match weekday_modifier_exec(s, i) {
        Some(x) => x,
        None => return None,
    };
    let b = match blank1_exec(s, a, true) {
        Some(x) => x,
        None => return None,
    };
    match weekday_exec(s, b) {
        Some((day, c)) => Some((DayReference::Weekday { day, modifier: Some(m) }, c)),
        None => None,
    }
}

/// A bare weekday.
pub open spec fn simple_weekday(s: Seq<char>, i: int) -> Option<(DayReference, int)> {
    match weekday(s, i) {
        Some((day, a)) => Some((DayReference::Weekday { day, modifier: None }, a)),
        None => None,
    }
}

fn simple_weekday_exec(s: &[char], i: usize) -> (r: Option<(DayReference, usize)>)
    requires
        i <= s@.len(),
    ensures
        lift(r) == simple_weekday(s@, i as int),
        r matches Some((_, j)) ==> i <= j <= s@.len(),
{
    match weekday_exec(s, i) {
        Some((day, a)) => Some((DayReference::Weekday { day, modifier: None }, a)),
        None => None,
    }
}

/// A shortcut, a modified weekday or a bare weekday, in that order.
pub open spec fn day_reference(s: Seq<char>, i: int) -> Option<(DayReference, int)> {
    first(day_shortcut(s, i), first(modified_weekday(s, i), simple_weekday(s, i)))
}

fn day_reference_exec(s: &[char], i: usize) -> (r: Option<(DayReference, usize)>)
    requires
        i <= s@.len(),
    ensures
        lift(r) == day_reference(s@, i as int),
        r matches Some((_, j)) ==> i <= j <= s@.len(),
{
    if let Some(x) = day_shortcut_exec(s, i) {
        return Some(x);
    }
    if let Some(x) = modified_weekday_exec(s, i) {
        return Some(x);
    }
    simple_weekday_exec(s, i)
}

/// `H:MM`, optional `:SS` (zero when absent), optional whitespace and meridiem.
pub open spec fn clock(s: Seq<char>, i: int) -> Option<(Time, int)> {
    match two_digits(s, i) {
        Some((hour, a)) => if ch(s, a, ':') {
            match two_digits(s, a + 1) {
                Some((minute, b)) => {
                    let (second, c) = match colon_two(s, b) {
                        Some((x, c)) => (x, c),
                        None => (0u8, b),
                    };
                    let (meridiem, d) = match blank1(s, c, true) {
                        Some(p) => match meridiem(s, p) {
                            Some((m, d)) => (Some(m), d),
                            None => (None, c),
                        },
                        None => (None, c),
                    };
                    Some((Time { hour, minute, second, meridiem }, d))
                },
                None => None,
            }
        } else {
            None
        },
        None => None,
    }
}

fn clock_exec(s: &[char], i: usize) -> (r: Option<(Time, usize)>)
    requires
        i <= s@.len(),
    ensures
        lift(r) == clock(s@, i as int),
        r matches Some((_, j)) ==> i <= j <= s@.len(),
{
    let (hour, a) = match two_digits_exec(s, i) {
        Some(x) => x,
        None => return None,
    };
    if !match_char(s, a, ':') {
        return None;
    }
    let (minute, b) = match two_digits_exec(s, a + 1) {
        Some(x) => x,
        None => return None,
    };
    let (second, c) = match colon_two_exec(s, b) {
        Some((x, c)) => (x, c),
        None => (0u8, b),
    };
    let (meridiem, d) = match blank1_exec(s, c, true) {
        Some(p) => match meridiem_exec(s, p) {
            Some((m, d)) => (Some(m), d),
            None => (None, c),
        },
        None => (None, c),
    };
    Some((Time { hour, minute, second, meridiem }, d))
}

/// A time of day.
pub open spec fn time_of_day(s: Seq<char>, i: int) -> Option<(TimeExpression, int)> {
    match clock(s, i) {
        Some((t, a)) => Some((TimeExpression::Time(t), a)),
        None => None,
    }
}

fn time_of_day_exec(s: &[char], i: usize) -> (r: Option<(TimeExpression, usize)>)
    requires
        i <= s@.len(),
    ensures
        lift(r) == time_of_day(s@, i as int),
        r matches Some((_, j)) ==> i <= j <= s@.len(),
{
    match clock_exec(s, i) {
        Some((t, a)) => Some((TimeExpression::Time(t), a)),
        None => None,
    }
}

/// `<day reference> at <time>`.
pub open spec fn day_at_time(s: Seq<char>, i: int) -> Option<(TimeExpression, int)> {
    match day_reference(s, i) {
        Some((day, a)) => match blank1(s, a, true) {
            Some(b) => match tok(s, b, "at"@, true) {
                Some(c) => match blank1(s, c, true) {
                    Some(d) => match clock(s, d) {
                        Some((time, e)) => Some((TimeExpression::DayTime(DayTime { day, time }), e)),
                        None => None,
                    },
                    None => None,
                },
                None => None,
            },
            None => None,
        },
        None => None,
    }
}

fn day_at_time_exec(s: &[char], i: usize) -> (r: Option<(TimeExpression, usize)>)
    requires
        i <= s@.len(),
    ensures
        lift(r) == day_at_time(s@, i as int),
        r matches Some((_, j)) ==> i <= j <= s@.len(),
{
    let (day, a) = match day_reference_exec(s, i) {
        Some(x) => x,
        None => return None,
    };
    let b = match blank1_exec(s, a, true) {
        Some(x) => x,
        None => return None,
    };
    let c = match match_lit(s, b, "at", true) {
        Some(x) => x,
        None => return None,
    };
    let d = match blank1_exec(s, c, true) {
        Some(x) => x,
        None => return None,
    };
    match clock_exec(s, d) {
        Some((time, e)) => Some((TimeExpression::DayTime(DayTime { day, time }), e)),
        None => None,
    }
}

/// `-` or `/`.
pub open spec fn date_separator(s: Seq<char>, i: int) -> bool {
    ch(s, i, '/') || ch(s, i, '-')
}

/// `YYYY-MM-DD`, or `DD/MM/YYYY` with `/` or `-` as separators.
pub open spec fn date_format(s: Seq<char>, i: int) -> Option<(TimeExpression, int)> {
    let ymd = match four_digits(s, i) {
        Some((year, a)) => if ch(s, a, '-') {
            match two_digits(s, a + 1) {
                Some((month, b)) => if ch(s, b, '-') {
                    match two_digits(s, b + 1) {
                        Some((day, c)) => Some(
                            (TimeExpression::Date(StandardDate { day, month, year }), c),
                        ),
                        None => None,
                    }
                } else {
                    None
                },
                None => None,
            }
        } else {
            None
        },
        None => None,
    };
    let dmy = match two_digits(s, i) {
        Some((day, a)) => if date_separator(s, a) {
            match two_digits(s, a + 1) {
                Some((month, b)) => if date_separator(s, b) {
                    match four_digits(s, b + 1) {
                        Some((year, c)) => Some(
                            (TimeExpression::Date(StandardDate { day, month, year }), c),
                        ),
                        None => None,
                    }
                } else {
                    None
                },
                None => None,
            }
        } else {
            None
        },
        None => None,
    };
    first(ymd, dmy)
}

fn date_format_exec(s: &[char], i: usize) -> (r: Option<(TimeExpression, usize)>)
    requires
        i <= s@.len(),
    ensures
        lift(r) == date_format(s@, i as int),
        r matches Some((_, j)) ==> i <= j <= s@.len(),
{
    if let Some((year, a)) = four_digits_exec(s, i) {
        if match_char(s, a, '-') {
            if let Some((month, b)) = two_digits_exec(s, a + 1) {
                if match_char(s, b, '-') {
                    if let Some((day, c)) = two_digits_exec(s, b + 1) {
                        return Some((TimeExpression::Date(StandardDate { day, month, year }), c));
                    }
                }
            }
        }
    }
    let (day, a) = match two_digits_exec(s, i) {
        Some(x) => x,
        None => return None,
    };
    if !(match_char(s, a, '/') || match_char(s, a, '-')) {
        return None;
    }
    let (month, b) = match two_digits_exec(s, a + 1) {
        Some(x) => x,
        None => return None,
    };
    if !(match_char(s, b, '/') || match_char(s, b, '-')) {
        return None;
    }
    match four_digits_exec(s, b + 1) {
        Some((year, c)) => Some((TimeExpression::Date(StandardDate { day, month, year }), c)),
        None => None,
    }
}

/// The first alternative, in the grammar's order, that matches at `i`.
pub open spec fn expression(s: Seq<char>, i: int) -> Option<(TimeExpression, int)> {
    first(
        iso_datetime(s, i),
        first(
            date_format(s, i),
            first(
                day_at_time(s, i),
                first(
                    now(s, i),
                    first(
                        match day_reference(s, i) {
                            Some((d, j)) => Some((TimeExpression::Day(d), j)),
                            None => None,
                        },
                        first(
                            time_of_day(s, i),
                            first(relative_past(s, i), relative_future(s, i)),
                        ),
                    ),
                ),
            ),
        ),
    )
}

fn expression_exec(s: &[char], i: usize) -> (r: Option<(TimeExpression, usize)>)
    requires
        i <= s@.len(),
    ensures
        lift(r) == expression(s@, i as int),
        r matches Some((_, j)) ==> i <= j <= s@.len(),
{
    if let Some(x) = iso_datetime_exec(s, i) {
        return Some(x);
    }
    if let Some(x) = date_format_exec(s, i) {
        return Some(x);
    }
    if let Some(x) = day_at_time_exec(s, i) {
        return Some(x);
    }
    if let Some(x) = now_exec(s, i) {
        return Some(x);
    }
    if let Some((d, j)) = day_reference_exec(s, i) {
        return Some((TimeExpression::Day(d), j));
    }
    if let Some(x) = time_of_day_exec(s, i) {
        return Some(x);
    }
    if let Some(x) = relative_past_exec(s, i) {
        return Some(x);
    }
    relative_future_exec(s, i)
}

/// The whole text read as English: leading and trailing whitespace is
/// skipped, and the matched expression must reach the end. On failure, the
/// character position where reading stopped.
pub open spec fn parse_english(s: Seq<char>) -> Outcome {
    let i = skip_blank(s, 0, true);
    match expression(s, i) {
        Some((e, j)) => if skip_blank(s, j, true) == s.len() {
            Ok(e)
        } else {
            Err(skip_blank(s, j, true))
        },
        None => Err(i),
    }
}

pub fn parse_english_chars(s: &[char]) -> (r: Result<TimeExpression, usize>)
    ensures
        match r {
            Ok(e) => parse_english(s@) == Ok::<TimeExpression, int>(e),
            Err(p) => parse_english(s@) == Err::<TimeExpression, int>(p as int) && p <= s@.len(),
        },
{
    let i = skip_blank_exec(s, 0, true);
    match expression_exec(s, i) {
        Some((e, j)) => {
            let k = skip_blank_exec(s, j, true);
            if k == s.len() {
                Ok(e)
            } else {
                Err(k)
            }
        },
        None => Err(i),
    }
}

/// Parser for English time expressions.
pub struct EnglishParser;

impl EnglishParser {
    /// Reads `input` as an English time expression. On failure the error
    /// carries the input and the byte offset where reading stopped.
    pub fn parse(&self, input: &str) -> (r: Result<TimeExpression, TempsError>)
        ensures
            match r {
                Ok(e) => parse_english(input@) == Ok::<TimeExpression, int>(e),
                Err(err) => match parse_english(input@) {
                    Err(p) => err@ == ErrorView::ParseError {
                        message: failure_message(),
                        input: input@,
                        position: Some(utf8_offset(input@, p) as usize),
                    },
                    Ok(_) => false,
                },
            },
    {
        let chars = input_chars(input);
        match parse_english_chars(chars.as_slice()) {
            Ok(e) => Ok(e),
            Err(p) => Err(crate::grammar::parse_failure(input, p)),
        }
    }
}

/// Once the grammar has committed to an alternative, anything but whitespace
/// after it makes the whole text fail, at the first such character.
pub proof fn lemma_trailing_input_rejected(s: Seq<char>, e: TimeExpression, j: int)
    requires
        expression(s, skip_blank(s, 0, true)) == Some((e, j)),
        skip_blank(s, j, true) < s.len(),
    ensures
        parse_english(s) == Err::<TimeExpression, int>(skip_blank(s, j, true)),
{
}

/// `now` is read in any mix of ASCII case.
pub proof fn lemma_now_any_case(s: Seq<char>)
    requires
        s.len() == "now"@.len(),
        lit_at(s, 0, "now"@, true),
    ensures
        parse_english(s) == Ok::<TimeExpression, int>(TimeExpression::Now),
{
    reveal_strlit("now");
    reveal_strlit("today");
    reveal_strlit("yesterday");
    reveal_strlit("tomorrow");
    reveal_strlit("last");
    reveal_strlit("next");
    reveal_strlit("monday");
    reveal_strlit("mon");
    reveal_strlit("tuesday");
    reveal_strlit("tue");
    reveal_strlit("wednesday");
    reveal_strlit("wed");
    reveal_strlit("thursday");
    reveal_strlit("thu");
    reveal_strlit("friday");
    reveal_strlit("fri");
    reveal_strlit("saturday");
    reveal_strlit("sat");
    reveal_strlit("sunday");
    reveal_strlit("sun");
    assert(char_matches(s[0int + 0], "now"@[0], true));
    assert(char_matches(s[0int + 2], "now"@[2], true));
    assert(skip_blank(s, 0, true) == 0);
    assert(skip_blank(s, 3, true) == 3);
    lemma_first_char_mismatch(s, 0, "mon"@, true);
    lemma_first_char_mismatch(s, 0, "tue"@, true);
    lemma_first_char_mismatch(s, 0, "wed"@, true);
    lemma_first_char_mismatch(s, 0, "thu"@, true);
    lemma_first_char_mismatch(s, 0, "fri"@, true);
    lemma_first_char_mismatch(s, 0, "sat"@, true);
    lemma_first_char_mismatch(s, 0, "sun"@, true);
    assert(day_reference(s, 0) is None);
    assert(two_digits(s, 0) is None);
}

proof fn lemma_number_word_end(s: Seq<char>)
    ensures
        forall|i: int| no_bang_end(s, #[trigger] number_word(s, i)),
{
    reveal_strlit("an");
    lemma_lit_end(s, "an"@, true);
    reveal_strlit("a");
    lemma_lit_end(s, "a"@, true);
    reveal_strlit("one");
    lemma_lit_end(s, "one"@, true);
    reveal_strlit("two");
    lemma_lit_end(s, "two"@, true);
    reveal_strlit("three");
    lemma_lit_end(s, "three"@, true);
    reveal_strlit("four");
    lemma_lit_end(s, "four"@, true);
    reveal_strlit("five");
    lemma_lit_end(s, "five"@, true);
    reveal_strlit("six");
    lemma_lit_end(s, "six"@, true);
    reveal_strlit("seven");
    lemma_lit_end(s, "seven"@, true);
    reveal_strlit("eight");
    lemma_lit_end(s, "eight"@, true);
    reveal_strlit("nine");
    lemma_lit_end(s, "nine"@, true);
    reveal_strlit("ten");
    lemma_lit_end(s, "ten"@, true);
}

proof fn lemma_time_unit_end(s: Seq<char>)
    ensures
        forall|i: int| no_bang_end(s, #[trigger] time_unit(s, i)),
{
    reveal_strlit("seconds");
    lemma_lit_end(s, "seconds"@, true);
    reveal_strlit("second");
    lemma_lit_end(s, "second"@, true);
    reveal_strlit("secs");
    lemma_lit_end(s, "secs"@, true);
    reveal_strlit("sec");
    lemma_lit_end(s, "sec"@, true);
    reveal_strlit("s");
    lemma_lit_end(s, "s"@, true);
    reveal_strlit("minutes");
    lemma_lit_end(s, "minutes"@, true);
    reveal_strlit("minute");
    lemma_lit_end(s, "minute"@, true);
    reveal_strlit("mins");
    lemma_lit_end(s, "mins"@, true);
    reveal_strlit("min");
    lemma_lit_end(s, "min"@, true);
    reveal_strlit("hours");
    lemma_lit_end(s, "hours"@, true);
    reveal_strlit("hour");
    lemma_lit_end(s, "hour"@, true);
    reveal_strlit("hrs");
    lemma_lit_end(s, "hrs"@, true);
    reveal_strlit("hr");
    lemma_lit_end(s, "hr"@, true);
    reveal_strlit("h");
    lemma_lit_end(s, "h"@, true);
    reveal_strlit("days");
    lemma_lit_end(s, "days"@, true);
    reveal_strlit("day");
    lemma_lit_end(s, "day"@, true);
    reveal_strlit("d");
    lemma_lit_end(s, "d"@, true);
    reveal_strlit("weeks");
    lemma_lit_end(s, "weeks"@, true);
    reveal_strlit("week");
    lemma_lit_end(s, "week"@, true);
    reveal_strlit("wks");
    lemma_lit_end(s, "wks"@, true);
    reveal_strlit("wk");
    lemma_lit_end(s, "wk"@, true);
    reveal_strlit("w");
    lemma_lit_end(s, "w"@, true);
    reveal_strlit("months");
    lemma_lit_end(s, "months"@, true);
    reveal_strlit("month");
    lemma_lit_end(s, "month"@, true);
    reveal_strlit("mos");
    lemma_lit_end(s, "mos"@, true);
    reveal_strlit("mo");
    lemma_lit_end(s, "mo"@, true);
    reveal_strlit("years");
    lemma_lit_end(s, "years"@, true);
    reveal_strlit("year");
    lemma_lit_end(s, "year"@, true);
    reveal_strlit("yrs");
    lemma_lit_end(s, "yrs"@, true);
    reveal_strlit("yr");
    lemma_lit_end(s, "yr"@, true);
    reveal_strlit("y");
    lemma_lit_end(s, "y"@, true);
    reveal_strlit("m");
    lemma_lit_end(s, "m"@, true);
}

proof fn lemma_weekday_end(s: Seq<char>)
    ensures
        forall|i: int| no_bang_end(s, #[trigger] weekday(s, i)),
{
    reveal_strlit("monday");
    lemma_lit_end(s, "monday"@, true);
    reveal_strlit("mon");
    lemma_lit_end(s, "mon"@, true);
    reveal_strlit("tuesday");
    lemma_lit_end(s, "tuesday"@, true);
    reveal_strlit("tue");
    lemma_lit_end(s, "tue"@, true);
    reveal_strlit("wednesday");
    lemma_lit_end(s, "wednesday"@, true);
    reveal_strlit("wed");
    lemma_lit_end(s, "wed"@, true);
    reveal_strlit("thursday");
    lemma_lit_end(s, "thursday"@, true);
    reveal_strlit("thu");
    lemma_lit_end(s, "thu"@, true);
    reveal_strlit("friday");
    lemma_lit_end(s, "friday"@, true);
    reveal_strlit("fri");
    lemma_lit_end(s, "fri"@, true);
    reveal_strlit("saturday");
    lemma_lit_end(s, "saturday"@, true);
    reveal_strlit("sat");
    lemma_lit_end(s, "sat"@, true);
    reveal_strlit("sunday");
    lemma_lit_end(s, "sunday"@, true);
    reveal_strlit("sun");
    lemma_lit_end(s, "sun"@, true);
}

proof fn lemma_day_shortcut_end(s: Seq<char>)
    ensures
        forall|i: int| no_bang_end(s, #[trigger] day_shortcut(s, i)),
{
    reveal_strlit("today");
    lemma_lit_end(s, "today"@, true);
    reveal_strlit("yesterday");
    lemma_lit_end(s, "yesterday"@, true);
    reveal_strlit("tomorrow");
    lemma_lit_end(s, "tomorrow"@, true);
}

proof fn lemma_weekday_modifier_end(s: Seq<char>)
    ensures
        forall|i: int| no_bang_end(s, #[trigger] weekday_modifier(s, i)),
{
    reveal_strlit("last");
    lemma_lit_end(s, "last"@, true);
    reveal_strlit("next");
    lemma_lit_end(s, "next"@, true);
}

proof fn lemma_meridiem_end(s: Seq<char>)
    ensures
        forall|i: int| no_bang_end(s, #[trigger] meridiem(s, i)),
{
    reveal_strlit("am");
    lemma_lit_end(s, "am"@, true);
    reveal_strlit("a.m.");
    lemma_lit_end(s, "a.m."@, true);
    reveal_strlit("pm");
    lemma_lit_end(s, "pm"@, true);
    reveal_strlit("p.m.");
    lemma_lit_end(s, "p.m."@, true);
}

/// No alternative of the grammar ends its match on a `!`.
proof fn lemma_expression_end(s: Seq<char>)
    ensures
        forall|i: int| no_bang_end(s, #[trigger] expression(s, i)),
{
    lemma_digits_end(s);
    lemma_iso_datetime_end(s);
    lemma_number_word_end(s);
    lemma_time_unit_end(s);
    lemma_weekday_end(s);
    lemma_day_shortcut_end(s);
    lemma_meridiem_end(s);
    reveal_strlit("ago");
    lemma_lit_end(s, "ago"@, true);
    reveal_strlit("now");
    lemma_lit_end(s, "now"@, true);
    assert forall|i: int| no_bang_end(s, #[trigger] number(s, i)) by {
        assert(no_bang_end(s, int_digits(s, i)));
        assert(no_bang_end(s, number_word(s, i)));
    }
    assert forall|i: int| no_bang_end(s, #[trigger] colon_two(s, i)) by {
        if ch(s, i, ':') {
            assert(no_bang_end(s, two_digits(s, i + 1)));
        }
    }
    assert forall|i: int| no_bang_end(s, #[trigger] day_reference(s, i)) by {
        assert(no_bang_end(s, day_shortcut(s, i)));
        assert(no_bang_end(s, simple_weekday(s, i)) && no_bang_end(s, modified_weekday(s, i)));
    }
    assert forall|i: int| no_bang_end(s, #[trigger] clock(s, i)) by {
        if let Some((hour, a)) = two_digits(s, i) {
            if ch(s, a, ':') {
                if let Some((minute, b)) = two_digits(s, a + 1) {
                    assert(no_bang_end(s, colon_two(s, b)));
                    let c = match colon_two(s, b) {
                        Some((_, c)) => c,
                        None => b,
                    };
                    if let Some(p) = blank1(s, c, true) {
                        assert(no_bang_end(s, meridiem(s, p)));
                    }
                }
            }
        }
    }
    assert forall|i: int| no_bang_end(s, #[trigger] expression(s, i)) by {
        assert(no_bang_end(s, iso_datetime(s, i)));
        assert(no_bang_end(s, date_format(s, i)));
        if let Some((day, a)) = day_reference(s, i) {
            if let Some(b) = blank1(s, a, true) {
                if let Some(c) = tok(s, b, "at"@, true) {
                    if let Some(d) = blank1(s, c, true) {
                        assert(no_bang_end(s, clock(s, d)));
                    }
                }
            }
        }
        assert(no_bang_end(s, day_at_time(s, i)));
        assert(no_bang_end(s, now(s, i)));
        assert(no_bang_end(s, time_of_day(s, i)));
        assert(no_bang_end(s, relative_past(s, i)));
        assert(no_bang_end(s, relative_future(s, i)));
    }
}

/// A text whose last character is `!` is never read: no production ends on
/// a `!`, and it is not whitespace, so it is always left over.
pub proof fn lemma_trailing_bang_rejected(s: Seq<char>)
    requires
        s.len() > 0,
        s[s.len() - 1] == '!',
    ensures
        parse_english(s) is Err,
{
    lemma_expression_end(s);
    let i = skip_blank(s, 0, true);
    if let Some((e, j)) = expression(s, i) {
        assert(no_bang_end(s, expression(s, i)));
        lemma_skip_blank_stops(s, j, s.len() - 1, true);
    }
}

} // verus!
