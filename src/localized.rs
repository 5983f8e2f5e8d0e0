//! A compact front end that reads German text and answers with an instant in
//! the zone of the given current instant. It knows two forms: `jetzt`, and a
//! `DD.MM.YYYY` date, read as midnight UTC.
use vstd::prelude::*;

use crate::calendar::{day_number, is_valid_date, valid_date, CivilDateTime, DateTime, SECONDS_PER_DAY};
use crate::expr::TimeExpression;
use crate::german::{parse_german, GermanParser};
use crate::parse_error_at;

verus! {

/// The grammars this front end can read.
#[derive(PartialEq, Eq, Structural, Clone, Copy, Debug)]
pub enum LocalizedParsers {
    DE,
}

/// What the German front end recognises.
#[derive(PartialEq, Eq, Structural, Clone, Copy, Debug)]
pub enum Time {
    Now,
    Date { day: u32, month: u32, year: i32 },
}

/// Why the German front end rejected a text.
#[derive(Debug)]
pub enum DeTimeParseError {
    /// The text is not a time expression.
    Parse(crate::error::TempsError),
    /// The text is a time expression of another form.
    UnexpectedPattern,
}

/// Errors of this front end.
#[derive(Debug)]
pub enum TempsError {
    DeTimeParseError(DeTimeParseError),
    ChronoError,
    UnknownLanguage,
}

/// The German front end's grammar.
pub struct DeTimeParser;

/// What the front end reads from `s`: `Some(Ok(t))` for its two forms,
/// `Some(Err(()))` for any other time expression, `None` when `s` is none.
pub open spec fn de_time(s: Seq<char>) -> Option<Result<Time, ()>> {
    match parse_german(s) {
        Ok(TimeExpression::Now) => Some(Ok(Time::Now)),
        Ok(TimeExpression::Date(d)) => Some(
            Ok(Time::Date { day: d.day as u32, month: d.month as u32, year: d.year as i32 }),
        ),
        Ok(_) => Some(Err(())),
        Err(_) => None,
    }
}

impl DeTimeParser {
    /// Reads `input` as `jetzt` or a `DD.MM.YYYY` date.
    pub fn parse(input: &str) -> (r: Result<Time, DeTimeParseError>)
        ensures
            match de_time(input@) {
                Some(Ok(t)) => r == Ok::<Time, DeTimeParseError>(t),
                Some(Err(())) => r matches Err(DeTimeParseError::UnexpectedPattern),
                None => parse_german(input@) matches Err(p) && r matches Err(
                    DeTimeParseError::Parse(e),
                ) && e@ == parse_error_at(input@, p),
            },
    {
        match GermanParser.parse(input) {
            Ok(TimeExpression::Now) => Ok(Time::Now),
            Ok(TimeExpression::Date(d)) => Ok(
                Time::Date { day: d.day as u32, month: d.month as u32, year: d.year as i32 },
            ),
            Ok(_) => Err(DeTimeParseError::UnexpectedPattern),
            Err(e) => Err(DeTimeParseError::Parse(e)),
        }
    }
}

/// Midnight UTC of the date, seen at the offset of `now`.
fn date_at_offset(day: u32, month: u32, year: i32, now: &DateTime) -> (r: Result<DateTime, TempsError>)
    requires
        now.wf(),
    ensures
        match r {
            Ok(x) => valid_date(year as int, month as int, day as int) && x.wf() && x.offset_seconds
                == now.offset_seconds && x.spec_utc_timestamp() == day_number(
                year as int,
                month as int,
                day as int,
            ) * SECONDS_PER_DAY,
            Err(e) => e is ChronoError,
        },
        valid_date(year as int, month as int, day as int) && 0 <= day_number(
            year as int,
            month as int,
            day as int,
        ) * SECONDS_PER_DAY + now.offset_seconds < crate::calendar::timestamp_limit() ==> r is Ok,
{
    if month > 12 || day > 31 || !is_valid_date(year, month as u8, day as u8) {
        return Err(TempsError::ChronoError);
    }
    let n = crate::calendar::date_to_day_number(year, month as u8, day as u8);
    proof {
        crate::calendar::lemma_year_bounds(crate::calendar::MAX_YEAR + 1);
    }
    let midnight = CivilDateTime::from_timestamp(n * 86400, 0);
    let utc = DateTime { civil: midnight, offset_seconds: 0 };
    match utc.with_offset(now.offset_seconds) {
        Some(x) => Ok(x),
        None => Err(TempsError::ChronoError),
    }
}

/// Reads `input` with the chosen grammar and answers with an instant at the
/// offset of `now`: `now` itself for `jetzt`, midnight UTC for a date.
pub fn parse(input: &str, parser: LocalizedParsers, now: &DateTime) -> (r: Result<DateTime, TempsError>)
    requires
        now.wf(),
    ensures
        match de_time(input@) {
            Some(Ok(Time::Now)) => r == Ok::<DateTime, TempsError>(*now),
            Some(Ok(Time::Date { day, month, year })) => match r {
                Ok(x) => valid_date(year as int, month as int, day as int) && x.wf()
                    && x.offset_seconds == now.offset_seconds && x.spec_utc_timestamp()
                    == day_number(year as int, month as int, day as int) * SECONDS_PER_DAY,
                Err(e) => e is ChronoError && !(valid_date(year as int, month as int, day as int)
                    && 0 <= day_number(year as int, month as int, day as int) * SECONDS_PER_DAY
                    + now.offset_seconds < crate::calendar::timestamp_limit()),
            },
            Some(Err(())) => r matches Err(
                TempsError::DeTimeParseError(DeTimeParseError::UnexpectedPattern),
            ),
            None => r matches Err(TempsError::DeTimeParseError(DeTimeParseError::Parse(_))),
        },
{
    let time = match parser {
        LocalizedParsers::DE => match DeTimeParser::parse(input) {
            Ok(t) => t,
            Err(e) => return Err(TempsError::DeTimeParseError(e)),
        },
    };
    match time {
        Time::Now => Ok(*now),
        Time::Date { day, month, year } => date_at_offset(day, month, year, now),
    }
}

} // verus!
