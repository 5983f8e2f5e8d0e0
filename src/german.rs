//! The German grammar.
//!
//! Alternatives are tried in a fixed order: ISO date-time, `DD.MM.YYYY`,
//! day with time, `jetzt`, day reference, time of day, `vor ...`, `in ...`.
//! The first alternative that matches a prefix is taken, and only whitespace
//! may follow it. Words inside an expression are separated by spaces. Every
//! word matches without regard to case: ASCII capitals and `Ä`, `Ö`, `Ü`
//! match their lower-case letters.
use vstd::prelude::*;

use crate::error::{ErrorView, TempsError};
use crate::expr::{
    DayReference, DayTime, Direction, RelativeTime, StandardDate, Time, TimeExpression,
    TimeUnit, Weekday, WeekdayModifier,
};
use crate::grammar::{failure_message, first, input_chars, utf8_offset, Outcome};
use crate::iso::{colon_two, colon_two_exec, iso_datetime, iso_datetime_exec, lemma_iso_datetime_end};
use crate::lexical::{
    blank1, blank1_exec, ch, char_matches, four_digits, four_digits_exec, int_digits, int_digits_exec, lift,
    lemma_digits_end, lemma_first_char_mismatch, lemma_lit_end, lemma_skip_blank_stops, lit_at,
    match_char, match_lit, no_bang_end, skip_blank, skip_blank_exec, tok, two_digits,
    two_digits_exec,
};

verus! {

/// A spelled-out count: the forms of the article read as 1, then `zwei` to `zehn`.
pub open spec fn number_word(s: Seq<char>, i: int) -> Option<(i64, int)> {
    if lit_at(s, i, "einem"@, true) {
        Some((1, i + "einem"@.len()))
    } else if lit_at(s, i, "einer"@, true) {
        Some((1, i + "einer"@.len()))
    } else if lit_at(s, i, "einen"@, true) {
        Some((1, i + "einen"@.len()))
    } else if lit_at(s, i, "eine"@, true) {
        Some((1, i + "eine"@.len()))
    } else if lit_at(s, i, "ein"@, true) {
        Some((1, i + "ein"@.len()))
    } else if lit_at(s, i, "zwei"@, true) {
        Some((2, i + "zwei"@.len()))
    } else if lit_at(s, i, "drei"@, true) {
        Some((3, i + "drei"@.len()))
    } else if lit_at(s, i, "vier"@, true) {
        Some((4, i + "vier"@.len()))
    } else if lit_at(s, i, "fünf"@, true) {
        Some((5, i + "fünf"@.len()))
    } else if lit_at(s, i, "sechs"@, true) {
        Some((6, i + "sechs"@.len()))
    } else if lit_at(s, i, "sieben"@, true) {
        Some((7, i + "sieben"@.len()))
    } else if lit_at(s, i, "acht"@, true) {
        Some((8, i + "acht"@.len()))
    } else if lit_at(s, i, "neun"@, true) {
        Some((9, i + "neun"@.len()))
    } else if lit_at(s, i, "zehn"@, true) {
        Some((10, i + "zehn"@.len()))
    } else {
        None
    }
}

fn number_word_exec(s: &[char], i: usize) -> (r: Option<(i64, usize)>)
    requires
        i <= s@.len(),
    ensures
        lift(r) == number_word(s@, i as int),
        r matches Some((_, j)) ==> i <= j <= s@.len(),
{
    if let Some(j) = match_lit(s, i, "einem", true) {
        return Some((1, j));
    }
    if let Some(j) = match_lit(s, i, "einer", true) {
        return Some((1, j));
    }
    if let Some(j) = match_lit(s, i, "einen", true) {
        return Some((1, j));
    }
    if let Some(j) = match_lit(s, i, "eine", true) {
        return Some((1, j));
    }
    if let Some(j) = match_lit(s, i, "ein", true) {
        return Some((1, j));
    }
    if let Some(j) = match_lit(s, i, "zwei", true) {
        return Some((2, j));
    }
    if let Some(j) = match_lit(s, i, "drei", true) {
        return Some((3, j));
    }
    if let Some(j) = match_lit(s, i, "vier", true) {
        return Some((4, j));
    }
    if let Some(j) = match_lit(s, i, "fünf", true) {
        return Some((5, j));
    }
    if let Some(j) = match_lit(s, i, "sechs", true) {
        return Some((6, j));
    }
    if let Some(j) = match_lit(s, i, "sieben", true) {
        return Some((7, j));
    }
    if let Some(j) = match_lit(s, i, "acht", true) {
        return Some((8, j));
    }
    if let Some(j) = match_lit(s, i, "neun", true) {
        return Some((9, j));
    }
    if let Some(j) = match_lit(s, i, "zehn", true) {
        return Some((10, j));
    }
    None
}

/// A time unit, longer spellings first.
pub open spec fn time_unit(s: Seq<char>, i: int) -> Option<(TimeUnit, int)> {
    if lit_at(s, i, "sekunden"@, true) {
        Some((TimeUnit::Second, i + "sekunden"@.len()))
    } else if lit_at(s, i, "sekunde"@, true) {
        Some((TimeUnit::Second, i + "sekunde"@.len()))
    } else if lit_at(s, i, "sek"@, true) {
        Some((TimeUnit::Second, i + "sek"@.len()))
    } else if lit_at(s, i, "minuten"@, true) {
        Some((TimeUnit::Minute, i + "minuten"@.len()))
    } else if lit_at(s, i, "minute"@, true) {
        Some((TimeUnit::Minute, i + "minute"@.len()))
    } else if lit_at(s, i, "min"@, true) {
        Some((TimeUnit::Minute, i + "min"@.len()))
    } else if lit_at(s, i, "stunden"@, true) {
        Some((TimeUnit::Hour, i + "stunden"@.len()))
    } else if lit_at(s, i, "stunde"@, true) {
        Some((TimeUnit::Hour, i + "stunde"@.len()))
    } else if lit_at(s, i, "std"@, true) {
        Some((TimeUnit::Hour, i + "std"@.len()))
    } else if lit_at(s, i, "tagen"@, true) {
        Some((TimeUnit::Day, i + "tagen"@.len()))
    } else if lit_at(s, i, "tage"@, true) {
        Some((TimeUnit::Day, i + "tage"@.len()))
    } else if lit_at(s, i, "tag"@, true) {
        Some((TimeUnit::Day, i + "tag"@.len()))
    } else if lit_at(s, i, "wochen"@, true) {
        Some((TimeUnit::Week, i + "wochen"@.len()))
    } else if lit_at(s, i, "woche"@, true) {
        Some((TimeUnit::Week, i + "woche"@.len()))
    } else if lit_at(s, i, "monaten"@, true) {
        Some((TimeUnit::Month, i + "monaten"@.len()))
    } else if lit_at(s, i, "monate"@, true) {
        Some((TimeUnit::Month, i + "monate"@.len()))
    } else if lit_at(s, i, "monat"@, true) {
        Some((TimeUnit::Month, i + "monat"@.len()))
    } else if lit_at(s, i, "jahren"@, true) {
        Some((TimeUnit::Year, i + "jahren"@.len()))
    } else if lit_at(s, i, "jahre"@, true) {
        Some((TimeUnit::Year, i + "jahre"@.len()))
    } else if lit_at(s, i, "jahr"@, true) {
        Some((TimeUnit::Year, i + "jahr"@.len()))
    } else {
        None
    }
}

fn time_unit_exec(s: &[char], i: usize) -> (r: Option<(TimeUnit, usize)>)
    requires
        i <= s@.len(),
    ensures
        lift(r) == time_unit(s@, i as int),
        r matches Some((_, j)) ==> i <= j <= s@.len(),
{
    if let Some(j) = match_lit(s, i, "sekunden", true) {
        return Some((TimeUnit::Second, j));
    }
    if let Some(j) = match_lit(s, i, "sekunde", true) {
        return Some((TimeUnit::Second, j));
    }
    if let Some(j) = match_lit(s, i, "sek", true) {
        return Some((TimeUnit::Second, j));
    }
    if let Some(j) = match_lit(s, i, "minuten", true) {
        return Some((TimeUnit::Minute, j));
    }
    if let Some(j) = match_lit(s, i, "minute", true) {
        return Some((TimeUnit::Minute, j));
    }
    if let Some(j) = match_lit(s, i, "min", true) {
        return Some((TimeUnit::Minute, j));
    }
    if let Some(j) = match_lit(s, i, "stunden", true) {
        return Some((TimeUnit::Hour, j));
    }
    if let Some(j) = match_lit(s, i, "stunde", true) {
        return Some((TimeUnit::Hour, j));
    }
    if let Some(j) = match_lit(s, i, "std", true) {
        return Some((TimeUnit::Hour, j));
    }
    if let Some(j) = match_lit(s, i, "tagen", true) {
        return Some((TimeUnit::Day, j));
    }
    if let Some(j) = match_lit(s, i, "tage", true) {
        return Some((TimeUnit::Day, j));
    }
    if let Some(j) = match_lit(s, i, "tag", true) {
        return Some((TimeUnit::Day, j));
    }
    if let Some(j) = match_lit(s, i, "wochen", true) {
        return Some((TimeUnit::Week, j));
    }
    if let Some(j) = match_lit(s, i, "woche", true) {
        return Some((TimeUnit::Week, j));
    }
    if let Some(j) = match_lit(s, i, "monaten", true) {
        return Some((TimeUnit::Month, j));
    }
    if let Some(j) = match_lit(s, i, "monate", true) {
        return Some((TimeUnit::Month, j));
    }
    if let Some(j) = match_lit(s, i, "monat", true) {
        return Some((TimeUnit::Month, j));
    }
    if let Some(j) = match_lit(s, i, "jahren", true) {
        return Some((TimeUnit::Year, j));
    }
    if let Some(j) = match_lit(s, i, "jahre", true) {
        return Some((TimeUnit::Year, j));
    }
    if let Some(j) = match_lit(s, i, "jahr", true) {
        return Some((TimeUnit::Year, j));
    }
    None
}

/// A weekday name or its two-letter abbreviation.
pub open spec fn weekday(s: Seq<char>, i: int) -> Option<(Weekday, int)> {
    if lit_at(s, i, "montag"@, true) {
        Some((Weekday::Monday, i + "montag"@.len()))
    } else if lit_at(s, i, "mo"@, true) {
        Some((Weekday::Monday, i + "mo"@.len()))
    } else if lit_at(s, i, "dienstag"@, true) {
        Some((Weekday::Tuesday, i + "dienstag"@.len()))
    } else if lit_at(s, i, "di"@, true) {
        Some((Weekday::Tuesday, i + "di"@.len()))
    } else if lit_at(s, i, "mittwoch"@, true) {
        Some((Weekday::Wednesday, i + "mittwoch"@.len()))
    } else if lit_at(s, i, "mi"@, true) {
        Some((Weekday::Wednesday, i + "mi"@.len()))
    } else if lit_at(s, i, "donnerstag"@, true) {
        Some((Weekday::Thursday, i + "donnerstag"@.len()))
    } else if lit_at(s, i, "do"@, true) {
        Some((Weekday::Thursday, i + "do"@.len()))
    } else if lit_at(s, i, "freitag"@, true) {
        Some((Weekday::Friday, i + "freitag"@.len()))
    } else if lit_at(s, i, "fr"@, true) {
        Some((Weekday::Friday, i + "fr"@.len()))
    } else if lit_at(s, i, "samstag"@, true) {
        Some((Weekday::Saturday, i + "samstag"@.len()))
    } else if lit_at(s, i, "sa"@, true) {
        Some((Weekday::Saturday, i + "sa"@.len()))
    } else if lit_at(s, i, "sonntag"@, true) {
        Some((Weekday::Sunday, i + "sonntag"@.len()))
    } else if lit_at(s, i, "so"@, true) {
        Some((Weekday::Sunday, i + "so"@.len()))
    } else {
        None
    }
}

fn weekday_exec(s: &[char], i: usize) -> (r: Option<(Weekday, usize)>)
    requires
        i <= s@.len(),
    ensures
        lift(r) == weekday(s@, i as int),
        r matches Some((_, j)) ==> i <= j <= s@.len(),
{
    if let Some(j) = match_lit(s, i, "montag", true) {
        return Some((Weekday::Monday, j));
    }
    if let Some(j) = match_lit(s, i, "mo", true) {
        return Some((Weekday::Monday, j));
    }
    if let Some(j) = match_lit(s, i, "dienstag", true) {
        return Some((Weekday::Tuesday, j));
    }
    if let Some(j) = match_lit(s, i, "di", true) {
        return Some((Weekday::Tuesday, j));
    }
    if let Some(j) = match_lit(s, i, "mittwoch", true) {
        return Some((Weekday::Wednesday, j));
    }
    if let Some(j) = match_lit(s, i, "mi", true) {
        return Some((Weekday::Wednesday, j));
    }
    if let Some(j) = match_lit(s, i, "donnerstag", true) {
        return Some((Weekday::Thursday, j));
    }
    if let Some(j) = match_lit(s, i, "do", true) {
        return Some((Weekday::Thursday, j));
    }
    if let Some(j) = match_lit(s, i, "freitag", true) {
        return Some((Weekday::Friday, j));
    }
    if let Some(j) = match_lit(s, i, "fr", true) {
        return Some((Weekday::Friday, j));
    }
    if let Some(j) = match_lit(s, i, "samstag", true) {
        return Some((Weekday::Saturday, j));
    }
    if let Some(j) = match_lit(s, i, "sa", true) {
        return Some((Weekday::Saturday, j));
    }
    if let Some(j) = match_lit(s, i, "sonntag", true) {
        return Some((Weekday::Sunday, j));
    }
    if let Some(j) = match_lit(s, i, "so", true) {
        return Some((Weekday::Sunday, j));
    }
    None
}

/// `heute`, `gestern` or `morgen`.
pub open spec fn day_shortcut(s: Seq<char>, i: int) -> Option<(DayReference, int)> {
    if lit_at(s, i, "heute"@, true) {
        Some((DayReference::Today, i + "heute"@.len()))
    } else if lit_at(s, i, "gestern"@, true) {
        Some((DayReference::Yesterday, i + "gestern"@.len()))
    } else if lit_at(s, i, "morgen"@, true) {
        Some((DayReference::Tomorrow, i + "morgen"@.len()))
    } else {
        None
    }
}

fn day_shortcut_exec(s: &[char], i: usize) -> (r: Option<(DayReference, usize)>)
    requires
        i <= s@.len(),
    ensures
        lift(r) == day_shortcut(s@, i as int),
        r matches Some((_, j)) ==> i <= j <= s@.len(),
{
    if let Some(j) = match_lit(s, i, "heute", true) {
        return Some((DayReference::Today, j));
    }
    if let Some(j) = match_lit(s, i, "gestern", true) {
        return Some((DayReference::Yesterday, j));
    }
    if let Some(j) = match_lit(s, i, "morgen", true) {
        return Some((DayReference::Tomorrow, j));
    }
    None
}

/// `letzte(n)` or `nächste(n)`.
pub open spec fn weekday_modifier(s: Seq<char>, i: int) -> Option<(WeekdayModifier, int)> {
    if lit_at(s, i, "letzten"@, true) {
        Some((WeekdayModifier::Last, i + "letzten"@.len()))
    } else if lit_at(s, i, "letzte"@, true) {
        Some((WeekdayModifier::Last, i + "letzte"@.len()))
    } else if lit_at(s, i, "nächsten"@, true) {
        Some((WeekdayModifier::Next, i + "nächsten"@.len()))
    } else if lit_at(s, i, "nächste"@, true) {
        Some((WeekdayModifier::Next, i + "nächste"@.len()))
    } else {
        None
    }
}

fn weekday_modifier_exec(s: &[char], i: usize) -> (r: Option<(WeekdayModifier, usize)>)
    requires
        i <= s@.len(),
    ensures
        lift(r) == weekday_modifier(s@, i as int),
        r matches Some((_, j)) ==> i <= j <= s@.len(),
{
    if let Some(j) = match_lit(s, i, "letzten", true) {
        return Some((WeekdayModifier::Last, j));
    }
    if let Some(j) = match_lit(s, i, "letzte", true) {
        return Some((WeekdayModifier::Last, j));
    }
    if let Some(j) = match_lit(s, i, "nächsten", true) {
        return Some((WeekdayModifier::Next, j));
    }
    if let Some(j) = match_lit(s, i, "nächste", true) {
        return Some((WeekdayModifier::Next, j));
    }
    None
}

/// A count: a run of digits that fits an `i64`, or a spelled-out number.
pub open spec fn number(s: Seq<char>, i: int) -> Option<(i64, int)> {
    first(int_digits(s, i), number_word(s, i))
}

fn number_exec(s: &[char], i: usize) -> (r: Option<(i64, usize)>)
    requires
        i <= s@.len(),
    ensures
        lift(r) == number(s@, i as int),
        r matches Some((_, j)) ==> i <= j <= s@.len(),
{
    if let Some(x) = int_digits_exec(s, i) {
        return Some(x);
    }
    number_word_exec(s, i)
}

/// `<marker> <count> <unit>`, the marker being `vor` (past) or `in` (future).
pub open spec fn relative(s: Seq<char>, i: int, marker: Seq<char>, direction: Direction) -> Option<(TimeExpression, int)> {
    match tok(s, i, marker, true) {
        Some(a) => match blank1(s, a, false) {
            Some(b) => match number(s, b) {
                Some((amount, c)) => match blank1(s, c, false) {
                    Some(d) => match time_unit(s, d) {
                        Some((unit, e)) => Some(
                            (TimeExpression::Relative(RelativeTime { amount, unit, direction }), e),
                        ),
                        None => None,
                    },
                    None => None,
                },
                None => None,
            },
            None => None,
        },
        None => None,
    }
}

fn relative_exec(s: &[char], i: usize, marker: &str, direction: Direction) -> (r: Option<(TimeExpression, usize)>)
    requires
        i <= s@.len(),
    ensures
        lift(r) == relative(s@, i as int, marker@, direction),
        r matches Some((_, j)) ==> i <= j <= s@.len(),
{
    let a = match match_lit(s, i, marker, true) {
        Some(x) => x,
        None => return None,
    };
    let b = match blank1_exec(s, a, false) {
        Some(x) => x,
        None => return None,
    };
    let (amount, c) = match number_exec(s, b) {
        Some(x) => x,
        None => return None,
    };
    let d = match blank1_exec(s, c, false) {
        Some(x) => x,
        None => return None,
    };
    let (unit, e) = match time_unit_exec(s, d) {
        Some(x) => x,
        None => return None,
    };
    Some((TimeExpression::Relative(RelativeTime { amount, unit, direction }), e))
}

/// `jetzt`.
pub open spec fn now(s: Seq<char>, i: int) -> Option<(TimeExpression, int)> {
    match tok(s, i, "jetzt"@, true) {
        Some(j) => Some((TimeExpression::Now, j)),
        None => None,
    }
}

fn now_exec(s: &[char], i: usize) -> (r: Option<(TimeExpression, usize)>)
    requires
        i <= s@.len(),
    ensures
        lift(r) == now(s@, i as int),
        r matches Some((_, j)) ==> i <= j <= s@.len(),
{
    match match_lit(s, i, "jetzt", true) {
        Some(j) => Some((TimeExpression::Now, j)),
        None => None,
    }
}

/// `letzten <weekday>` or `nächsten <weekday>`.
pub open spec fn modified_weekday(s: Seq<char>, i: int) -> Option<(DayReference, int)> {
    match weekday_modifier(s, i) {
        Some((m, a)) => match blank1(s, a, false) {
            Some(b) => match weekday(s, b) {
                Some((day, c)) => Some((DayReference::Weekday { day, modifier: Some(m) }, c)),
                None => None,
            },
            None => None,
        },
        None => None,
    }
}

fn modified_weekday_exec(s: &[char], i: usize) -> (r: Option<(DayReference, usize)>)
    requires
        i <= s@.len(),
    ensures
        lift(r) == modified_weekday(s@, i as int),
        r matches Some((_, j)) ==> i <= j <= s@.len(),
{
    let (m, a) = match weekday_modifier_exec(s, i) {
        Some(x) => x,
        None => return None,
    };
    let b = match blank1_exec(s, a, false) {
        Some(x) => x,
        None => return None,
    };
    match weekday_exec(s, b) {
        Some((day, c)) => Some((DayReference::Weekday { day, modifier: Some(m) }, c)),
        None => None,
    }
}

/// A bare weekday.
pub open spec fn simple_weekday(s: Seq<char>, i: int) -> Option<(DayReference, int)> {
    match weekday(s, i) {
        Some((day, a)) => Some((DayReference::Weekday { day, modifier: None }, a)),
        None => None,
    }
}

fn simple_weekday_exec(s: &[char], i: usize) -> (r: Option<(DayReference, usize)>)
    requires
        i <= s@.len(),
    ensures
        lift(r) == simple_weekday(s@, i as int),
        r matches Some((_, j)) ==> i <= j <= s@.len(),
{
    match weekday_exec(s, i) {
        Some((day, a)) => Some((DayReference::Weekday { day, modifier: None }, a)),
        None => None,
    }
}

/// A shortcut, a modified weekday or a bare weekday, in that order.
pub open spec fn day_reference(s: Seq<char>, i: int) -> Option<(DayReference, int)> {
    first(day_shortcut(s, i), first(modified_weekday(s, i), simple_weekday(s, i)))
}

fn day_reference_exec(s: &[char], i: usize) -> (r: Option<(DayReference, usize)>)
    requires
        i <= s@.len(),
    ensures
        lift(r) == day_reference(s@, i as int),
        r matches Some((_, j)) ==> i <= j <= s@.len(),
{
    if let Some(x) = day_shortcut_exec(s, i) {
        return Some(x);
    }
    if let Some(x) = modified_weekday_exec(s, i) {
        return Some(x);
    }
    simple_weekday_exec(s, i)
}

/// `H:MM` and optional `:SS` (zero when absent), on the 24-hour clock.
pub open spec fn clock(s: Seq<char>, i: int) -> Option<(Time, int)> {
    match two_digits(s, i) {
        Some((hour, a)) => if ch(s, a, ':') {
            match two_digits(s, a + 1) {
                Some((minute, b)) => match colon_two(s, b) {
                    Some((second, c)) => Some((Time { hour, minute, second, meridiem: None }, c)),
                    None => Some((Time { hour, minute, second: 0, meridiem: None }, b)),
                },
                None => None,
            }
        } else {
            None
        },
        None => None,
    }
}

fn clock_exec(s: &[char], i: usize) -> (r: Option<(Time, usize)>)
    requires
        i <= s@.len(),
    ensures
        lift(r) == clock(s@, i as int),
        r matches Some((_, j)) ==> i <= j <= s@.len(),
{
    let (hour, a) = match two_digits_exec(s, i) {
        Some(x) => x,
        None => return None,
    };
    if !match_char(s, a, ':') {
        return None;
    }
    let (minute, b) = match two_digits_exec(s, a + 1) {
        Some(x) => x,
        None => return None,
    };
    match colon_two_exec(s, b) {
        Some((second, c)) => Some((Time { hour, minute, second, meridiem: None }, c)),
        None => Some((Time { hour, minute, second: 0, meridiem: None }, b)),
    }
}

/// Position after an optional ` Uhr` at `i`.
pub open spec fn optional_uhr(s: Seq<char>, i: int) -> int {
    match blank1(s, i, false) {
        Some(a) => match tok(s, a, "uhr"@, true) {
            Some(b) => b,
            None => i,
        },
        None => i,
    }
}

fn optional_uhr_exec(s: &[char], i: usize) -> (r: usize)
    requires
        i <= s@.len(),
    ensures
        r as int == optional_uhr(s@, i as int),
        i <= r <= s@.len(),
{
    match blank1_exec(s, i, false) {
        Some(a) => match match_lit(s, a, "uhr", true) {
            Some(b) => b,
            None => i,
        },
        None => i,
    }
}

/// A time of day, optionally followed by `Uhr`.
pub open spec fn time_of_day(s: Seq<char>, i: int) -> Option<(TimeExpression, int)> {
    match clock(s, i) {
        Some((t, a)) => Some((TimeExpression::Time(t), optional_uhr(s, a))),
        None => None,
    }
}

fn time_of_day_exec(s: &[char], i: usize) -> (r: Option<(TimeExpression, usize)>)
    requires
        i <= s@.len(),
    ensures
        lift(r) == time_of_day(s@, i as int),
        r matches Some((_, j)) ==> i <= j <= s@.len(),
{
    match clock_exec(s, i) {
        Some((t, a)) => Some((TimeExpression::Time(t), optional_uhr_exec(s, a))),
        None => None,
    }
}

/// `<day reference> um <time>`, optionally followed by `Uhr`.
pub open spec fn day_at_time(s: Seq<char>, i: int) -> Option<(TimeExpression, int)> {
    match day_reference(s, i) {
        Some((day, a)) => match blank1(s, a, false) {
            Some(b) => match tok(s, b, "um"@, true) {
                Some(c) => match blank1(s, c, false) {
                    Some(d) => match clock(s, d) {
                        Some((time, e)) => Some(
                            (TimeExpression::DayTime(DayTime { day, time }), optional_uhr(s, e)),
                        ),
                        None => None,
                    },
                    None => None,
                },
                None => None,
            },
            None => None,
        },
        None => None,
    }
}

fn day_at_time_exec(s: &[char], i: usize) -> (r: Option<(TimeExpression, usize)>)
    requires
        i <= s@.len(),
    ensures
        lift(r) == day_at_time(s@, i as int),
        r matches Some((_, j)) ==> i <= j <= s@.len(),
{
    let (day, a) = match day_reference_exec(s, i) {
        Some(x) => x,
        None => return None,
    };
    let b = match blank1_exec(s, a, false) {
        Some(x) => x,
        None => return None,
    };
    let c = match match_lit(s, b, "um", true) {
        Some(x) => x,
        None => return None,
    };
    let d = match blank1_exec(s, c, false) {
        Some(x) => x,
        None => return None,
    };
    match clock_exec(s, d) {
        Some((time, e)) => Some(
            (TimeExpression::DayTime(DayTime { day, time }), optional_uhr_exec(s, e)),
        ),
        None => None,
    }
}

/// `DD.MM.YYYY`.
pub open spec fn date_format(s: Seq<char>, i: int) -> Option<(TimeExpression, int)> {
    match two_digits(s, i) {
        Some((day, a)) => if ch(s, a, '.') {
            match two_digits(s, a + 1) {
                Some((month, b)) => if ch(s, b, '.') {
                    match four_digits(s, b + 1) {
                        Some((year, c)) => Some(
                            (TimeExpression::Date(StandardDate { day, month, year }), c),
                        ),
                        None => None,
                    }
                } else {
                    None
                },
                None => None,
            }
        } else {
            None
        },
        None => None,
    }
}

fn date_format_exec(s: &[char], i: usize) -> (r: Option<(TimeExpression, usize)>)
    requires
        i <= s@.len(),
    ensures
        lift(r) == date_format(s@, i as int),
        r matches Some((_, j)) ==> i <= j <= s@.len(),
{
    let (day, a) = match two_digits_exec(s, i) {
        Some(x) => x,
        None => return None,
    };
    if !match_char(s, a, '.') {
        return None;
    }
    let (month, b) = match two_digits_exec(s, a + 1) {
        Some(x) => x,
        None => return None,
    };
    if !match_char(s, b, '.') {
        return None;
    }
    match four_digits_exec(s, b + 1) {
        Some((year, c)) => Some((TimeExpression::Date(StandardDate { day, month, year }), c)),
        None => None,
    }
}

/// The first alternative, in the grammar's order, that matches at `i`.
pub open spec fn expression(s: Seq<char>, i: int) -> Option<(TimeExpression, int)> {
    first(
        iso_datetime(s, i),
        first(
            date_format(s, i),
            first(
                day_at_time(s, i),
                first(
                    now(s, i),
                    first(
                        match day_reference(s, i) {
                            Some((d, j)) => Some((TimeExpression::Day(d), j)),
                            None => None,
                        },
                        first(
                            time_of_day(s, i),
                            first(
                                relative(s, i, "vor"@, Direction::Past),
                                relative(s, i, "in"@, Direction::Future),
                            ),
                        ),
                    ),
                ),
            ),
        ),
    )
}

fn expression_exec(s: &[char], i: usize) -> (r: Option<(TimeExpression, usize)>)
    requires
        i <= s@.len(),
    ensures
        lift(r) == expression(s@, i as int),
        r matches Some((_, j)) ==> i <= j <= s@.len(),
{
    if let Some(x) = iso_datetime_exec(s, i) {
        return Some(x);
    }
    if let Some(x) = date_format_exec(s, i) {
        return Some(x);
    }
    if let Some(x) = day_at_time_exec(s, i) {
        return Some(x);
    }
    if let Some(x) = now_exec(s, i) {
        return Some(x);
    }
    if let Some((d, j)) = day_reference_exec(s, i) {
        return Some((TimeExpression::Day(d), j));
    }
    if let Some(x) = time_of_day_exec(s, i) {
        return Some(x);
    }
    if let Some(x) = relative_exec(s, i, "vor", Direction::Past) {
        return Some(x);
    }
    relative_exec(s, i, "in", Direction::Future)
}

/// The whole text read as German: leading and trailing whitespace is
/// skipped, and the matched expression must reach the end. On failure, the character
/// position where reading stopped.
pub open spec fn parse_german(s: Seq<char>) -> Outcome {
    let i = skip_blank(s, 0, true);
    match expression(s, i) {
        Some((e, j)) => if skip_blank(s, j, true) == s.len() {
            Ok(e)
        } else {
            Err(skip_blank(s, j, true))
        },
        None => Err(i),
    }
}

pub fn parse_german_chars(s: &[char]) -> (r: Result<TimeExpression, usize>)
    ensures
        match r {
            Ok(e) => parse_german(s@) == Ok::<TimeExpression, int>(e),
            Err(p) => parse_german(s@) == Err::<TimeExpression, int>(p as int) && p <= s@.len(),
        },
{
    let i = skip_blank_exec(s, 0, true);
    match expression_exec(s, i) {
        Some((e, j)) => {
            let k = skip_blank_exec(s, j, true);
            if k == s.len() {
                Ok(e)
            } else {
                Err(k)
            }
        },
        None => Err(i),
    }
}

/// Parser for German time expressions.
pub struct GermanParser;

impl GermanParser {
    /// Reads `input` as a German time expression. On failure the error carries
    /// the input and the byte offset where reading stopped.
    pub fn parse(&self, input: &str) -> (r: Result<TimeExpression, TempsError>)
        ensures
            match r {
                Ok(e) => parse_german(input@) == Ok::<TimeExpression, int>(e),
                Err(err) => match parse_german(input@) {
                    Err(p) => err@ == ErrorView::ParseError {
                        message: failure_message(),
                        input: input@,
                        position: Some(utf8_offset(input@, p) as usize),
                    },
                    Ok(_) => false,
                },
            },
    {
        let chars = input_chars(input);
        match parse_german_chars(chars.as_slice()) {
            Ok(e) => Ok(e),
            Err(p) => Err(crate::grammar::parse_failure(input, p)),
        }
    }
}

/// Once the grammar has committed to an alternative, anything but whitespace
/// after it makes the whole text fail, at the first such character.
pub proof fn lemma_trailing_input_rejected(s: Seq<char>, e: TimeExpression, j: int)
    requires
        expression(s, skip_blank(s, 0, true)) == Some((e, j)),
        skip_blank(s, j, true) < s.len(),
    ensures
        parse_german(s) == Err::<TimeExpression, int>(skip_blank(s, j, true)),
{
}

/// `jetzt` is read in any mix of ASCII case.
pub proof fn lemma_jetzt_any_case(s: Seq<char>)
    requires
        s.len() == "jetzt"@.len(),
        lit_at(s, 0, "jetzt"@, true),
    ensures
        parse_german(s) == Ok::<TimeExpression, int>(TimeExpression::Now),
{
    reveal_strlit("jetzt");
    reveal_strlit("heute");
    reveal_strlit("gestern");
    reveal_strlit("morgen");
    reveal_strlit("letzten");
    reveal_strlit("letzte");
    reveal_strlit("nächsten");
    reveal_strlit("nächste");
    reveal_strlit("montag");
    reveal_strlit("mo");
    reveal_strlit("dienstag");
    reveal_strlit("di");
    reveal_strlit("mittwoch");
    reveal_strlit("mi");
    reveal_strlit("donnerstag");
    reveal_strlit("do");
    reveal_strlit("freitag");
    reveal_strlit("fr");
    reveal_strlit("samstag");
    reveal_strlit("sa");
    reveal_strlit("sonntag");
    reveal_strlit("so");
    assert(char_matches(s[0int + 0], "jetzt"@[0], true));
    assert(char_matches(s[0int + 4], "jetzt"@[4], true));
    assert(skip_blank(s, 0, true) == 0);
    assert(skip_blank(s, 5, true) == 5);
    lemma_first_char_mismatch(s, 0, "heute"@, true);
    lemma_first_char_mismatch(s, 0, "mo"@, true);
    lemma_first_char_mismatch(s, 0, "di"@, true);
    lemma_first_char_mismatch(s, 0, "mi"@, true);
    lemma_first_char_mismatch(s, 0, "do"@, true);
    lemma_first_char_mismatch(s, 0, "fr"@, true);
    lemma_first_char_mismatch(s, 0, "sa"@, true);
    lemma_first_char_mismatch(s, 0, "so"@, true);
    assert(day_reference(s, 0) is None);
    assert(two_digits(s, 0) is None);
}

proof fn lemma_number_word_end(s: Seq<char>)
    ensures
        forall|i: int| no_bang_end(s, #[trigger] number_word(s, i)),
{
    reveal_strlit("einem");
    lemma_lit_end(s, "einem"@, true);
    reveal_strlit("einer");
    lemma_lit_end(s, "einer"@, true);
    reveal_strlit("einen");
    lemma_lit_end(s, "einen"@, true);
    reveal_strlit("eine");
    lemma_lit_end(s, "eine"@, true);
    reveal_strlit("ein");
    lemma_lit_end(s, "ein"@, true);
    reveal_strlit("zwei");
    lemma_lit_end(s, "zwei"@, true);
    reveal_strlit("drei");
    lemma_lit_end(s, "drei"@, true);
    reveal_strlit("vier");
    lemma_lit_end(s, "vier"@, true);
    reveal_strlit("fünf");
    lemma_lit_end(s, "fünf"@, true);
    reveal_strlit("sechs");
    lemma_lit_end(s, "sechs"@, true);
    reveal_strlit("sieben");
    lemma_lit_end(s, "sieben"@, true);
    reveal_strlit("acht");
    lemma_lit_end(s, "acht"@, true);
    reveal_strlit("neun");
    lemma_lit_end(s, "neun"@, true);
    reveal_strlit("zehn");
    lemma_lit_end(s, "zehn"@, true);
}

proof fn lemma_time_unit_end(s: Seq<char>)
    ensures
        forall|i: int| no_bang_end(s, #[trigger] time_unit(s, i)),
{
    reveal_strlit("sekunden");
    lemma_lit_end(s, "sekunden"@, true);
    reveal_strlit("sekunde");
    lemma_lit_end(s, "sekunde"@, true);
    reveal_strlit("sek");
    lemma_lit_end(s, "sek"@, true);
    reveal_strlit("minuten");
    lemma_lit_end(s, "minuten"@, true);
    reveal_strlit("minute");
    lemma_lit_end(s, "minute"@, true);
    reveal_strlit("min");
    lemma_lit_end(s, "min"@, true);
    reveal_strlit("stunden");
    lemma_lit_end(s, "stunden"@, true);
    reveal_strlit("stunde");
    lemma_lit_end(s, "stunde"@, true);
    reveal_strlit("std");
    lemma_lit_end(s, "std"@, true);
    reveal_strlit("tagen");
    lemma_lit_end(s, "tagen"@, true);
    reveal_strlit("tage");
    lemma_lit_end(s, "tage"@, true);
    reveal_strlit("tag");
    lemma_lit_end(s, "tag"@, true);
    reveal_strlit("wochen");
    lemma_lit_end(s, "wochen"@, true);
    reveal_strlit("woche");
    lemma_lit_end(s, "woche"@, true);
    reveal_strlit("monaten");
    lemma_lit_end(s, "monaten"@, true);
    reveal_strlit("monate");
    lemma_lit_end(s, "monate"@, true);
    reveal_strlit("monat");
    lemma_lit_end(s, "monat"@, true);
    reveal_strlit("jahren");
    lemma_lit_end(s, "jahren"@, true);
    reveal_strlit("jahre");
    lemma_lit_end(s, "jahre"@, true);
    reveal_strlit("jahr");
    lemma_lit_end(s, "jahr"@, true);
}

proof fn lemma_weekday_end(s: Seq<char>)
    ensures
        forall|i: int| no_bang_end(s, #[trigger] weekday(s, i)),
{
    reveal_strlit("montag");
    lemma_lit_end(s, "montag"@, true);
    reveal_strlit("mo");
    lemma_lit_end(s, "mo"@, true);
    reveal_strlit("dienstag");
    lemma_lit_end(s, "dienstag"@, true);
    reveal_strlit("di");
    lemma_lit_end(s, "di"@, true);
    reveal_strlit("mittwoch");
    lemma_lit_end(s, "mittwoch"@, true);
    reveal_strlit("mi");
    lemma_lit_end(s, "mi"@, true);
    reveal_strlit("donnerstag");
    lemma_lit_end(s, "donnerstag"@, true);
    reveal_strlit("do");
    lemma_lit_end(s, "do"@, true);
    reveal_strlit("freitag");
    lemma_lit_end(s, "freitag"@, true);
    reveal_strlit("fr");
    lemma_lit_end(s, "fr"@, true);
    reveal_strlit("samstag");
    lemma_lit_end(s, "samstag"@, true);
    reveal_strlit("sa");
    lemma_lit_end(s, "sa"@, true);
    reveal_strlit("sonntag");
    lemma_lit_end(s, "sonntag"@, true);
    reveal_strlit("so");
    lemma_lit_end(s, "so"@, true);
}

proof fn lemma_day_shortcut_end(s: Seq<char>)
    ensures
        forall|i: int| no_bang_end(s, #[trigger] day_shortcut(s, i)),
{
    reveal_strlit("heute");
    lemma_lit_end(s, "heute"@, true);
    reveal_strlit("gestern");
    lemma_lit_end(s, "gestern"@, true);
    reveal_strlit("morgen");
    lemma_lit_end(s, "morgen"@, true);
}

proof fn lemma_weekday_modifier_end(s: Seq<char>)
    ensures
        forall|i: int| no_bang_end(s, #[trigger] weekday_modifier(s, i)),
{
    reveal_strlit("letzten");
    lemma_lit_end(s, "letzten"@, true);
    reveal_strlit("letzte");
    lemma_lit_end(s, "letzte"@, true);
    reveal_strlit("nächsten");
    lemma_lit_end(s, "nächsten"@, true);
    reveal_strlit("nächste");
    lemma_lit_end(s, "nächste"@, true);
}

/// No alternative of the grammar ends its match on a `!`.
proof fn lemma_expression_end(s: Seq<char>)
    ensures
        forall|i: int| no_bang_end(s, #[trigger] expression(s, i)),
{
    lemma_digits_end(s);
    lemma_iso_datetime_end(s);
    lemma_number_word_end(s);
    lemma_time_unit_end(s);
    lemma_weekday_end(s);
    lemma_day_shortcut_end(s);
    reveal_strlit("jetzt");
    lemma_lit_end(s, "jetzt"@, true);
    reveal_strlit("uhr");
    lemma_lit_end(s, "uhr"@, true);
    assert forall|i: int| no_bang_end(s, #[trigger] number(s, i)) by {
        assert(no_bang_end(s, int_digits(s, i)));
        assert(no_bang_end(s, number_word(s, i)));
    }
    assert forall|i: int| no_bang_end(s, #[trigger] colon_two(s, i)) by {
        if ch(s, i, ':') {
            assert(no_bang_end(s, two_digits(s, i + 1)));
        }
    }
    assert forall|i: int| no_bang_end(s, #[trigger] day_reference(s, i)) by {
        assert(no_bang_end(s, day_shortcut(s, i)));
        assert(no_bang_end(s, simple_weekday(s, i)) && no_bang_end(s, modified_weekday(s, i)));
    }
    assert forall|i: int| no_bang_end(s, #[trigger] clock(s, i)) by {
        if let Some((hour, a)) = two_digits(s, i) {
            if ch(s, a, ':') {
                if let Some((minute, b)) = two_digits(s, a + 1) {
                    assert(no_bang_end(s, colon_two(s, b)));
                }
            }
        }
    }
    assert forall|j: int| 0 < j <= s.len() && s[j - 1] != '!' implies 0 < #[trigger] optional_uhr(
        s,
        j,
    ) <= s.len() && s[optional_uhr(s, j) - 1] != '!' by {
        if let Some(a) = blank1(s, j, false) {
            if let Some(b) = tok(s, a, "uhr"@, true) {
            }
        }
    }
    assert forall|m: Seq<char>, d: Direction, i: int|
        no_bang_end(s, #[trigger] relative(s, i, m, d)) by {
        if let Some(a) = tok(s, i, m, true) {
            if let Some(b) = blank1(s, a, false) {
                if let Some((amount, c)) = number(s, b) {
                    if let Some(d2) = blank1(s, c, false) {
                        assert(no_bang_end(s, time_unit(s, d2)));
                    }
                }
            }
        }
    }
    assert forall|i: int| no_bang_end(s, #[trigger] expression(s, i)) by {
        assert(no_bang_end(s, iso_datetime(s, i)));
        assert(no_bang_end(s, date_format(s, i))) by {
            if let Some((day, a)) = two_digits(s, i) {
                if ch(s, a, '.') {
                    if let Some((month, b)) = two_digits(s, a + 1) {
                        if ch(s, b, '.') {
                            assert(no_bang_end(s, four_digits(s, b + 1)));
                        }
                    }
                }
            }
        }
        if let Some((day, a)) = day_reference(s, i) {
            if let Some(b) = blank1(s, a, false) {
                if let Some(c) = tok(s, b, "um"@, true) {
                    if let Some(d) = blank1(s, c, false) {
                        if let Some((t, e)) = clock(s, d) {
                            assert(no_bang_end(s, clock(s, d)));
                        }
                    }
                }
            }
        }
        assert(no_bang_end(s, day_at_time(s, i)));
        assert(no_bang_end(s, now(s, i)));
        assert(no_bang_end(s, clock(s, i)));
        assert(no_bang_end(s, time_of_day(s, i)));
        assert(no_bang_end(s, relative(s, i, "vor"@, Direction::Past)));
        assert(no_bang_end(s, relative(s, i, "in"@, Direction::Future)));
    }
}

/// A text whose last character is `!` is never read: no production ends on
/// a `!`, and it is not whitespace, so it is always left over.
pub proof fn lemma_trailing_bang_rejected(s: Seq<char>)
    requires
        s.len() > 0,
        s[s.len() - 1] == '!',
    ensures
        parse_german(s) is Err,
{
    lemma_expression_end(s);
    let i = skip_blank(s, 0, true);
    if let Some((e, j)) = expression(s, i) {
        assert(no_bang_end(s, expression(s, i)));
        lemma_skip_blank_stops(s, j, s.len() - 1, true);
    }
}

} // verus!
