//! The ISO 8601 form shared by every language:
//! `YYYY-MM-DD[{T| }HH:MM[:SS[.fraction]][Z|±HH[:MM]]]`.
use vstd::prelude::*;

use crate::expr::{AbsoluteTime, TimeExpression, Timezone};
use crate::lexical::{
    ch, fraction_digits, fraction_digits_exec, four_digits, four_digits_exec, lemma_digits_end, lift,
    match_char, no_bang_end,
    two_digits, two_digits_exec,
};

verus! {

/// The time-of-day part read after the date.
pub type IsoClock = (u8, u8, Option<u8>, Option<u32>, Option<Timezone>);

/// `:` followed by one or two digits.
pub open spec fn colon_two(s: Seq<char>, i: int) -> Option<(u8, int)> {
    if ch(s, i, ':') {
        two_digits(s, i + 1)
    } else {
        None
    }
}

/// `Z`, or a sign, one or two digits of hours and optionally `:` and minutes
/// (zero when absent).
pub open spec fn timezone(s: Seq<char>, i: int) -> Option<(Timezone, int)> {
    if ch(s, i, 'Z') {
        Some((Timezone::Utc, i + 1))
    } else if ch(s, i, '+') || ch(s, i, '-') {
        match two_digits(s, i + 1) {
            Some((h, a)) => {
                let hours = if s[i] == '+' { h as i8 } else { (-(h as int)) as i8 };
                match colon_two(s, a) {
                    Some((m, b)) => Some((Timezone::Offset { hours, minutes: m }, b)),
                    None => Some((Timezone::Offset { hours, minutes: 0 }, a)),
                }
            },
            None => None,
        }
    } else {
        None
    }
}

/// `:SS` with an optional `.fraction`.
pub open spec fn iso_seconds(s: Seq<char>, i: int) -> Option<((u8, Option<u32>), int)> {
    match colon_two(s, i) {
        Some((sec, a)) => if ch(s, a, '.') {
            match fraction_digits(s, a + 1) {
                Some((ns, b)) => Some(((sec, Some(ns)), b)),
                None => Some(((sec, None), a)),
            }
        } else {
            Some(((sec, None), a))
        },
        None => None,
    }
}

/// `T` or a space, `HH:MM`, then optional seconds and an optional zone.
pub open spec fn iso_clock(s: Seq<char>, i: int) -> Option<(IsoClock, int)> {
    if ch(s, i, 'T') || ch(s, i, ' ') {
        match two_digits(s, i + 1) {
            Some((h, a)) => if ch(s, a, ':') {
                match two_digits(s, a + 1) {
                    Some((m, b)) => {
                        let (sec, ns, c) = match iso_seconds(s, b) {
                            Some(((sec, ns), c)) => (Some(sec), ns, c),
                            None => (None, None, b),
                        };
                        match timezone(s, c) {
                            Some((tz, d)) => Some(((h, m, sec, ns, Some(tz)), d)),
                            None => Some(((h, m, sec, ns, None), c)),
                        }
                    },
                    None => None,
                }
            } else {
                None
            },
            None => None,
        }
    } else {
        None
    }
}

/// `YYYY-MM-DD`.
pub open spec fn iso_date(s: Seq<char>, i: int) -> Option<((u16, u8, u8), int)> {
    match four_digits(s, i) {
        Some((y, a)) => if ch(s, a, '-') {
            match two_digits(s, a + 1) {
                Some((mo, b)) => if ch(s, b, '-') {
                    match two_digits(s, b + 1) {
                        Some((d, c)) => Some(((y, mo, d), c)),
                        None => None,
                    }
                } else {
                    None
                },
                None => None,
            }
        } else {
            None
        },
        None => None,
    }
}

/// An ISO date, with the time of day when it follows.
pub open spec fn iso_datetime(s: Seq<char>, i: int) -> Option<(TimeExpression, int)> {
    match iso_date(s, i) {
        Some(((year, month, day), c)) => match iso_clock(s, c) {
            Some(((h, m, sec, ns, tz), d)) => Some(
                (
                    TimeExpression::Absolute(
                        AbsoluteTime {
                            year,
                            month,
                            day,
                            hour: Some(h),
                            minute: Some(m),
                            second: sec,
                            nanosecond: ns,
                            timezone: tz,
                        },
                    ),
                    d,
                ),
            ),
            None => Some(
                (
                    TimeExpression::Absolute(
                        AbsoluteTime {
                            year,
                            month,
                            day,
                            hour: None,
                            minute: None,
                            second: None,
                            nanosecond: None,
                            timezone: None,
                        },
                    ),
                    c,
                ),
            ),
        },
        None => None,
    }
}

pub fn colon_two_exec(s: &[char], i: usize) -> (r: Option<(u8, usize)>)
    requires
        i <= s@.len(),
    ensures
        lift(r) == colon_two(s@, i as int),
        r matches Some((_, j)) ==> i <= j <= s@.len(),
{
    if match_char(s, i, ':') {
        two_digits_exec(s, i + 1)
    } else {
        None
    }
}

fn timezone_exec(s: &[char], i: usize) -> (r: Option<(Timezone, usize)>)
    requires
        i <= s@.len(),
    ensures
        lift(r) == timezone(s@, i as int),
        r matches Some((_, j)) ==> i <= j <= s@.len(),
{
    if match_char(s, i, 'Z') {
        Some((Timezone::Utc, i + 1))
    } else if match_char(s, i, '+') || match_char(s, i, '-') {
        match two_digits_exec(s, i + 1) {
            Some((h, a)) => {
                let hours: i8 = if s[i] == '+' {
                    h as i8
                } else {
                    -(h as i8)
                };
                match colon_two_exec(s, a) {
                    Some((m, b)) => Some((Timezone::Offset { hours, minutes: m }, b)),
                    None => Some((Timezone::Offset { hours, minutes: 0 }, a)),
                }
            },
            None => None,
        }
    } else {
        None
    }
}

fn iso_seconds_exec(s: &[char], i: usize) -> (r: Option<((u8, Option<u32>), usize)>)
    requires
        i <= s@.len(),
    ensures
        lift(r) == iso_seconds(s@, i as int),
        r matches Some((_, j)) ==> i <= j <= s@.len(),
{
    match colon_two_exec(s, i) {
        Some((sec, a)) => if match_char(s, a, '.') {
            match fraction_digits_exec(s, a + 1) {
                Some((ns, b)) => Some(((sec, Some(ns)), b)),
                None => Some(((sec, None), a)),
            }
        } else {
            Some(((sec, None), a))
        },
        None => None,
    }
}

fn iso_clock_exec(s: &[char], i: usize) -> (r: Option<(IsoClock, usize)>)
    requires
        i <= s@.len(),
    ensures
        lift(r) == iso_clock(s@, i as int),
        r matches Some((_, j)) ==> i <= j <= s@.len(),
{
    if match_char(s, i, 'T') || match_char(s, i, ' ') {
        match two_digits_exec(s, i + 1) {
            Some((h, a)) => if match_char(s, a, ':') {
                match two_digits_exec(s, a + 1) {
                    Some((m, b)) => {
                        let (sec, ns, c) = match iso_seconds_exec(s, b) {
                            Some(((sec, ns), c)) => (Some(sec), ns, c),
                            None => (None, None, b),
                        };
                        match timezone_exec(s, c) {
                            Some((tz, d)) => Some(((h, m, sec, ns, Some(tz)), d)),
                            None => Some(((h, m, sec, ns, None), c)),
                        }
                    },
                    None => None,
                }
            } else {
                None
            },
            None => None,
        }
    } else {
        None
    }
}

fn iso_date_exec(s: &[char], i: usize) -> (r: Option<((u16, u8, u8), usize)>)
    requires
        i <= s@.len(),
    ensures
        lift(r) == iso_date(s@, i as int),
        r matches Some((_, j)) ==> i <= j <= s@.len(),
{
    match four_digits_exec(s, i) {
        Some((y, a)) => if match_char(s, a, '-') {
            match two_digits_exec(s, a + 1) {
                Some((mo, b)) => if match_char(s, b, '-') {
                    match two_digits_exec(s, b + 1) {
                        Some((d, c)) => Some(((y, mo, d), c)),
                        None => None,
                    }
                } else {
                    None
                },
                None => None,
            }
        } else {
            None
        },
        None => None,
    }
}

pub fn iso_datetime_exec(s: &[char], i: usize) -> (r: Option<(TimeExpression, usize)>)
    requires
        i <= s@.len(),
    ensures
        lift(r) == iso_datetime(s@, i as int),
        r matches Some((_, j)) ==> i <= j <= s@.len(),
{
    match iso_date_exec(s, i) {
        Some(((year, month, day), c)) => match iso_clock_exec(s, c) {
            Some(((h, m, sec, ns, tz), d)) => Some(
                (
                    TimeExpression::Absolute(
                        AbsoluteTime {
                            year,
                            month,
                            day,
                            hour: Some(h),
                            minute: Some(m),
                            second: sec,
                            nanosecond: ns,
                            timezone: tz,
                        },
                    ),
                    d,
                ),
            ),
            None => Some(
                (
                    TimeExpression::Absolute(
                        AbsoluteTime {
                            year,
                            month,
                            day,
                            hour: None,
                            minute: None,
                            second: None,
                            nanosecond: None,
                            timezone: None,
                        },
                    ),
                    c,
                ),
            ),
        },
        None => None,
    }
}

/// The ISO form never ends its match on a `!`.
pub proof fn lemma_iso_datetime_end(s: Seq<char>)
    ensures
        forall|i: int| no_bang_end(s, #[trigger] iso_datetime(s, i)),
{
    lemma_digits_end(s);
    assert forall|i: int| no_bang_end(s, #[trigger] colon_two(s, i)) by {
        if ch(s, i, ':') {
            assert(no_bang_end(s, two_digits(s, i + 1)));
        }
    }
    assert forall|i: int| no_bang_end(s, #[trigger] timezone(s, i)) by {
        if ch(s, i, '+') || ch(s, i, '-') {
            if let Some((h, a)) = two_digits(s, i + 1) {
                assert(no_bang_end(s, colon_two(s, a)));
            }
        }
    }
    assert forall|i: int| no_bang_end(s, #[trigger] iso_seconds(s, i)) by {
        if let Some((sec, a)) = colon_two(s, i) {
            if ch(s, a, '.') {
                assert(no_bang_end(s, fraction_digits(s, a + 1)));
            }
        }
    }
    assert forall|i: int| no_bang_end(s, #[trigger] iso_clock(s, i)) by {
        if ch(s, i, 'T') || ch(s, i, ' ') {
            if let Some((h, a)) = two_digits(s, i + 1) {
                if ch(s, a, ':') {
                    if let Some((m, b)) = two_digits(s, a + 1) {
                        assert(no_bang_end(s, iso_seconds(s, b)));
                        let c = match iso_seconds(s, b) {
                            Some((_, c)) => c,
                            None => b,
                        };
                        assert(no_bang_end(s, timezone(s, c)));
                    }
                }
            }
        }
    }
    assert forall|i: int| no_bang_end(s, #[trigger] iso_date(s, i)) by {
        if let Some((y, a)) = four_digits(s, i) {
            if ch(s, a, '-') {
                if let Some((mo, b)) = two_digits(s, a + 1) {
                    if ch(s, b, '-') {
                        assert(no_bang_end(s, two_digits(s, b + 1)));
                    }
                }
            }
        }
    }
    assert forall|i: int| no_bang_end(s, #[trigger] iso_datetime(s, i)) by {
        if let Some((_, c)) = iso_date(s, i) {
            assert(no_bang_end(s, iso_clock(s, c)));
        }
    }
}

} // verus!
