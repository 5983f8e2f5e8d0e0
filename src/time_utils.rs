//! Small conversions shared by the resolver: 12/24-hour clock, fixed offsets
//! and weekday distances.
use vstd::prelude::*;

use crate::expr::{Meridiem, WeekdayModifier};

verus! {

/// Seconds in one hour.
pub const SECONDS_PER_HOUR: i32 = 3600;

/// Seconds in one minute.
pub const SECONDS_PER_MINUTE: i32 = 60;

/// Hour on the 24-hour clock for an hour read with an optional meridiem.
pub open spec fn hour_24(hour: int, meridiem: Option<Meridiem>) -> int {
    match meridiem {
        Some(Meridiem::AM) => if hour == 12 { 0 } else { hour },
        Some(Meridiem::PM) => if hour == 12 { hour } else { hour + 12 },
        None => hour,
    }
}

/// Converts a 12-hour reading to the 24-hour clock: 12 AM is 0, 12 PM stays
/// 12, other PM hours gain 12, and an hour without meridiem is kept.
pub fn convert_12_to_24_hour(hour: u8, meridiem: Option<&Meridiem>) -> (r: u8)
    requires
        meridiem == Some(&Meridiem::PM) ==> hour <= 243,
    ensures
        r as int == hour_24(hour as int, match meridiem {
            Some(m) => Some(*m),
            None => None,
        }),
{
    match meridiem {
        Some(Meridiem::AM) => {
            if hour == 12 {
                0
            } else {
                hour
            }
        },
        Some(Meridiem::PM) => {
            if hour == 12 {
                hour
            } else {
                hour + 12
            }
        },
        None => hour,
    }
}

/// Total seconds of an offset whose sign is carried on the hours: the
/// minutes count in the same direction as the hours.
pub open spec fn offset_seconds(hours: int, minutes: int) -> int {
    if hours < 0 {
        hours * 3600 - minutes * 60
    } else {
        hours * 3600 + minutes * 60
    }
}

/// Seconds east of UTC of an offset of `hours` hours and `minutes` minutes,
/// the sign of `hours` applying to the whole offset (`-05:30` is -19800).
pub fn calculate_timezone_offset_seconds(hours: i8, minutes: u8) -> (r: i32)
    ensures
        r as int == offset_seconds(hours as int, minutes as int),
{
    let hour_seconds = (hours as i32) * SECONDS_PER_HOUR;
    let minute_seconds = (minutes as i32) * SECONDS_PER_MINUTE;
    if hours < 0 {
        hour_seconds - minute_seconds
    } else {
        hour_seconds + minute_seconds
    }
}

/// Days from the current weekday to the target weekday (both Monday-origin).
/// Without a modifier today counts; `Next` looks strictly forward and `Last`
/// strictly backward.
pub open spec fn weekday_offset(current: int, target: int, modifier: Option<WeekdayModifier>) -> int {
    let diff = target - current;
    match modifier {
        None => if diff >= 0 { diff } else { diff + 7 },
        Some(WeekdayModifier::Next) => if diff > 0 { diff } else { diff + 7 },
        Some(WeekdayModifier::Last) => if diff < 0 { diff } else { diff - 7 },
    }
}

/// Number of days to add to reach the target weekday from the current one.
pub fn calculate_weekday_offset(
    current_day_offset: i64,
    target_day_offset: i64,
    modifier: Option<WeekdayModifier>,
) -> (r: i64)
    requires
        0 <= current_day_offset <= 6,
        0 <= target_day_offset <= 6,
    ensures
        r as int == weekday_offset(current_day_offset as int, target_day_offset as int, modifier),
{
    let days_diff = target_day_offset - current_day_offset;
    match modifier {
        None => {
            if days_diff >= 0 {
                days_diff
            } else {
                7 + days_diff
            }
        },
        Some(WeekdayModifier::Next) => {
            if days_diff > 0 {
                days_diff
            } else {
                7 + days_diff
            }
        },
        Some(WeekdayModifier::Last) => {
            if days_diff < 0 {
                days_diff
            } else {
                days_diff - 7
            }
        },
    }
}

/// For every pair of weekdays, the offset lies in `[0, 6]` without a modifier,
/// in `[1, 7]` for `Next` and in `[-7, -1]` for `Last`, and it always lands on
/// the target weekday.
pub proof fn lemma_weekday_offset_ranges(current: int, target: int)
    requires
        0 <= current <= 6,
        0 <= target <= 6,
    ensures
        0 <= weekday_offset(current, target, None) <= 6,
        1 <= weekday_offset(current, target, Some(WeekdayModifier::Next)) <= 7,
        -7 <= weekday_offset(current, target, Some(WeekdayModifier::Last)) <= -1,
        forall|m: Option<WeekdayModifier>|
            #![trigger weekday_offset(current, target, m)]
            (current + weekday_offset(current, target, m)) % 7 == target,
{
}

/// The 12/24-hour conversion: 12 AM is midnight, 12 PM is noon, any other PM
/// hour moves on by twelve, and an hour without meridiem is unchanged.
pub proof fn lemma_hour_24(h: int)
    ensures
        hour_24(12, Some(Meridiem::AM)) == 0,
        hour_24(12, Some(Meridiem::PM)) == 12,
        h != 12 ==> hour_24(h, Some(Meridiem::PM)) == h + 12,
        hour_24(h, None) == h,
{
}

} // verus!
