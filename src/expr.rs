//! The language-neutral expression model that grammars produce and the
//! resolver consumes.
use vstd::prelude::*;

verus! {

/// A parsed time expression: exactly one variant per parse.
#[derive(PartialEq, Eq, Structural, Clone, Copy, Debug)]
pub enum TimeExpression {
    Now,
    Relative(RelativeTime),
    Absolute(AbsoluteTime),
    Day(DayReference),
    Time(Time),
    Date(StandardDate),
    DayTime(DayTime),
}

/// "in 5 minutes", "2 days ago".
#[derive(PartialEq, Eq, Structural, Clone, Copy, Debug)]
pub struct RelativeTime {
    pub amount: i64,
    pub unit: TimeUnit,
    pub direction: Direction,
}

/// An ISO date with optional time of day and zone; range checks happen at
/// resolution time.
#[derive(PartialEq, Eq, Structural, Clone, Copy, Debug)]
pub struct AbsoluteTime {
    pub year: u16,
    pub month: u8,
    pub day: u8,
    pub hour: Option<u8>,
    pub minute: Option<u8>,
    pub second: Option<u8>,
    pub nanosecond: Option<u32>,
    pub timezone: Option<Timezone>,
}

/// An explicit zone: UTC, or a fixed offset whose sign is carried on `hours`.
#[derive(PartialEq, Eq, Structural, Clone, Copy, Debug)]
pub enum Timezone {
    Utc,
    Offset { hours: i8, minutes: u8 },
}

#[derive(PartialEq, Eq, Structural, Clone, Copy, Debug)]
pub enum DayReference {
    Today,
    Yesterday,
    Tomorrow,
    Weekday { day: Weekday, modifier: Option<WeekdayModifier> },
}

/// A time of day; `hour` is on the 12-hour clock when `meridiem` is set.
#[derive(PartialEq, Eq, Structural, Clone, Copy, Debug)]
pub struct Time {
    pub hour: u8,
    pub minute: u8,
    pub second: u8,
    pub meridiem: Option<Meridiem>,
}

/// A calendar date written in a locale format ("15/03/2024", "15.03.2024").
#[derive(PartialEq, Eq, Structural, Clone, Copy, Debug)]
pub struct StandardDate {
    pub day: u8,
    pub month: u8,
    pub year: u16,
}

/// "tomorrow at 3:30 pm".
#[derive(PartialEq, Eq, Structural, Clone, Copy, Debug)]
pub struct DayTime {
    pub day: DayReference,
    pub time: Time,
}

#[derive(PartialEq, Eq, Structural, Clone, Copy, Debug)]
pub enum TimeUnit {
    Second,
    Minute,
    Hour,
    Day,
    Week,
    Month,
    Year,
}

#[derive(PartialEq, Eq, Structural, Clone, Copy, Debug)]
pub enum Direction {
    Past,
    Future,
}

#[derive(PartialEq, Eq, Structural, Clone, Copy, Debug)]
pub enum Weekday {
    Monday,
    Tuesday,
    Wednesday,
    Thursday,
    Friday,
    Saturday,
    Sunday,
}

#[derive(PartialEq, Eq, Structural, Clone, Copy, Debug)]
pub enum WeekdayModifier {
    Last,
    Next,
}

#[derive(PartialEq, Eq, Structural, Clone, Copy, Debug)]
pub enum Meridiem {
    AM,
    PM,
}

#[derive(PartialEq, Eq, Structural, Clone, Copy, Debug)]
pub enum Language {
    English,
    German,
}

/// Monday-origin index of a weekday (0 = Monday .. 6 = Sunday).
pub open spec fn weekday_index(d: Weekday) -> int {
    match d {
        Weekday::Monday => 0,
        Weekday::Tuesday => 1,
        Weekday::Wednesday => 2,
        Weekday::Thursday => 3,
        Weekday::Friday => 4,
        Weekday::Saturday => 5,
        Weekday::Sunday => 6,
    }
}

impl Weekday {
    /// Days since Monday (0 = Monday .. 6 = Sunday).
    pub fn num_days_from_monday(&self) -> (r: u8)
        ensures
            r as int == weekday_index(*self),
    {
        match self {
            Weekday::Monday => 0,
            Weekday::Tuesday => 1,
            Weekday::Wednesday => 2,
            Weekday::Thursday => 3,
            Weekday::Friday => 4,
            Weekday::Saturday => 5,
            Weekday::Sunday => 6,
        }
    }
}

} // verus!
