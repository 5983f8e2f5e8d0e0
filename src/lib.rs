//! Natural-language time expressions: per-language grammars that turn text
//! into a [`TimeExpression`], and a resolver that turns an expression and a
//! reference instant into a concrete date-time.
use vstd::prelude::*;

pub mod calendar;
pub mod error;
pub mod english;
pub mod expr;
pub mod german;
pub mod grammar;
pub mod hhmmss;
pub mod iso;
pub mod lexical;
pub mod localized;
pub mod resolve;
pub mod test_dates;
pub mod text;
pub mod time_utils;

pub use english::EnglishParser;
pub use error::TempsError;
pub use german::GermanParser;
pub use hhmmss::Hhmmss;
pub use expr::{
    AbsoluteTime, DayReference, DayTime, Direction, Language, Meridiem, RelativeTime,
    StandardDate, Time, TimeExpression, TimeUnit, Timezone, Weekday, WeekdayModifier,
};

use crate::calendar::DateTime;
use crate::error::ErrorView;
use crate::grammar::{failure_message, utf8_offset, Outcome};
use crate::resolve::{realizes, resolve_target, same_result, Resolution};

verus! {

/// The whole text read in the grammar of `language`.
pub open spec fn parse_text(s: Seq<char>, language: Language) -> Outcome {
    match language {
        Language::English => english::parse_english(s),
        Language::German => german::parse_german(s),
    }
}

/// The error reported for text that reading stopped in at character `p`.
pub open spec fn parse_error_at(s: Seq<char>, p: int) -> ErrorView {
    ErrorView::ParseError {
        message: failure_message(),
        input: s,
        position: Some(utf8_offset(s, p) as usize),
    }
}

/// Any text followed by `!` fails to parse, in every language: no production
/// reads a `!`, and only whitespace may follow a match.
pub proof fn lemma_bang_suffix_rejected(s: Seq<char>, language: Language)
    ensures
        parse_text(s.push('!'), language) is Err,
{
    let t = s.push('!');
    assert(t[t.len() - 1] == '!');
    match language {
        Language::English => english::lemma_trailing_bang_rejected(t),
        Language::German => german::lemma_trailing_bang_rejected(t),
    }
}

/// Reads `input` with the grammar of `language`.
pub fn parse(input: &str, language: Language) -> (r: Result<TimeExpression, TempsError>)
    ensures
        match parse_text(input@, language) {
            Ok(e) => r == Ok::<TimeExpression, TempsError>(e),
            Err(p) => r matches Err(err) && err@ == parse_error_at(input@, p),
        },
{
    match language {
        Language::English => EnglishParser.parse(input),
        Language::German => GermanParser.parse(input),
    }
}

/// `r` is what reading `s` in `language` and resolving it against `now` gives.
pub open spec fn resolves_text(
    s: Seq<char>,
    language: Language,
    now: DateTime,
    r: Result<Resolution, TempsError>,
) -> bool {
    match parse_text(s, language) {
        Ok(e) => realizes(r, resolve_target(e, now)),
        Err(p) => r matches Err(err) && err@ == parse_error_at(s, p),
    }
}

/// Reading and resolving is a function of the text, the language and the
/// current instant: any two results it may give are the same.
pub proof fn lemma_resolution_deterministic(
    s: Seq<char>,
    language: Language,
    now: DateTime,
    r1: Result<Resolution, TempsError>,
    r2: Result<Resolution, TempsError>,
)
    requires
        resolves_text(s, language, now, r1),
        resolves_text(s, language, now, r2),
    ensures
        same_result(r1, r2),
{
    if let Ok(e) = parse_text(s, language) {
        resolve::lemma_realizes_unique(r1, r2, resolve_target(e, now));
    }
}

/// Reads `input` with the grammar of `language` and resolves it against the
/// current instant `now`. The result is a function of the three arguments.
pub fn parse_and_resolve_at(input: &str, language: Language, now: &DateTime) -> (r: Result<
    Resolution,
    TempsError,
>)
    requires
        now.wf(),
    ensures
        resolves_text(input@, language, *now, r),
{
    match parse(input, language) {
        Ok(e) => resolve::resolve(&e, now),
        Err(err) => Err(err),
    }
}

} // verus!
