//! The error taxonomy shared by parsing and resolution.
use vstd::prelude::*;
use vstd::string::*;

use crate::text::{
    decimal, push_decimal, push_padded, push_signed_padded, signed_padded, zero_padded,
};

verus! {

/// Every failure of parsing or resolving, with the values needed to explain it.
#[derive(Debug, Clone, PartialEq)]
pub enum TempsError {
    /// No production matched, or input was left over after the match.
    ParseError { message: String, input: String, position: Option<usize> },
    /// Calendar arithmetic had no valid result.
    DateCalculationError { message: String, context: Option<String> },
    /// The components do not form a calendar date.
    InvalidDate { year: u16, month: u8, day: u8 },
    /// The components do not form a time of day.
    InvalidTime { hour: u8, minute: u8, second: u8 },
    /// The offset is not a representable UTC offset.
    InvalidTimezoneOffset { hours: i8, minutes: u8 },
    /// A wall-clock reading maps to no instant or to several.
    AmbiguousTime { message: String },
    /// An integer conversion between units overflowed.
    ArithmeticOverflow { operation: String },
    /// The backend cannot materialise this request.
    UnsupportedOperation { operation: String },
    /// A failure reported by the date-time backend.
    BackendError { message: String, backend: String },
}

/// A [`TempsError`] with its strings seen as character sequences.
pub enum ErrorView {
    ParseError { message: Seq<char>, input: Seq<char>, position: Option<usize> },
    DateCalculationError { message: Seq<char>, context: Option<Seq<char>> },
    InvalidDate { year: u16, month: u8, day: u8 },
    InvalidTime { hour: u8, minute: u8, second: u8 },
    InvalidTimezoneOffset { hours: i8, minutes: u8 },
    AmbiguousTime { message: Seq<char> },
    ArithmeticOverflow { operation: Seq<char> },
    UnsupportedOperation { operation: Seq<char> },
    BackendError { message: Seq<char>, backend: Seq<char> },
}

impl View for TempsError {
    type V = ErrorView;

    open spec fn view(&self) -> ErrorView {
        match self {
            TempsError::ParseError { message, input, position } => ErrorView::ParseError {
                message: message@,
                input: input@,
                position: *position,
            },
            TempsError::DateCalculationError { message, context } => {
                ErrorView::DateCalculationError {
                    message: message@,
                    context: match context {
                        Some(c) => Some(c@),
                        None => None,
                    },
                }
            },
            TempsError::InvalidDate { year, month, day } => ErrorView::InvalidDate {
                year: *year,
                month: *month,
                day: *day,
            },
            TempsError::InvalidTime { hour, minute, second } => ErrorView::InvalidTime {
                hour: *hour,
                minute: *minute,
                second: *second,
            },
            TempsError::InvalidTimezoneOffset { hours, minutes } => {
                ErrorView::InvalidTimezoneOffset { hours: *hours, minutes: *minutes }
            },
            TempsError::AmbiguousTime { message } => ErrorView::AmbiguousTime {
                message: message@,
            },
            TempsError::ArithmeticOverflow { operation } => ErrorView::ArithmeticOverflow {
                operation: operation@,
            },
            TempsError::UnsupportedOperation { operation } => ErrorView::UnsupportedOperation {
                operation: operation@,
            },
            TempsError::BackendError { message, backend } => ErrorView::BackendError {
                message: message@,
                backend: backend@,
            },
        }
    }
}

/// `{:+0w}`: always a sign, then the magnitude zero-padded to `width - 1`.
pub open spec fn sign_padded(n: int, width: nat) -> Seq<char> {
    (if n < 0 { seq!['-'] } else { seq!['+'] }) + zero_padded(
        (if n < 0 { -n } else { n }) as nat,
        if width > 0 { (width - 1) as nat } else { 0 },
    )
}

/// The one-line human-readable text of an error.
pub open spec fn error_text(e: ErrorView) -> Seq<char> {
    match e {
        ErrorView::ParseError { message, .. } => "Failed to parse time expression: "@ + message,
        ErrorView::DateCalculationError { message, .. } => "Date calculation error: "@ + message,
        ErrorView::InvalidDate { year, month, day } => "Invalid date: year="@ + decimal(
            year as nat,
        ) + ", month="@ + decimal(month as nat) + ", day="@ + decimal(day as nat),
        ErrorView::InvalidTime { hour, minute, second } => "Invalid time: "@ + zero_padded(
            hour as nat,
            2,
        ) + ":"@ + zero_padded(minute as nat, 2) + ":"@ + zero_padded(second as nat, 2),
        ErrorView::InvalidTimezoneOffset { hours, minutes } => "Invalid timezone offset: "@
            + sign_padded(hours as int, 3) + ":"@ + zero_padded(minutes as nat, 2),
        ErrorView::AmbiguousTime { message } => "Ambiguous local time: "@ + message,
        ErrorView::ArithmeticOverflow { operation } => "Arithmetic overflow: "@ + operation,
        ErrorView::UnsupportedOperation { operation } => "Unsupported operation: "@ + operation,
        ErrorView::BackendError { message, .. } => "Backend error: "@ + message,
    }
}

impl TempsError {
    /// A parse error without a position.
    pub fn parse_error(message: &str, input: &str) -> (r: TempsError)
        ensures
            r@ == (ErrorView::ParseError { message: message@, input: input@, position: None }),
    {
        TempsError::ParseError {
            message: String::from_str(message),
            input: String::from_str(input),
            position: None,
        }
    }

    /// A parse error at byte offset `position` of the input.
    pub fn parse_error_with_position(message: &str, input: &str, position: usize) -> (r: TempsError)
        ensures
            r@ == (ErrorView::ParseError {
                message: message@,
                input: input@,
                position: Some(position),
            }),
    {
        TempsError::ParseError {
            message: String::from_str(message),
            input: String::from_str(input),
            position: Some(position),
        }
    }

    /// A date calculation error without context.
    pub fn date_calculation(message: &str) -> (r: TempsError)
        ensures
            r@ == (ErrorView::DateCalculationError { message: message@, context: None }),
    {
        TempsError::DateCalculationError { message: String::from_str(message), context: None }
    }

    /// A date calculation error with the text of its cause.
    pub fn date_calculation_with_source(message: &str, context: &str) -> (r: TempsError)
        ensures
            r@ == (ErrorView::DateCalculationError {
                message: message@,
                context: Some(context@),
            }),
    {
        TempsError::DateCalculationError {
            message: String::from_str(message),
            context: Some(String::from_str(context)),
        }
    }

    pub fn invalid_date(year: u16, month: u8, day: u8) -> (r: TempsError)
        ensures
            r@ == (ErrorView::InvalidDate { year, month, day }),
    {
        TempsError::InvalidDate { year, month, day }
    }

    pub fn invalid_time(hour: u8, minute: u8, second: u8) -> (r: TempsError)
        ensures
            r@ == (ErrorView::InvalidTime { hour, minute, second }),
    {
        TempsError::InvalidTime { hour, minute, second }
    }

    pub fn invalid_timezone_offset(hours: i8, minutes: u8) -> (r: TempsError)
        ensures
            r@ == (ErrorView::InvalidTimezoneOffset { hours, minutes }),
    {
        TempsError::InvalidTimezoneOffset { hours, minutes }
    }

    pub fn ambiguous_time(message: &str) -> (r: TempsError)
        ensures
            r@ == (ErrorView::AmbiguousTime { message: message@ }),
    {
        TempsError::AmbiguousTime { message: String::from_str(message) }
    }

    pub fn arithmetic_overflow(operation: &str) -> (r: TempsError)
        ensures
            r@ == (ErrorView::ArithmeticOverflow { operation: operation@ }),
    {
        TempsError::ArithmeticOverflow { operation: String::from_str(operation) }
    }

    pub fn unsupported_operation(operation: &str) -> (r: TempsError)
        ensures
            r@ == (ErrorView::UnsupportedOperation { operation: operation@ }),
    {
        TempsError::UnsupportedOperation { operation: String::from_str(operation) }
    }

    pub fn backend_error(message: &str, backend: &str) -> (r: TempsError)
        ensures
            r@ == (ErrorView::BackendError { message: message@, backend: backend@ }),
    {
        TempsError::BackendError {
            message: String::from_str(message),
            backend: String::from_str(backend),
        }
    }

    /// The human-readable text of this error.
    pub fn to_string(&self) -> (r: String)
        ensures
            r@ == error_text(self@),
    {
        let mut out = String::new();
        match self {
            TempsError::ParseError { message, .. } => {
                out.append("Failed to parse time expression: ");
                out.append(message.as_str());
            },
            TempsError::DateCalculationError { message, .. } => {
                out.append("Date calculation error: ");
                out.append(message.as_str());
            },
            TempsError::InvalidDate { year, month, day } => {
                out.append("Invalid date: year=");
                push_decimal(&mut out, *year as u128);
                out.append(", month=");
                push_decimal(&mut out, *month as u128);
                out.append(", day=");
                push_decimal(&mut out, *day as u128);
            },
            TempsError::InvalidTime { hour, minute, second } => {
                out.append("Invalid time: ");
                push_padded(&mut out, *hour as u128, 2);
                out.append(":");
                push_padded(&mut out, *minute as u128, 2);
                out.append(":");
                push_padded(&mut out, *second as u128, 2);
            },
            TempsError::InvalidTimezoneOffset { hours, minutes } => {
                out.append("Invalid timezone offset: ");
                if *hours < 0 {
                    proof {
                        reveal_strlit("-");
                    }
                    out.append("-");
                    push_padded(&mut out, (-(*hours as i16)) as u128, 2);
                } else {
                    proof {
                        reveal_strlit("+");
                    }
                    out.append("+");
                    push_padded(&mut out, *hours as u128, 2);
                }
                out.append(":");
                push_padded(&mut out, *minutes as u128, 2);
            },
            TempsError::AmbiguousTime { message } => {
                out.append("Ambiguous local time: ");
                out.append(message.as_str());
            },
            TempsError::ArithmeticOverflow { operation } => {
                out.append("Arithmetic overflow: ");
                out.append(operation.as_str());
            },
            TempsError::UnsupportedOperation { operation } => {
                out.append("Unsupported operation: ");
                out.append(operation.as_str());
            },
            TempsError::BackendError { message, .. } => {
                out.append("Backend error: ");
                out.append(message.as_str());
            },
        }
        proof {
            assert(out@ =~= error_text(self@));
        }
        out
    }
}

/// `Invalid date: Y-M-D`, numbers unpadded.
pub fn format_invalid_date(year: u16, month: u8, day: u8) -> (r: String)
    ensures
        r@ == "Invalid date: "@ + decimal(year as nat) + "-"@ + decimal(month as nat) + "-"@
            + decimal(day as nat),
{
    let mut out = String::new();
    out.append("Invalid date: ");
    push_decimal(&mut out, year as u128);
    out.append("-");
    push_decimal(&mut out, month as u128);
    out.append("-");
    push_decimal(&mut out, day as u128);
    proof {
        assert(out@ =~= "Invalid date: "@ + decimal(year as nat) + "-"@ + decimal(month as nat)
            + "-"@ + decimal(day as nat));
    }
    out
}

/// `Invalid time: H:M:S`, numbers unpadded.
pub fn format_invalid_time(hour: u8, minute: u8, second: u8) -> (r: String)
    ensures
        r@ == "Invalid time: "@ + decimal(hour as nat) + ":"@ + decimal(minute as nat) + ":"@
            + decimal(second as nat),
{
    let mut out = String::new();
    out.append("Invalid time: ");
    push_decimal(&mut out, hour as u128);
    out.append(":");
    push_decimal(&mut out, minute as u128);
    out.append(":");
    push_decimal(&mut out, second as u128);
    proof {
        assert(out@ =~= "Invalid time: "@ + decimal(hour as nat) + ":"@ + decimal(minute as nat)
            + ":"@ + decimal(second as nat));
    }
    out
}

/// `Invalid timezone offset: H:M`, hours signed only when negative.
pub fn format_invalid_timezone_offset(hours: i8, minutes: u8) -> (r: String)
    ensures
        r@ == "Invalid timezone offset: "@ + signed_padded(hours as int, 0) + ":"@ + decimal(
            minutes as nat,
        ),
{
    let mut out = String::new();
    out.append("Invalid timezone offset: ");
    push_signed_padded(&mut out, hours as i128, 0);
    out.append(":");
    push_decimal(&mut out, minutes as u128);
    proof {
        assert(out@ =~= "Invalid timezone offset: "@ + signed_padded(hours as int, 0) + ":"@
            + decimal(minutes as nat));
    }
    out
}

} // verus!
