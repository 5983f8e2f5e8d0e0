//! `hh:mm:ss` and `hh:mm:ss.xxx` renderings of durations.
use vstd::prelude::*;
use vstd::string::*;

use crate::text::{push_padded, zero_padded};

verus! {

/// `hh:mm:ss` for a magnitude of whole seconds (hours may take more digits).
pub open spec fn clock_text(a: nat) -> Seq<char> {
    zero_padded(a / 3600, 2) + ":"@ + zero_padded((a % 3600) / 60, 2) + ":"@ + zero_padded(
        a % 60,
        2,
    )
}

pub open spec fn magnitude(n: int) -> nat {
    if n < 0 {
        (-n) as nat
    } else {
        n as nat
    }
}

/// `hh:mm:ss`, with a leading `-` for negative durations.
pub open spec fn hhmmss_text(seconds: int) -> Seq<char> {
    (if seconds < 0 { "-"@ } else { ""@ }) + clock_text(magnitude(seconds))
}

/// Whether whole seconds and the milliseconds past them make a negative
/// duration (under one second, only the milliseconds carry the sign).
pub open spec fn is_negative_duration(seconds: int, milliseconds: int) -> bool {
    seconds < 0 || (seconds == 0 && milliseconds < 0)
}

/// `hh:mm:ss.xxx`: a leading `-` for negative durations, then the magnitudes
/// of the seconds and of the milliseconds.
pub open spec fn hhmmssxxx_text(seconds: int, milliseconds: int) -> Seq<char> {
    (if is_negative_duration(seconds, milliseconds) { "-"@ } else { ""@ }) + clock_text(
        magnitude(seconds),
    ) + "."@ + zero_padded(magnitude(milliseconds), 3)
}

fn push_clock(out: &mut String, a: u128)
    ensures
        final(out)@ == old(out)@ + clock_text(a as nat),
{
    push_padded(out, a / 3600, 2);
    out.append(":");
    push_padded(out, (a % 3600) / 60, 2);
    out.append(":");
    push_padded(out, a % 60, 2);
    proof {
        assert(out@ =~= old(out)@ + clock_text(a as nat));
    }
}

/// Renders whole seconds as `hh:mm:ss`.
pub fn seconds_to_hhmmss(seconds: i64) -> (r: String)
    ensures
        r@ == hhmmss_text(seconds as int),
{
    let mut out = String::new();
    let a: u128 = if seconds < 0 {
        out.append("-");
        (-(seconds as i128)) as u128
    } else {
        seconds as u128
    };
    push_clock(&mut out, a);
    proof {
        reveal_strlit("");
        assert(out@ =~= hhmmss_text(seconds as int));
    }
    out
}

/// Renders seconds and milliseconds as `hh:mm:ss.xxx`.
pub fn seconds_milliseconds_to_hhmmssxxxx(seconds: i64, milliseconds: i128) -> (r: String)
    requires
        milliseconds > i128::MIN,
    ensures
        r@ == hhmmssxxx_text(seconds as int, milliseconds as int),
{
    let mut out = String::new();
    if seconds < 0 || (seconds == 0 && milliseconds < 0) {
        out.append("-");
    }
    let a: u128 = if seconds < 0 {
        (-(seconds as i128)) as u128
    } else {
        seconds as u128
    };
    push_clock(&mut out, a);
    out.append(".");
    let ms: u128 = if milliseconds < 0 {
        (-milliseconds) as u128
    } else {
        milliseconds as u128
    };
    push_padded(&mut out, ms, 3);
    proof {
        reveal_strlit("");
        assert(out@ =~= hhmmssxxx_text(seconds as int, milliseconds as int));
    }
    out
}

/// Durations that can be shown as `hh:mm:ss` and `hh:mm:ss.xxx`.
pub trait Hhmmss {
    /// Whole seconds, and the milliseconds past them.
    fn seconds_milliseconds(&self) -> (r: (i64, i128))
        ensures
            r.1 > i128::MIN,
    ;

    /// The duration as `hh:mm:ss`: the rendering of the whole seconds that
    /// [`Hhmmss::seconds_milliseconds`] gives.
    fn hhmmss(&self) -> (r: String)
        ensures
            exists|seconds: i64| r@ == hhmmss_text(seconds as int),
    {
        let (seconds, _) = self.seconds_milliseconds();
        seconds_to_hhmmss(seconds)
    }

    /// The duration as `hh:mm:ss.xxx`: the rendering of the seconds and
    /// milliseconds that [`Hhmmss::seconds_milliseconds`] gives.
    fn hhmmssxxx(&self) -> (r: String)
        ensures
            exists|seconds: i64, milliseconds: i128|
                milliseconds > i128::MIN && r@ == hhmmssxxx_text(
                    seconds as int,
                    milliseconds as int,
                ),
    {
        let (seconds, milliseconds) = self.seconds_milliseconds();
        seconds_milliseconds_to_hhmmssxxxx(seconds, milliseconds)
    }
}

/// Relies on `Duration::subsec_millis`, which the standard library documents
/// as always below one thousand.
pub assume_specification[ core::time::Duration::subsec_millis ](d: &core::time::Duration) -> (r: u32)
    ensures
        r < 1000,
;

/// Relies on `Duration::as_secs`: the whole seconds of the duration.
pub assume_specification[ core::time::Duration::as_secs ](d: &core::time::Duration) -> u64;

impl Hhmmss for std::time::Duration {
    fn seconds_milliseconds(&self) -> (r: (i64, i128)) {
        let seconds = self.as_secs();
        let milliseconds = self.subsec_millis();
        (seconds as i64, milliseconds as i128)
    }
}

/// chrono's signed duration, carried opaquely.
#[verifier::external_type_specification]
#[verifier::external_body]
pub struct ExTimeDelta(chrono::TimeDelta);

/// Relies on `TimeDelta::num_seconds`: the whole seconds, truncated toward zero.
pub assume_specification[ chrono::TimeDelta::num_seconds ](d: &chrono::TimeDelta) -> i64;

/// Relies on `TimeDelta::num_milliseconds`: the whole milliseconds, truncated
/// toward zero.
pub assume_specification[ chrono::TimeDelta::num_milliseconds ](d: &chrono::TimeDelta) -> i64;

impl Hhmmss for chrono::TimeDelta {
    fn seconds_milliseconds(&self) -> (r: (i64, i128)) {
        let seconds = self.num_seconds();
        let milliseconds = self.num_milliseconds() as i128 - 1000 * (seconds as i128);
        (seconds, milliseconds)
    }
}

/// time's signed duration, carried opaquely.
#[verifier::external_type_specification]
#[verifier::external_body]
pub struct ExSignedDuration(time::SignedDuration);

/// Relies on `SignedDuration::whole_seconds`: the whole seconds of the duration.
pub assume_specification[ time::SignedDuration::whole_seconds ](d: time::SignedDuration) -> i64;

/// Relies on `SignedDuration::whole_milliseconds`, computed in its source as
/// the `i64` seconds times 1000 plus the milliseconds of the sub-second part,
/// so its magnitude stays below `(i64::MAX + 1) * 1000 + 1000`.
pub assume_specification[ time::SignedDuration::whole_milliseconds ](d: time::SignedDuration) -> (r: i128)
    ensures
        -9_223_372_036_854_775_809_000 < r < 9_223_372_036_854_775_809_000,
;

impl Hhmmss for time::SignedDuration {
    fn seconds_milliseconds(&self) -> (r: (i64, i128)) {
        let seconds = self.whole_seconds();
        let milliseconds = self.whole_milliseconds() - 1000 * (seconds as i128);
        (seconds, milliseconds)
    }
}

} // verus!
