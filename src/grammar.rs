//! What every grammar shares: ordered choice, the outcome of reading a whole
//! text, and the error reported when reading fails.
use vstd::prelude::*;
use vstd::utf8::encode_utf8;

use crate::error::{ErrorView, TempsError};
use crate::expr::TimeExpression;

verus! {

/// Reading a whole text gives an expression, or the character position where
/// reading stopped.
pub type Outcome = Result<TimeExpression, int>;

/// Ordered choice: the first alternative when it matched, else the second.
pub open spec fn first<T>(a: Option<T>, b: Option<T>) -> Option<T> {
    if a is Some {
        a
    } else {
        b
    }
}

/// Byte offset of character position `p` in the UTF-8 encoding of `s`.
pub open spec fn utf8_offset(s: Seq<char>, p: int) -> int {
    encode_utf8(s.subrange(0, p)).len() as int
}

pub open spec fn failure_message() -> Seq<char> {
    "no time expression matches the input here"@
}

/// The characters of `input`, in order.
pub fn input_chars(input: &str) -> (r: Vec<char>)
    ensures
        r@ == input@,
{
    let n = input.unicode_len();
    let mut out: Vec<char> = Vec::new();
    let mut i: usize = 0;
    while i < n
        invariant
            0 <= i <= n,
            n == input@.len(),
            out@ == input@.subrange(0, i as int),
        decreases n - i,
    {
        out.push(input.get_char(i));
        i = i + 1;
        assert(out@ =~= input@.subrange(0, i as int));
    }
    assert(out@ =~= input@);
    out
}

/// The parse error for `input` when reading stopped at character `p`.
pub fn parse_failure(input: &str, p: usize) -> (r: TempsError)
    requires
        p <= input@.len(),
    ensures
        r@ == (ErrorView::ParseError {
            message: failure_message(),
            input: input@,
            position: Some(utf8_offset(input@, p as int) as usize),
        }),
{
    let prefix = input.substring_char(0, p);
    let offset = prefix.len();
    TempsError::parse_error_with_position("no time expression matches the input here", input, offset)
}

} // verus!
