//! Character-level building blocks shared by every grammar: literals matched
//! with or without ASCII case folding, whitespace runs and digit fields.
//!
//! Each recogniser looks at the input from a position and yields the value it
//! read and the position after it, or nothing.
use vstd::prelude::*;

use crate::text::pow10;

verus! {

/// A recogniser result with its end position seen as an `int`.
pub open spec fn lift<T>(r: Option<(T, usize)>) -> Option<(T, int)> {
    match r {
        Some((v, j)) => Some((v, j as int)),
        None => None,
    }
}

/// A capital letter whose lower-case form is 32 code points further on: the
/// ASCII capitals and the German umlauts `Ä`, `Ö`, `Ü`.
pub open spec fn is_foldable_capital(c: char) -> bool {
    ('A' <= c <= 'Z') || c == 'Ä' || c == 'Ö' || c == 'Ü'
}

/// Input character `c` matches literal character `l`; with `caseless`, a
/// foldable capital also matches its lower-case letter.
pub open spec fn char_matches(c: char, l: char, caseless: bool) -> bool {
    c == l || (caseless && is_foldable_capital(c) && c as u32 + 32 == l as u32)
}

/// The literal `l` stands at position `i` of `s`.
pub open spec fn lit_at(s: Seq<char>, i: int, l: Seq<char>, caseless: bool) -> bool {
    0 <= i && i + l.len() <= s.len() && forall|k: int|
        0 <= k < l.len() ==> #[trigger] char_matches(s[i + k], l[k], caseless)
}

/// End of the literal `l` at `i`, if it is there.
pub open spec fn tok(s: Seq<char>, i: int, l: Seq<char>, caseless: bool) -> Option<int> {
    if lit_at(s, i, l, caseless) {
        Some(i + l.len())
    } else {
        None
    }
}

/// The single character `c` at `i`.
pub open spec fn ch(s: Seq<char>, i: int, c: char) -> bool {
    0 <= i < s.len() && s[i] == c
}

pub fn match_lit(s: &[char], i: usize, l: &str, caseless: bool) -> (r: Option<usize>)
    requires
        i <= s@.len(),
    ensures
        lift_pos(r) == tok(s@, i as int, l@, caseless),
        r matches Some(j) ==> i <= j <= s@.len(),
{
    let n = l.unicode_len();
    if n > s.len() - i {
        return None;
    }
    let mut k: usize = 0;
    while k < n
        invariant
            0 <= k <= n,
            n == l@.len(),
            i + n <= s@.len(),
            s@.len() == s.len(),
            forall|q: int| 0 <= q < k ==> #[trigger] char_matches(s@[i + q], l@[q], caseless),
        decreases n - k,
    {
        let c = s[i + k];
        let lc = l.get_char(k);
        let foldable = ('A' <= c && c <= 'Z') || c == 'Ä' || c == 'Ö' || c == 'Ü';
        let ok = c == lc || (caseless && foldable && c as u32 + 32 == lc as u32);
        if !ok {
            assert(!char_matches(s@[i + k], l@[k as int], caseless));
            return None;
        }
        k = k + 1;
    }
    Some(i + n)
}

pub open spec fn lift_pos(r: Option<usize>) -> Option<int> {
    match r {
        Some(j) => Some(j as int),
        None => None,
    }
}

pub fn match_char(s: &[char], i: usize, c: char) -> (r: bool)
    requires
        i <= s@.len(),
    ensures
        r == ch(s@, i as int, c),
        r ==> i < usize::MAX,
{
    i < s.len() && s[i] == c
}

/// Whitespace of the English grammars: space, tab, carriage return, newline.
pub open spec fn is_multispace(c: char) -> bool {
    c == ' ' || c == '\t' || c == '\r' || c == '\n'
}

/// Whitespace accepted by a grammar: all of [`is_multispace`], or spaces only.
pub open spec fn is_blank(c: char, multi: bool) -> bool {
    if multi {
        is_multispace(c)
    } else {
        c == ' '
    }
}

/// End of the longest whitespace run starting at `i`.
pub open spec fn skip_blank(s: Seq<char>, i: int, multi: bool) -> int
    decreases s.len() - i,
{
    if 0 <= i < s.len() && is_blank(s[i], multi) {
        skip_blank(s, i + 1, multi)
    } else {
        i
    }
}

/// A non-empty whitespace run at `i`, and its end.
pub open spec fn blank1(s: Seq<char>, i: int, multi: bool) -> Option<int> {
    if skip_blank(s, i, multi) > i {
        Some(skip_blank(s, i, multi))
    } else {
        None
    }
}

pub fn skip_blank_exec(s: &[char], i: usize, multi: bool) -> (r: usize)
    requires
        i <= s@.len(),
    ensures
        r as int == skip_blank(s@, i as int, multi),
        i <= r <= s@.len(),
{
    let mut j = i;
    while j < s.len() && blank_char(s[j], multi)
        invariant
            i <= j <= s@.len(),
            skip_blank(s@, j as int, multi) == skip_blank(s@, i as int, multi),
        decreases s@.len() - j,
    {
        j = j + 1;
    }
    j
}

fn blank_char(c: char, multi: bool) -> (r: bool)
    ensures
        r == is_blank(c, multi),
{
    if multi {
        c == ' ' || c == '\t' || c == '\r' || c == '\n'
    } else {
        c == ' '
    }
}

pub fn blank1_exec(s: &[char], i: usize, multi: bool) -> (r: Option<usize>)
    requires
        i <= s@.len(),
    ensures
        lift_pos(r) == blank1(s@, i as int, multi),
        r matches Some(j) ==> i <= j <= s@.len(),
{
    let j = skip_blank_exec(s, i, multi);
    if j > i {
        Some(j)
    } else {
        None
    }
}

pub open spec fn is_digit(c: char) -> bool {
    '0' <= c <= '9'
}

pub open spec fn digit_value(c: char) -> int {
    c as u32 - '0' as u32
}

/// End of the longest digit run starting at `i`.
pub open spec fn digit_run_end(s: Seq<char>, i: int) -> int
    decreases s.len() - i,
{
    if 0 <= i < s.len() && is_digit(s[i]) {
        digit_run_end(s, i + 1)
    } else {
        i
    }
}

/// Decimal value of the digits `s[i..j]`.
pub open spec fn digits_value(s: Seq<char>, i: int, j: int) -> int
    decreases j - i,
{
    if j <= i {
        0
    } else {
        10 * digits_value(s, i, j - 1) + digit_value(s[j - 1])
    }
}

/// A run of one or more digits whose value fits an `i64`.
pub open spec fn int_digits(s: Seq<char>, i: int) -> Option<(i64, int)> {
    let j = digit_run_end(s, i);
    if j > i && digits_value(s, i, j) <= i64::MAX {
        Some((digits_value(s, i, j) as i64, j))
    } else {
        None
    }
}

/// One or two digits, taking two when there are.
pub open spec fn two_digits(s: Seq<char>, i: int) -> Option<(u8, int)> {
    if 0 <= i < s.len() && is_digit(s[i]) {
        if i + 1 < s.len() && is_digit(s[i + 1]) {
            Some(((10 * digit_value(s[i]) + digit_value(s[i + 1])) as u8, i + 2))
        } else {
            Some((digit_value(s[i]) as u8, i + 1))
        }
    } else {
        None
    }
}

/// Exactly four digits.
pub open spec fn four_digits(s: Seq<char>, i: int) -> Option<(u16, int)> {
    if 0 <= i && i + 4 <= s.len() && is_digit(s[i]) && is_digit(s[i + 1]) && is_digit(s[i + 2])
        && is_digit(s[i + 3]) {
        Some((digits_value(s, i, i + 4) as u16, i + 4))
    } else {
        None
    }
}

/// A fraction of a second: one or more digits, of which the first nine give
/// nanoseconds.
pub open spec fn fraction_digits(s: Seq<char>, i: int) -> Option<(u32, int)> {
    let j = digit_run_end(s, i);
    let k = if j - i > 9 { 9 } else { j - i };
    if j > i {
        Some(((digits_value(s, i, i + k) * pow10((9 - k) as nat)) as u32, j))
    } else {
        None
    }
}

pub proof fn lemma_digit_run(s: Seq<char>, i: int)
    requires
        0 <= i <= s.len(),
    ensures
        i <= digit_run_end(s, i) <= s.len(),
        forall|k: int| i <= k < digit_run_end(s, i) ==> is_digit(#[trigger] s[k]),
    decreases s.len() - i,
{
    if 0 <= i < s.len() && is_digit(s[i]) {
        lemma_digit_run(s, i + 1);
    }
}

pub proof fn lemma_digits_value_bounds(s: Seq<char>, i: int, j: int)
    requires
        i <= j,
        forall|k: int| i <= k < j ==> is_digit(#[trigger] s[k]),
    ensures
        0 <= digits_value(s, i, j) < pow10((j - i) as nat),
    decreases j - i,
{
    if j > i {
        lemma_digits_value_bounds(s, i, j - 1);
        assert(pow10((j - i) as nat) == 10 * pow10((j - 1 - i) as nat));
    }
}

fn digit_run_end_exec(s: &[char], i: usize) -> (r: usize)
    requires
        i <= s@.len(),
    ensures
        r as int == digit_run_end(s@, i as int),
        i <= r <= s@.len(),
{
    let mut j = i;
    while j < s.len() && '0' <= s[j] && s[j] <= '9'
        invariant
            i <= j <= s@.len(),
            digit_run_end(s@, j as int) == digit_run_end(s@, i as int),
        decreases s@.len() - j,
    {
        j = j + 1;
    }
    j
}

/// Value of the digits `s[i..j]`, or `None` when it exceeds `i64::MAX`.
fn digits_value_exec(s: &[char], i: usize, j: usize) -> (r: Option<i64>)
    requires
        i <= j <= s@.len(),
        forall|k: int| i <= k < j ==> is_digit(#[trigger] s@[k]),
    ensures
        match r {
            Some(v) => v as int == digits_value(s@, i as int, j as int),
            None => digits_value(s@, i as int, j as int) > i64::MAX,
        },
{
    let mut v: i64 = 0;
    let mut k = i;
    let mut too_big = false;
    while k < j
        invariant
            i <= k <= j,
            j <= s@.len(),
            forall|q: int| i <= q < j ==> is_digit(#[trigger] s@[q]),
            !too_big ==> v as int == digits_value(s@, i as int, k as int),
            too_big ==> digits_value(s@, i as int, k as int) > i64::MAX,
            0 <= v,
        decreases j - k,
    {
        assert(is_digit(s@[k as int]));
        let d = (s[k] as u32 - '0' as u32) as i64;
        if !too_big {
            if v > (i64::MAX - d) / 10 {
                too_big = true;
            } else {
                v = 10 * v + d;
            }
        }
        k = k + 1;
    }
    if too_big {
        None
    } else {
        Some(v)
    }
}

pub fn int_digits_exec(s: &[char], i: usize) -> (r: Option<(i64, usize)>)
    requires
        i <= s@.len(),
    ensures
        lift(r) == int_digits(s@, i as int),
        r matches Some((_, j)) ==> i <= j <= s@.len(),
{
    let j = digit_run_end_exec(s, i);
    proof {
        lemma_digit_run(s@, i as int);
    }
    if j > i {
        match digits_value_exec(s, i, j) {
            Some(v) => Some((v, j)),
            None => None,
        }
    } else {
        None
    }
}

pub fn two_digits_exec(s: &[char], i: usize) -> (r: Option<(u8, usize)>)
    requires
        i <= s@.len(),
    ensures
        lift(r) == two_digits(s@, i as int),
        r matches Some((_, j)) ==> i <= j <= s@.len(),
{
    if i < s.len() && '0' <= s[i] && s[i] <= '9' {
        let d0 = (s[i] as u32 - '0' as u32) as u8;
        if i + 1 < s.len() && '0' <= s[i + 1] && s[i + 1] <= '9' {
            let d1 = (s[i + 1] as u32 - '0' as u32) as u8;
            Some((10 * d0 + d1, i + 2))
        } else {
            Some((d0, i + 1))
        }
    } else {
        None
    }
}

pub fn four_digits_exec(s: &[char], i: usize) -> (r: Option<(u16, usize)>)
    requires
        i <= s@.len(),
    ensures
        lift(r) == four_digits(s@, i as int),
        r matches Some((_, j)) ==> i <= j <= s@.len(),
{
    if s.len() >= 4 && i <= s.len() - 4 && '0' <= s[i] && s[i] <= '9' && '0' <= s[i + 1] && s[i + 1] <= '9' && '0'
        <= s[i + 2] && s[i + 2] <= '9' && '0' <= s[i + 3] && s[i + 3] <= '9' {
        let v = (s[i] as u32 - '0' as u32) * 1000 + (s[i + 1] as u32 - '0' as u32) * 100 + (s[i
            + 2] as u32 - '0' as u32) * 10 + (s[i + 3] as u32 - '0' as u32);
        proof {
            reveal_with_fuel(digits_value, 5);
        }
        Some((v as u16, i + 4))
    } else {
        None
    }
}

pub fn fraction_digits_exec(s: &[char], i: usize) -> (r: Option<(u32, usize)>)
    requires
        i <= s@.len(),
    ensures
        lift(r) == fraction_digits(s@, i as int),
        r matches Some((_, j)) ==> i <= j <= s@.len(),
{
    let j = digit_run_end_exec(s, i);
    proof {
        lemma_digit_run(s@, i as int);
    }
    if j == i {
        return None;
    }
    let k: usize = if j - i > 9 {
        9
    } else {
        j - i
    };
    let mut v: u64 = 0;
    let mut q: usize = 0;
    while q < k
        invariant
            0 <= q <= k <= 9,
            i + k <= j <= s@.len(),
            forall|p: int| i <= p < j ==> is_digit(#[trigger] s@[p]),
            v as int == digits_value(s@, i as int, (i + q) as int),
            v < pow10(q as nat),
            pow10(q as nat) <= 1_000_000_000,
        decreases k - q,
    {
        assert(is_digit(s@[(i + q) as int]));
        assert(pow10((q + 1) as nat) == 10 * pow10(q as nat));
        proof {
            reveal_with_fuel(pow10, 10);
        }
        v = 10 * v + (s[i + q] as u32 - '0' as u32) as u64;
        q = q + 1;
    }
    let scale = pow10_exec(9 - k);
    proof {
        lemma_pow10_add(k as nat, (9 - k) as nat);
        reveal_with_fuel(pow10, 10);
        vstd::arithmetic::mul::lemma_mul_strict_inequality(
            v as int,
            pow10(k as nat) as int,
            scale as int,
        );
    }
    Some(((v * scale) as u32, j))
}

pub proof fn lemma_pow10_add(a: nat, b: nat)
    ensures
        pow10(a) * pow10(b) == pow10(a + b),
        pow10(a) >= 1,
    decreases a,
{
    if a > 0 {
        lemma_pow10_add((a - 1) as nat, b);
        let x = pow10((a - 1) as nat);
        let y = pow10(b);
        let a1 = (a - 1) as nat;
        assert(pow10(a) == 10 * x);
        assert(pow10(a + b) == 10 * pow10(a1 + b));
        assert(x * y == pow10(a1 + b));
        assert((10 * x) * y == 10 * (x * y)) by (nonlinear_arith);
        assert(pow10(a) * pow10(b) == (10 * x) * y);
    } else {
        assert(pow10(a) == 1);
        assert(pow10(a) * pow10(b) == pow10(b));
    }
}

fn pow10_exec(k: usize) -> (r: u64)
    requires
        k <= 9,
    ensures
        r as int == pow10(k as nat),
        r >= 1,
{
    proof {
        reveal_with_fuel(pow10, 10);
    }
    if k == 0 {
        1
    } else if k == 1 {
        10
    } else if k == 2 {
        100
    } else if k == 3 {
        1000
    } else if k == 4 {
        10_000
    } else if k == 5 {
        100_000
    } else if k == 6 {
        1_000_000
    } else if k == 7 {
        10_000_000
    } else if k == 8 {
        100_000_000
    } else {
        1_000_000_000
    }
}

/// A literal whose first character differs from the input's is not there.
pub proof fn lemma_first_char_mismatch(s: Seq<char>, i: int, l: Seq<char>, caseless: bool)
    requires
        0 <= i < s.len(),
        l.len() > 0,
        !char_matches(s[i], l[0], caseless),
    ensures
        !lit_at(s, i, l, caseless),
{
    assert(!char_matches(s[i + 0], l[0], caseless));
}

/// A match of a recogniser ends on a character other than `!`.
pub open spec fn no_bang_end<T>(s: Seq<char>, r: Option<(T, int)>) -> bool {
    r matches Some((_, j)) ==> 0 < j <= s.len() && s[j - 1] != '!'
}

/// A literal that does not end in `!` is never matched ending on a `!`.
pub proof fn lemma_lit_end(s: Seq<char>, l: Seq<char>, caseless: bool)
    requires
        l.len() > 0,
        l[l.len() - 1] != '!',
    ensures
        forall|i: int| #[trigger] lit_at(s, i, l, caseless) ==> s[i + l.len() - 1] != '!',
{
    assert forall|i: int| #[trigger] lit_at(s, i, l, caseless) implies s[i + l.len() - 1] != '!' by {
        assert(char_matches(s[i + (l.len() - 1)], l[l.len() - 1], caseless));
    }
}

/// Digit fields end on a digit.
pub proof fn lemma_digits_end(s: Seq<char>)
    ensures
        forall|i: int| no_bang_end(s, #[trigger] two_digits(s, i)),
        forall|i: int| no_bang_end(s, #[trigger] four_digits(s, i)),
        forall|i: int| no_bang_end(s, #[trigger] int_digits(s, i)),
        forall|i: int| no_bang_end(s, #[trigger] fraction_digits(s, i)),
{
    assert forall|i: int| no_bang_end(s, #[trigger] int_digits(s, i)) by {
        if 0 <= i <= s.len() {
            lemma_digit_run(s, i);
        }
    }
    assert forall|i: int| no_bang_end(s, #[trigger] fraction_digits(s, i)) by {
        if 0 <= i <= s.len() {
            lemma_digit_run(s, i);
        }
    }
}

/// A whitespace run stops at the first character that is not whitespace.
pub proof fn lemma_skip_blank_stops(s: Seq<char>, j: int, p: int, multi: bool)
    requires
        0 <= j <= p < s.len(),
        !is_blank(s[p], multi),
    ensures
        skip_blank(s, j, multi) <= p,
    decreases p - j,
{
    if j < p && is_blank(s[j], multi) {
        lemma_skip_blank_stops(s, j + 1, p, multi);
    }
}

} // verus!
