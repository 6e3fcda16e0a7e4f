//! Decimal amounts: an exact fixed-point representation of a decimal
//! numeral, a verified parser for it, and the lenient entry point that
//! substitutes zero for unparsable text.

use vstd::prelude::*;
use crate::dates::digit_value;
use crate::dates::is_digit;

verus! {

/// An exactly represented decimal numeral: the value is
/// `units.frac`, with `frac` written with `frac_digits` digits, and
/// negated when `negative` holds.
#[derive(Clone, Copy, PartialEq, Eq, Structural, Debug)]
pub struct Amount {
    pub negative: bool,
    pub units: u32,
    pub frac: u32,
    pub frac_digits: u32,
}

impl Amount {
    /// The documented fallback for unparsable amount text: zero.
    pub open spec fn spec_zero() -> Amount {
        Amount { negative: false, units: 0, frac: 0, frac_digits: 0 }
    }

    /// The zero amount.
    pub fn zero() -> (a: Amount)
        ensures
            a == Amount::spec_zero(),
    {
        Amount { negative: false, units: 0, frac: 0, frac_digits: 0 }
    }
}

/// Ten to the power `n` (and 1 for negative `n`).
pub open spec fn pow10(n: int) -> int
    decreases n,
{
    if n <= 0 {
        1
    } else {
        10 * pow10(n - 1)
    }
}

proof fn lemma_pow10_pos(n: int)
    requires
        n >= 0,
    ensures
        pow10(n) >= 1,
    decreases n,
{
    if n > 0 {
        lemma_pow10_pos(n - 1);
    }
}

proof fn lemma_pow10_mono(a: int, b: int)
    requires
        0 <= a <= b,
    ensures
        pow10(a) <= pow10(b),
    decreases b - a,
{
    if a < b {
        lemma_pow10_mono(a, b - 1);
        lemma_pow10_pos(b - 1);
    }
}

proof fn lemma_pow10_eight()
    ensures
        pow10(8) == 100000000,
{
    reveal_with_fuel(pow10, 10);
}

/// Whether every character of `s` is an ASCII decimal digit.
pub open spec fn all_digits(s: Seq<char>) -> bool {
    forall|i: int| 0 <= i < s.len() ==> is_digit(#[trigger] s[i])
}

/// The number written by a sequence of decimal digits.
pub open spec fn digits_value(s: Seq<char>) -> int
    decreases s.len(),
{
    if s.len() == 0 {
        0
    } else {
        10 * digits_value(s.drop_last()) + digit_value(s.last())
    }
}

/// The value of a digit run admitted by the amount grammar: one to
/// nine decimal digits and nothing else.
pub open spec fn digits_to_value(s: Seq<char>) -> Option<int> {
    if 1 <= s.len() <= 9 && all_digits(s) {
        Some(digits_value(s))
    } else {
        None
    }
}

/// The position of the first `.` in `s`, or `-1` when there is none.
pub open spec fn find_dot(s: Seq<char>) -> int
    decreases s.len(),
{
    if s.len() == 0 {
        -1
    } else if s[0] == '.' {
        0
    } else if find_dot(s.subrange(1, s.len() as int)) < 0 {
        -1
    } else {
        1 + find_dot(s.subrange(1, s.len() as int))
    }
}

/// The amount written by `s` under the library's decimal grammar: an
/// optional leading minus sign, one to nine integer digits, and
/// optionally a point followed by one to nine fraction digits.  Any
/// other text carries no amount.
pub open spec fn spec_parse_amount(s: Seq<char>) -> Option<Amount> {
    let neg = s.len() > 0 && s[0] == '-';
    let b = if neg {
        s.subrange(1, s.len() as int)
    } else {
        s
    };
    let k = find_dot(b);
    if k < 0 {
        match digits_to_value(b) {
            Some(u) => Some(Amount { negative: neg, units: u as u32, frac: 0, frac_digits: 0 }),
            None => None,
        }
    } else {
        match (digits_to_value(b.subrange(0, k)), digits_to_value(
            b.subrange(k + 1, b.len() as int),
        )) {
            (Some(u), Some(f)) => Some(
                Amount {
                    negative: neg,
                    units: u as u32,
                    frac: f as u32,
                    frac_digits: (b.len() - k - 1) as u32,
                },
            ),
            _ => None,
        }
    }
}

/// Reads the digit run `s[from..to]`, or fails when the run is empty,
/// longer than nine digits, or holds a non-digit.
fn parse_digit_run(s: &str, from: usize, to: usize) -> (r: Option<u32>)
    requires
        from <= to <= s@.len(),
    ensures
        match r {
            Some(v) => digits_to_value(s@.subrange(from as int, to as int)) == Some(v as int),
            None => digits_to_value(s@.subrange(from as int, to as int)) is None,
        },
{
    if to - from == 0 || to - from > 9 {
        return None;
    }
    let mut v: u32 = 0;
    let mut j: usize = from;
    proof {
        assert(s@.subrange(from as int, from as int) =~= Seq::<char>::empty());
    }
    while j < to
        invariant
            from <= j <= to,
            to <= s@.len(),
            to - from <= 9,
            all_digits(s@.subrange(from as int, j as int)),
            v as int == digits_value(s@.subrange(from as int, j as int)),
            v < pow10(j - from),
        decreases to - j,
    {
        let ghost prefix = s@.subrange(from as int, j as int);
        let c = s.get_char(j);
        proof {
            assert(s@.subrange(from as int, j + 1).drop_last() =~= prefix);
            assert(s@.subrange(from as int, j + 1).last() == s@[j as int]);
            assert(s@.subrange(from as int, to as int)[j - from] == s@[j as int]);
        }
        match crate::dates::digit_of(c) {
            Some(d) => {
                proof {
                    lemma_pow10_mono(j - from, 8);
                    lemma_pow10_eight();
                }
                v = 10 * v + d;
            },
            None => {
                return None;
            },
        }
        j = j + 1;
    }
    Some(v)
}

/// Finds the first `.` in `s[from..to]`.
fn find_dot_from(s: &str, from: usize, to: usize) -> (r: Option<usize>)
    requires
        from <= to <= s@.len(),
    ensures
        match r {
            Some(k) => from <= k < to && find_dot(s@.subrange(from as int, to as int)) == k - from,
            None => find_dot(s@.subrange(from as int, to as int)) < 0,
        },
{
    let ghost t = s@.subrange(from as int, to as int);
    let mut j: usize = from;
    while j < to
        invariant
            from <= j <= to,
            to <= s@.len(),
            t == s@.subrange(from as int, to as int),
            (find_dot(t) < 0 <==> find_dot(s@.subrange(j as int, to as int)) < 0),
            find_dot(s@.subrange(j as int, to as int)) >= 0 ==> find_dot(t) == j - from + find_dot(
                s@.subrange(j as int, to as int),
            ),
        decreases to - j,
    {
        let ghost rest = s@.subrange(j as int, to as int);
        let c = s.get_char(j);
        proof {
            assert(rest[0] == s@[j as int]);
            assert(rest.subrange(1, rest.len() as int) =~= s@.subrange(j + 1, to as int));
        }
        if c == '.' {
            return Some(j);
        }
        j = j + 1;
    }
    proof {
        assert(s@.subrange(to as int, to as int).len() == 0);
    }
    None
}

/// Parses amount text under the decimal grammar; text outside the
/// grammar carries no amount.
pub fn parse_amount(s: &str) -> (r: Option<Amount>)
    ensures
        r == spec_parse_amount(s@),
{
    let n = s.unicode_len();
    let mut i0: usize = 0;
    let mut neg: bool = false;
    if n > 0 && s.get_char(0) == '-' {
        i0 = 1;
        neg = true;
    }
    let ghost b = s@.subrange(i0 as int, n as int);
    proof {
        if !neg {
            assert(b =~= s@);
        }
    }
    match find_dot_from(s, i0, n) {
        None => {
            match parse_digit_run(s, i0, n) {
                Some(u) => Some(
                    Amount { negative: neg, units: u, frac: 0, frac_digits: 0 },
                ),
                None => None,
            }
        },
        Some(k) => {
            proof {
                assert(b.subrange(0, k - i0) =~= s@.subrange(i0 as int, k as int));
                assert(b.subrange(k - i0 + 1, b.len() as int) =~= s@.subrange(k + 1, n as int));
            }
            let units = match parse_digit_run(s, i0, k) {
                Some(u) => u,
                None => {
                    return None;
                },
            };
            let frac = match parse_digit_run(s, k + 1, n) {
                Some(f) => f,
                None => {
                    return None;
                },
            };
            Some(Amount { negative: neg, units, frac, frac_digits: (n - k - 1) as u32 })
        },
    }
}

/// The amount that lenient parsing yields: the parsed amount, or zero
/// for text outside the grammar.
pub open spec fn spec_amount_or_zero(s: Seq<char>) -> Amount {
    match spec_parse_amount(s) {
        Some(a) => a,
        None => Amount::spec_zero(),
    }
}

/// Parses amount text, falling back to the documented default of zero
/// on any text outside the grammar.  Total: every input yields an
/// amount.
pub fn amount_or_zero(s: &str) -> (a: Amount)
    ensures
        a == spec_amount_or_zero(s@),
{
    match parse_amount(s) {
        Some(a) => a,
        None => Amount::zero(),
    }
}

} // verus!
