//! Exact fixed-point amounts and their decimal rendering.
//!
//! Amounts are stored as signed integers counted in ten-thousandths of a
//! currency unit and rendered with exactly four fractional digits, so the
//! value `80_000` prints as `8.0000`.

use vstd::prelude::*;
use vstd::string::StringExecFns;

verus! {

/// Whether a mathematical amount is exactly representable as a fixed-point
/// `i64`.
pub open spec fn fits_amount(v: int) -> bool {
    i64::MIN <= v <= i64::MAX
}

/// Exact addition of two fixed-point amounts; `None` when the sum would not
/// be representable.
pub fn add_in_range(a: i64, b: i64) -> (r: Option<i64>)
    ensures
        (match r {
            Some(s) => s == a + b,
            None => !fits_amount(a + b),
        }),
{
    let s: i128 = a as i128 + b as i128;
    if s < i64::MIN as i128 || s > i64::MAX as i128 {
        None
    } else {
        Some(s as i64)
    }
}

/// Exact subtraction of two fixed-point amounts; `None` when the difference
/// would not be representable.
pub fn sub_in_range(a: i64, b: i64) -> (r: Option<i64>)
    ensures
        (match r {
            Some(s) => s == a - b,
            None => !fits_amount(a - b),
        }),
{
    let s: i128 = a as i128 - b as i128;
    if s < i64::MIN as i128 || s > i64::MAX as i128 {
        None
    } else {
        Some(s as i64)
    }
}

/// The character for one decimal digit.
pub open spec fn digit_char(d: int) -> char {
    if d == 0 {
        '0'
    } else if d == 1 {
        '1'
    } else if d == 2 {
        '2'
    } else if d == 3 {
        '3'
    } else if d == 4 {
        '4'
    } else if d == 5 {
        '5'
    } else if d == 6 {
        '6'
    } else if d == 7 {
        '7'
    } else if d == 8 {
        '8'
    } else {
        '9'
    }
}

/// The decimal digits of `n`, most significant first, with no leading zeros
/// except for `n == 0`, which is the single character `0`.
pub open spec fn dec_digits(n: nat) -> Seq<char>
    decreases n,
{
    if n < 10 {
        seq![digit_char(n as int)]
    } else {
        dec_digits(n / 10).push(digit_char((n % 10) as int))
    }
}

/// Exactly four fractional digits for `f`, which callers keep below 10000.
pub open spec fn frac4_chars(f: int) -> Seq<char> {
    seq![
        digit_char(f / 1000 % 10),
        digit_char(f / 100 % 10),
        digit_char(f / 10 % 10),
        digit_char(f % 10),
    ]
}

/// The decimal rendering of the fixed-point value `v` (in ten-thousandths):
/// an optional minus sign, the whole units, a point, and exactly four
/// fractional digits.
pub open spec fn fixed_point_chars(v: int) -> Seq<char> {
    let m = if v < 0 {
        -v
    } else {
        v
    };
    let sign: Seq<char> = if v < 0 {
        seq!['-']
    } else {
        Seq::<char>::empty()
    };
    sign + dec_digits((m / 10000) as nat) + seq!['.'] + frac4_chars(m % 10000)
}

/// Appends the single digit `d` to `s`.
fn append_digit(s: &mut String, d: u64)
    requires
        d < 10,
    ensures
        final(s)@ == old(s)@ + seq![digit_char(d as int)],
{
    proof {
        reveal_strlit("0");
        reveal_strlit("1");
        reveal_strlit("2");
        reveal_strlit("3");
        reveal_strlit("4");
        reveal_strlit("5");
        reveal_strlit("6");
        reveal_strlit("7");
        reveal_strlit("8");
        reveal_strlit("9");
    }
    if d == 0 {
        s.append("0");
    } else if d == 1 {
        s.append("1");
    } else if d == 2 {
        s.append("2");
    } else if d == 3 {
        s.append("3");
    } else if d == 4 {
        s.append("4");
    } else if d == 5 {
        s.append("5");
    } else if d == 6 {
        s.append("6");
    } else if d == 7 {
        s.append("7");
    } else if d == 8 {
        s.append("8");
    } else {
        s.append("9");
    }
    proof {
        assert(s@ =~= old(s)@ + seq![digit_char(d as int)]);
    }
}

/// Appends all decimal digits of `n` to `s`, most significant first.
fn append_dec_digits(s: &mut String, n: u64)
    ensures
        final(s)@ == old(s)@ + dec_digits(n as nat),
    decreases n,
{
    if n >= 10 {
        append_dec_digits(s, n / 10);
    }
    append_digit(s, n % 10);
    proof {
        assert(s@ =~= old(s)@ + dec_digits(n as nat));
    }
}

/// Renders an unsigned number in decimal, as client identifiers are printed.
pub fn format_u64(n: u64) -> (s: String)
    ensures
        s@ == dec_digits(n as nat),
{
    let mut s = String::new();
    append_dec_digits(&mut s, n);
    proof {
        assert(s@ =~= dec_digits(n as nat));
    }
    s
}

/// Renders the fixed-point value `v` with exactly four fractional digits.
pub fn format_fixed(v: i64) -> (s: String)
    ensures
        s@ == fixed_point_chars(v as int),
{
    let mut s = String::new();
    if v < 0 {
        proof {
            reveal_strlit("-");
        }
        s.append("-");
    }
    let mag: u64 = if v >= 0 {
        v as u64
    } else {
        ((-1 - v) as u64) + 1
    };
    let units = mag / 10000;
    let frac = mag % 10000;
    append_dec_digits(&mut s, units);
    proof {
        reveal_strlit(".");
    }
    s.append(".");
    append_digit(&mut s, frac / 1000);
    append_digit(&mut s, (frac / 100) % 10);
    append_digit(&mut s, (frac / 10) % 10);
    append_digit(&mut s, frac % 10);
    proof {
        assert(s@ =~= fixed_point_chars(v as int));
    }
    s
}

} // verus!
