//! Verified decimal rendering: whole numbers, fixed-point tenths and
//! hundredths, and the abbreviated counter formats of the status line.
//!
//! Percentages in this library are integers in tenths of a percent and load
//! averages are integers in hundredths, so every human-readable line is a
//! function of plain integers.  Rounding is half-up throughout.

use vstd::prelude::*;

verus! {

/// The decimal digit character for `d` (`d < 10`).
pub open spec fn digit_char(d: nat) -> char {
    if d == 0 {
        '0'
    } else if d == 1 {
        '1'
    } else if d == 2 {
        '2'
    } else if d == 3 {
        '3'
    } else if d == 4 {
        '4'
    } else if d == 5 {
        '5'
    } else if d == 6 {
        '6'
    } else if d == 7 {
        '7'
    } else if d == 8 {
        '8'
    } else {
        '9'
    }
}

/// The ordinary decimal rendering of `n`, with no leading zeros except for
/// `n == 0` itself.
pub open spec fn dec_digits(n: nat) -> Seq<char>
    decreases n,
{
    if n < 10 {
        seq![digit_char(n)]
    } else {
        dec_digits(n / 10).push(digit_char(n % 10))
    }
}

/// The rendering of a value counted in tenths: the whole part, a point, one
/// fractional digit (`851` renders as `85.1`).
pub open spec fn tenths_text(v: nat) -> Seq<char> {
    dec_digits(v / 10) + seq!['.', digit_char(v % 10)]
}

/// The rendering of a value counted in hundredths: the whole part, a point,
/// two fractional digits (`52` renders as `0.52`).
pub open spec fn hundredths_text(v: nat) -> Seq<char> {
    dec_digits(v / 100) + seq!['.', digit_char(v / 10 % 10), digit_char(v % 10)]
}

/// A value counted in tenths, rounded half-up to a whole number.
pub open spec fn tenths_rounded(v: nat) -> nat {
    (v + 5) / 10
}

/// A one-character string slice holding the digit for `d`.
fn digit_str(d: u64) -> (r: &'static str)
    requires
        d < 10,
    ensures
        r@ == seq![digit_char(d as nat)],
{
    let r: &'static str = if d == 0 {
        "0"
    } else if d == 1 {
        "1"
    } else if d == 2 {
        "2"
    } else if d == 3 {
        "3"
    } else if d == 4 {
        "4"
    } else if d == 5 {
        "5"
    } else if d == 6 {
        "6"
    } else if d == 7 {
        "7"
    } else if d == 8 {
        "8"
    } else {
        "9"
    };
    proof {
        reveal_strlit("0");
        reveal_strlit("1");
        reveal_strlit("2");
        reveal_strlit("3");
        reveal_strlit("4");
        reveal_strlit("5");
        reveal_strlit("6");
        reveal_strlit("7");
        reveal_strlit("8");
        reveal_strlit("9");
        assert(r@ =~= seq![digit_char(d as nat)]);
    }
    r
}

/// Renders `n` in ordinary decimal.
pub fn u64_text(n: u64) -> (s: String)
    ensures
        s@ == dec_digits(n as nat),
    decreases n,
{
    if n < 10 {
        let mut s = String::new();
        s.append(digit_str(n));
        proof {
            assert(s@ =~= dec_digits(n as nat));
        }
        s
    } else {
        let mut s = u64_text(n / 10);
        s.append(digit_str(n % 10));
        proof {
            assert(s@ =~= dec_digits(n as nat));
        }
        s
    }
}

/// Renders a value counted in tenths with one fractional digit.
pub fn tenths_string(v: u64) -> (s: String)
    ensures
        s@ == tenths_text(v as nat),
{
    let mut s = u64_text(v / 10);
    s.append(".");
    s.append(digit_str(v % 10));
    proof {
        reveal_strlit(".");
        assert(s@ =~= tenths_text(v as nat));
    }
    s
}

/// Renders a value counted in hundredths with two fractional digits.
pub fn hundredths_string(v: u64) -> (s: String)
    ensures
        s@ == hundredths_text(v as nat),
{
    let mut s = u64_text(v / 100);
    s.append(".");
    s.append(digit_str(v / 10 % 10));
    s.append(digit_str(v % 10));
    proof {
        reveal_strlit(".");
        assert(s@ =~= hundredths_text(v as nat));
    }
    s
}

/// Renders a value counted in tenths rounded half-up to a whole number.
pub fn tenths_rounded_string(v: u64) -> (s: String)
    ensures
        s@ == dec_digits(tenths_rounded(v as nat)),
{
    let w: u128 = (v as u128 + 5) / 10;
    u64_text(w as u64)
}

} // verus!
