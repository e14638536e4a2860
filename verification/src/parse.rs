//! Parsing the plain decimal fields of the host's counter readings.
//!
//! The process shell splits a reading into tokens; the numeric content of a
//! token — a whole counter, or the two-decimal fixed-point load average — is
//! decided here.

use vstd::prelude::*;

verus! {

/// Whether `b` is an ASCII decimal digit.
pub open spec fn is_digit_byte(b: u8) -> bool {
    48 <= b <= 57
}

/// Whether every byte of `s` is an ASCII decimal digit.
pub open spec fn all_digits(s: Seq<u8>) -> bool {
    forall|i: int| 0 <= i < s.len() ==> is_digit_byte(#[trigger] s[i])
}

/// The number a digit string denotes, most significant digit first.
pub open spec fn decimal_value(s: Seq<u8>) -> nat
    decreases s.len(),
{
    if s.len() == 0 {
        0
    } else {
        decimal_value(s.drop_last()) * 10 + (s.last() - 48) as nat
    }
}

/// A longer digit prefix never denotes a smaller number.
proof fn lemma_decimal_prefix_monotone(s: Seq<u8>, i: int)
    requires
        0 <= i <= s.len(),
        all_digits(s),
    ensures
        decimal_value(s.take(i)) <= decimal_value(s),
    decreases s.len() - i,
{
    if i < s.len() {
        assert(s.take(i + 1).drop_last() =~= s.take(i));
        assert(s.take(i + 1).last() == s[i]);
        lemma_decimal_prefix_monotone(s, i + 1);
    } else {
        assert(s.take(i) =~= s);
    }
}

/// Parses a whole decimal number.  Yields a value exactly for a non-empty
/// all-digit token whose value fits; the value is the token's.
pub fn parse_u64(s: &[u8]) -> (r: Option<u64>)
    ensures
        r is Some <==> (s@.len() > 0 && all_digits(s@) && decimal_value(s@) <= u64::MAX),
        r matches Some(v) ==> v == decimal_value(s@),
{
    if s.len() == 0 {
        return Option::None;
    }
    let mut acc: u64 = 0;
    let mut i: usize = 0;
    while i < s.len()
        invariant
            0 <= i <= s@.len(),
            all_digits(s@.take(i as int)),
            acc == decimal_value(s@.take(i as int)),
        decreases s@.len() - i,
    {
        let b = s[i];
        proof {
            assert(s@.take(i as int + 1).drop_last() =~= s@.take(i as int));
            assert(s@.take(i as int + 1).last() == s@[i as int]);
        }
        if b < 48 || b > 57 {
            proof {
                assert(!is_digit_byte(s@[i as int]));
            }
            return Option::None;
        }
        let d = (b - 48) as u64;
        let shifted = match acc.checked_mul(10) {
            Option::Some(v) => v,
            Option::None => {
                proof {
                    if all_digits(s@) {
                        lemma_decimal_prefix_monotone(s@, i as int + 1);
                    }
                }
                return Option::None;
            },
        };
        acc = match shifted.checked_add(d) {
            Option::Some(v) => v,
            Option::None => {
                proof {
                    if all_digits(s@) {
                        lemma_decimal_prefix_monotone(s@, i as int + 1);
                    }
                }
                return Option::None;
            },
        };
        i = i + 1;
    }
    proof {
        assert(s@.take(s@.len() as int) =~= s@);
    }
    Option::Some(acc)
}

/// Combines the two halves of a two-decimal fixed-point token (`0.52` comes
/// in as whole `0` and fraction `52`) into hundredths.  Yields a value
/// exactly when the fraction has two digits' worth and the result fits.
pub fn fixed2_hundredths(whole: u64, frac_two: u64) -> (r: Option<u64>)
    ensures
        r is Some <==> (frac_two < 100 && whole * 100 + frac_two <= u64::MAX),
        r matches Some(v) ==> v == whole * 100 + frac_two,
{
    if frac_two >= 100 {
        return Option::None;
    }
    match whole.checked_mul(100) {
        Option::Some(w) => w.checked_add(frac_two),
        Option::None => Option::None,
    }
}

} // verus!
