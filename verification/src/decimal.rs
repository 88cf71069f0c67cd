//! Decimal text and fixed-point values: reading `123.456` as a whole number
//! of units of a given precision, and scaling by powers of ten.

use vstd::prelude::*;
use vstd::string::*;

verus! {

/// Why an amount could not be turned into a unit price.
#[derive(Clone, Copy, Debug, PartialEq, Eq, Structural)]
pub enum ConversionFailure {
    /// The text is not digits, one point, digits.
    Malformed,
    /// The value does not fit in 128 bits.
    Overflow,
    /// The precision asked for is beyond what amounts can be formatted at.
    UnsupportedPrecision,
    /// The input amount of the trade is zero, so no unit price exists.
    ZeroInput,
}

/// Ten to the power `n`.
pub open spec fn pow10(n: nat) -> nat
    decreases n,
{
    if n == 0 {
        1
    } else {
        10 * pow10((n - 1) as nat)
    }
}

/// Whether `c` is one of `0` to `9`.
pub open spec fn is_digit(c: char) -> bool {
    '0' <= c && c <= '9'
}

/// The number that the digit `c` stands for.
pub open spec fn digit_value(c: char) -> nat {
    (c as u32 - '0' as u32) as nat
}

/// The number that a sequence of decimal digits writes, most significant
/// first; the empty sequence writes zero.
pub open spec fn digits_value(s: Seq<char>) -> nat
    decreases s.len(),
{
    if s.len() == 0 {
        0
    } else {
        digits_value(s.drop_last()) * 10 + digit_value(s.last())
    }
}

/// `s` is a decimal number with its point at index `p`: at least one digit
/// before the point, and nothing but digits elsewhere.
pub open spec fn point_at(s: Seq<char>, p: int) -> bool {
    &&& 0 < p < s.len()
    &&& s[p] == '.'
    &&& forall|j: int| 0 <= j < s.len() && j != p ==> is_digit(#[trigger] s[j])
}

/// Whether `s` is a decimal number: digits, a point, digits.
pub open spec fn is_decimal(s: Seq<char>) -> bool {
    exists|p: int| point_at(s, p)
}

/// The index of the point of a decimal number.
pub open spec fn point_of(s: Seq<char>) -> int {
    choose|p: int| point_at(s, p)
}

/// The digits of `s` that count at a precision of `decimals` places: those
/// before the point at `p`, and at most `decimals` of those after it, as far
/// as index `upto`.
pub open spec fn kept_digits(s: Seq<char>, p: int, decimals: nat, upto: int) -> Seq<char> {
    s.subrange(0, p) + s.subrange(
        p + 1,
        if upto < p + 1 + decimals {
            upto
        } else {
            p + 1 + decimals
        },
    )
}

/// The value of the decimal number `s` in units of `10^-decimals`, with
/// fraction digits beyond that precision cut off.
pub open spec fn decimal_value(s: Seq<char>, decimals: nat) -> nat {
    let p = point_of(s);
    let kept = kept_digits(s, p, decimals, s.len() as int);
    digits_value(kept) * pow10((decimals + p - kept.len()) as nat)
}

/// What parsing `s` at a precision of `decimals` places gives.
pub open spec fn parsed(s: Seq<char>, decimals: nat) -> Result<u128, ConversionFailure> {
    if !is_decimal(s) {
        Err(ConversionFailure::Malformed)
    } else if decimal_value(s, decimals) > u128::MAX {
        Err(ConversionFailure::Overflow)
    } else {
        Ok(decimal_value(s, decimals) as u128)
    }
}

/// A power of ten is at least one.
pub proof fn lemma_pow10_positive(n: nat)
    ensures
        pow10(n) >= 1,
    decreases n,
{
    if n > 0 {
        lemma_pow10_positive((n - 1) as nat);
    }
}

/// Powers of ten grow with the exponent.
pub proof fn lemma_pow10_monotonic(a: nat, b: nat)
    requires
        a <= b,
    ensures
        pow10(a) <= pow10(b),
    decreases b,
{
    if a < b {
        lemma_pow10_monotonic(a, (b - 1) as nat);
    }
}

/// A decimal number has its point in one place only.
pub proof fn lemma_point_unique(s: Seq<char>, p: int)
    requires
        point_at(s, p),
    ensures
        is_decimal(s),
        point_of(s) == p,
{
    let q = point_of(s);
    assert(point_at(s, q));
    if q != p {
        assert(is_digit(s[p]));
    }
}

/// `x * 10^k`, or `None` where that does not fit in 128 bits.
pub fn checked_scale(x: u128, k: u32) -> (r: Option<u128>)
    ensures
        r == (if x * pow10(k as nat) <= u128::MAX {
            Some((x * pow10(k as nat)) as u128)
        } else {
            None
        }),
{
    if x == 0 {
        assert(0 * pow10(k as nat) == 0);
        return Some(0);
    }
    let mut acc: u128 = x;
    let mut j: u32 = 0;
    assert(x * pow10(0) == x) by {
        assert(pow10(0) == 1);
    }
    while j < k
        invariant
            j <= k,
            x > 0,
            acc == x * pow10(j as nat),
        decreases k - j,
    {
        proof {
            lemma_pow10_monotonic((j + 1) as nat, k as nat);
            assert(x * pow10((j + 1) as nat) == 10 * (x * pow10(j as nat))) by (nonlinear_arith)
                requires
                    pow10((j + 1) as nat) == 10 * pow10(j as nat),
            ;
            assert(x * pow10((j + 1) as nat) <= x * pow10(k as nat)) by (nonlinear_arith)
                requires
                    pow10((j + 1) as nat) <= pow10(k as nat),
                    x > 0,
            ;
        }
        if acc > u128::MAX / 10 {
            return None;
        }
        acc = acc * 10;
        j = j + 1;
    }
    Some(acc)
}

/// Reads decimal text as a whole number of units of `10^-decimals`.
///
/// The text must be one or more digits, a point, and any number of digits.
/// Fraction digits beyond the precision are cut off, missing ones count as
/// zeros.
pub fn parse_decimal(text: &str, decimals: u32) -> (r: Result<u128, ConversionFailure>)
    ensures
        r == parsed(text@, decimals as nat),
{
    let n: usize = text.unicode_len();
    let ghost s = text@;
    let mut i: usize = 0;
    let mut point: Option<usize> = None;
    let mut acc: u128 = 0;
    let mut overflow: bool = false;
    let mut fraction_kept: u32 = 0;
    let ghost mut kept: Seq<char> = Seq::empty();
    assert(s.subrange(0, 0) =~= Seq::<char>::empty());
    while i < n
        invariant
            s == text@,
            i <= n,
            n == s.len(),
            point is None ==> fraction_kept == 0 && kept == s.subrange(0, i as int) && forall|j: int|
                0 <= j < i ==> is_digit(#[trigger] s[j]),
            point matches Some(p) ==> 0 < p < i && s[p as int] == '.' && kept == kept_digits(
                s,
                p as int,
                decimals as nat,
                i as int,
            ) && fraction_kept == kept.len() - p && (forall|j: int|
                0 <= j < i && j != p ==> is_digit(#[trigger] s[j])),
            !overflow ==> acc == digits_value(kept),
            overflow ==> digits_value(kept) > u128::MAX,
        decreases n - i,
    {
        let c: char = text.get_char(i);
        if c >= '0' && c <= '9' {
            let keep: bool = match point {
                None => true,
                Some(_) => fraction_kept < decimals,
            };
            if keep {
                let d: u128 = (c as u32 - '0' as u32) as u128;
                proof {
                    assert(kept.push(c).drop_last() =~= kept);
                    assert(digits_value(kept.push(c)) == digits_value(kept) * 10 + digit_value(c));
                    match point {
                        None => {
                            assert(kept.push(c) =~= s.subrange(0, i + 1));
                        },
                        Some(p) => {
                            assert(kept.push(c) =~= kept_digits(
                                s,
                                p as int,
                                decimals as nat,
                                i + 1,
                            ));
                        },
                    }
                    kept = kept.push(c);
                }
                if !overflow {
                    if acc > (u128::MAX - d) / 10 {
                        overflow = true;
                    } else {
                        acc = acc * 10 + d;
                    }
                }
                if point.is_some() {
                    fraction_kept = fraction_kept + 1;
                }
            } else {
                proof {
                    let p = point->Some_0;
                    assert(kept =~= kept_digits(s, p as int, decimals as nat, i + 1));
                }
            }
        } else if c == '.' && point.is_none() && i > 0 {
            point = Some(i);
            proof {
                assert(kept =~= kept_digits(s, i as int, decimals as nat, i + 1));
            }
        } else {
            proof {
                assert forall|q: int| !point_at(s, q) by {
                    if point_at(s, q) {
                        if q != i {
                            assert(is_digit(s[i as int]));
                        } else if point is Some {
                            assert(is_digit(s[point->Some_0 as int]));
                        }
                    }
                }
            }
            return Err(ConversionFailure::Malformed);
        }
        i = i + 1;
    }
    match point {
        None => {
            proof {
                assert forall|q: int| !point_at(s, q) by {
                    if point_at(s, q) {
                        assert(is_digit(s[q]));
                    }
                }
            }
            Err(ConversionFailure::Malformed)
        },
        Some(p) => {
            let missing: u32 = decimals - fraction_kept;
            proof {
                lemma_point_unique(s, p as int);
                lemma_pow10_positive(missing as nat);
                assert(digits_value(kept) * pow10(missing as nat) >= digits_value(kept))
                    by (nonlinear_arith)
                    requires
                        pow10(missing as nat) >= 1,
                ;
            }
            if overflow {
                return Err(ConversionFailure::Overflow);
            }
            match checked_scale(acc, missing) {
                Some(v) => Ok(v),
                None => Err(ConversionFailure::Overflow),
            }
        },
    }
}

} // verus!
