//! Amounts written out as decimal text by the `ethers` unit formatter.

use vstd::prelude::*;
use crate::decimal::{
    decimal_value, digit_value, digits_value, is_digit, kept_digits, lemma_point_unique,
    lemma_pow10_positive, parsed, point_at, pow10, ConversionFailure,
};

verus! {

/// The error type of the `ethers` unit conversions; nothing is read from it.
#[verifier::external_type_specification]
#[verifier::external_body]
pub struct ExUnitsError(ethers::utils::ConversionError);

/// The largest number of decimal places at which an amount can be formatted.
pub const MAX_DECIMALS: u32 = 77;

/// The character that writes the digit `d`.
pub open spec fn digit_char(d: nat) -> char {
    if d == 0 {
        '0'
    } else if d == 1 {
        '1'
    } else if d == 2 {
        '2'
    } else if d == 3 {
        '3'
    } else if d == 4 {
        '4'
    } else if d == 5 {
        '5'
    } else if d == 6 {
        '6'
    } else if d == 7 {
        '7'
    } else if d == 8 {
        '8'
    } else {
        '9'
    }
}

/// The decimal digits of `n`, most significant first, without leading zeros;
/// zero is written `0`.
pub open spec fn decimal_digits(n: nat) -> Seq<char>
    decreases n,
{
    if n < 10 {
        seq![digit_char(n)]
    } else {
        decimal_digits(n / 10).push(digit_char(n % 10))
    }
}

/// `s` with zeros put in front until it is `width` long.
pub open spec fn zero_padded(s: Seq<char>, width: nat) -> Seq<char> {
    if s.len() >= width {
        s
    } else {
        Seq::new((width - s.len()) as nat, |i: int| '0') + s
    }
}

/// `amount` divided by `10^decimals`, written out: the whole part, a point,
/// and the remainder in at least `decimals` digits.
pub open spec fn units_text(amount: nat, decimals: nat) -> Seq<char> {
    decimal_digits(amount / pow10(decimals)) + seq!['.'] + zero_padded(
        decimal_digits(amount % pow10(decimals)),
        decimals,
    )
}

/// A digit's character is a digit and stands for it.
pub proof fn lemma_digit_char(d: nat)
    requires
        d < 10,
    ensures
        is_digit(digit_char(d)),
        digit_value(digit_char(d)) == d,
{
}

/// The digits of a number are digits, at least one, and write that number.
pub proof fn lemma_decimal_digits(n: nat)
    ensures
        decimal_digits(n).len() >= 1,
        forall|i: int| 0 <= i < decimal_digits(n).len() ==> is_digit(#[trigger] decimal_digits(n)[i]),
        digits_value(decimal_digits(n)) == n,
    decreases n,
{
    let s = decimal_digits(n);
    if n < 10 {
        lemma_digit_char(n);
        assert(s.drop_last() =~= Seq::<char>::empty());
        assert(digits_value(s.drop_last()) == 0);
    } else {
        lemma_decimal_digits(n / 10);
        lemma_digit_char(n % 10);
        assert(s.drop_last() =~= decimal_digits(n / 10));
        assert(s.last() == digit_char(n % 10));
    }
}

/// A number below `10^k` has at most `k` digits.
pub proof fn lemma_decimal_digits_len(n: nat, k: nat)
    requires
        k >= 1,
        n < pow10(k),
    ensures
        decimal_digits(n).len() <= k,
    decreases k,
{
    if n >= 10 {
        assert(pow10(1) == 10) by {
            assert(pow10(0) == 1);
        }
        assert(k >= 2);
        assert(pow10(k) == 10 * pow10((k - 1) as nat));
        lemma_decimal_digits_len(n / 10, (k - 1) as nat);
    }
}

/// Zeros write zero.
pub proof fn lemma_zeros_value(k: nat)
    ensures
        digits_value(Seq::new(k, |i: int| '0')) == 0,
    decreases k,
{
    let z = Seq::new(k, |i: int| '0');
    if k > 0 {
        assert(z.drop_last() =~= Seq::new((k - 1) as nat, |i: int| '0'));
        lemma_zeros_value((k - 1) as nat);
        assert(z.last() == '0');
    }
}

/// Digits written after others shift those by their count.
pub proof fn lemma_digits_value_concat(x: Seq<char>, y: Seq<char>)
    ensures
        digits_value(x + y) == digits_value(x) * pow10(y.len()) + digits_value(y),
    decreases y.len(),
{
    if y.len() == 0 {
        assert(x + y =~= x);
        assert(pow10(0) == 1);
    } else {
        assert((x + y).drop_last() =~= x + y.drop_last());
        assert((x + y).last() == y.last());
        lemma_digits_value_concat(x, y.drop_last());
        let shorter = pow10(y.drop_last().len());
        assert(pow10(y.len()) == 10 * shorter);
        assert((digits_value(x) * shorter + digits_value(y.drop_last())) * 10 == digits_value(x)
            * (10 * shorter) + digits_value(y.drop_last()) * 10) by (nonlinear_arith);
    }
}

/// An amount written out at some precision and read back at the same
/// precision is the amount again.
pub proof fn lemma_units_text_parses(amount: nat, decimals: nat)
    requires
        amount <= u128::MAX,
    ensures
        parsed(units_text(amount, decimals), decimals) == Ok::<u128, ConversionFailure>(
            amount as u128,
        ),
{
    let unit = pow10(decimals);
    lemma_pow10_positive(decimals);
    let q = amount / unit;
    let r = amount % unit;
    assert(amount == unit * q + r && r < unit) by (nonlinear_arith)
        requires
            unit > 0,
            q == amount / unit,
            r == amount % unit,
    ;
    let whole = decimal_digits(q);
    let tail = decimal_digits(r);
    let fraction = zero_padded(tail, decimals);
    let text = units_text(amount, decimals);
    lemma_decimal_digits(q);
    lemma_decimal_digits(r);
    let p = whole.len() as int;
    if tail.len() < decimals {
        let zeros = Seq::new((decimals - tail.len()) as nat, |i: int| '0');
        lemma_zeros_value((decimals - tail.len()) as nat);
        lemma_digits_value_concat(zeros, tail);
        assert(fraction == zeros + tail);
        assert(0 * pow10(tail.len()) == 0);
        assert(digits_value(fraction) == r);
        assert forall|j: int| 0 <= j < fraction.len() implies is_digit(#[trigger] fraction[j]) by {
            if j >= zeros.len() {
                assert(fraction[j] == tail[j - zeros.len()]);
            }
        }
    }
    assert(digits_value(fraction) == r);
    assert(text.len() == p + 1 + fraction.len());
    assert(text[p] == '.');
    assert forall|j: int| 0 <= j < text.len() && j != p implies is_digit(#[trigger] text[j]) by {
        if j < p {
            assert(text[j] == whole[j]);
        } else {
            assert(text[j] == fraction[j - p - 1]);
        }
    }
    assert(point_at(text, p));
    lemma_point_unique(text, p);
    let kept = kept_digits(text, p, decimals, text.len() as int);
    if decimals == 0 {
        assert(unit == 1);
        assert(kept =~= whole);
        assert(pow10(0) == 1);
        assert((decimals + p - kept.len()) as nat == 0);
        assert(digits_value(kept) * pow10(0) == q) by (nonlinear_arith)
            requires
                pow10(0) == 1,
                digits_value(kept) == q,
        ;
        assert(decimal_value(text, decimals) == amount);
    } else {
        lemma_decimal_digits_len(r, decimals);
        assert(fraction.len() == decimals);
        assert(kept =~= whole + fraction);
        lemma_digits_value_concat(whole, fraction);
        assert(pow10(0) == 1);
        assert(digits_value(kept) == q * unit + r);
        assert(q * unit == unit * q) by (nonlinear_arith);
        assert((decimals + p - kept.len()) as nat == 0);
        assert(digits_value(kept) * pow10(0) == amount) by (nonlinear_arith)
            requires
                pow10(0) == 1,
                digits_value(kept) == amount,
        ;
        assert(decimal_value(text, decimals) == amount);
    }
}


/// Calls `ethers::utils::format_units` on an unsigned amount.
///
/// Believed of it, from its source: with 78 decimals or more it fails; below
/// that it returns the quotient of the amount by `10^decimals`, a point, and
/// the remainder padded with zeros on the left to `decimals` digits.
#[verifier::external_body]
pub(crate) fn format_units(amount: u128, decimals: u32) -> (r: Result<String, ethers::utils::ConversionError>)
    ensures
        decimals > MAX_DECIMALS ==> r is Err,
        decimals <= MAX_DECIMALS ==> r is Ok && r->Ok_0@ == units_text(
            amount as nat,
            decimals as nat,
        ),
{
    ethers::utils::format_units(amount, decimals)
}

} // verus!
