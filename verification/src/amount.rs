//! Signed fixed-point amounts wide enough for the difference of any two
//! unsigned 128-bit amounts.

use vstd::prelude::*;

verus! {

/// A signed amount in the smallest unit of the quote token: a sign and a
/// magnitude, so that every difference of two `u128` values has a value.
#[derive(Clone, Copy, Debug, PartialEq, Eq, Structural)]
pub struct SignedAmount {
    pub negative: bool,
    pub magnitude: u128,
}

impl View for SignedAmount {
    type V = int;

    open spec fn view(&self) -> int {
        if self.negative {
            -(self.magnitude as int)
        } else {
            self.magnitude as int
        }
    }
}

impl SignedAmount {
    /// Zero has one representation only: it is never marked negative.
    pub open spec fn wf(&self) -> bool {
        self.negative ==> self.magnitude > 0
    }

    /// The amount `magnitude`, which is not below zero.
    pub fn from_unsigned(magnitude: u128) -> (r: SignedAmount)
        ensures
            r@ == magnitude as int,
            r.wf(),
            !r.negative,
    {
        SignedAmount { negative: false, magnitude }
    }

    /// The amount `-magnitude`.
    pub fn negated(magnitude: u128) -> (r: SignedAmount)
        ensures
            r@ == -(magnitude as int),
            r.wf(),
    {
        SignedAmount { negative: magnitude > 0, magnitude }
    }

    /// `minuend - subtrahend`, exactly.
    pub fn difference(minuend: u128, subtrahend: u128) -> (r: SignedAmount)
        ensures
            r@ == minuend as int - subtrahend as int,
            r.wf(),
    {
        if minuend >= subtrahend {
            SignedAmount { negative: false, magnitude: minuend - subtrahend }
        } else {
            SignedAmount { negative: true, magnitude: subtrahend - minuend }
        }
    }

    /// Whether this amount is strictly greater than `other`.
    pub fn exceeds(&self, other: &SignedAmount) -> (r: bool)
        ensures
            r == (self@ > other@),
    {
        if self.negative {
            other.negative && self.magnitude < other.magnitude
        } else {
            if other.negative {
                self.magnitude > 0 || other.magnitude > 0
            } else {
                self.magnitude > other.magnitude
            }
        }
    }
}

} // verus!
