//! Exact ratios. Rates and intensities are kept as a numerator over a
//! denominator, so that nothing is rounded before a consumer chooses how to
//! display it.

use vstd::prelude::*;

verus! {

/// The ratio `numerator / denominator`.
#[derive(Clone, Copy, Debug, PartialEq, Eq, Structural)]
pub struct Fraction {
    pub numerator: u128,
    pub denominator: u128,
}

impl Fraction {
    /// A fraction has a value when its denominator is not zero.
    pub open spec fn wf(&self) -> bool {
        self.denominator > 0
    }

    /// The value lies between zero and `bound`, both included.
    pub open spec fn at_most(&self, bound: int) -> bool {
        self.numerator <= bound * self.denominator
    }

    /// The value is exactly zero.
    pub open spec fn is_zero(&self) -> bool {
        self.numerator == 0
    }

    /// The fraction `0 / 1`.
    pub fn zero() -> (fraction: Fraction)
        ensures
            fraction == (Fraction { numerator: 0, denominator: 1 }),
    {
        Fraction { numerator: 0, denominator: 1 }
    }
}

} // verus!
