//! Exact rational numbers: the coefficient domain of the color matrix.

use vstd::prelude::*;

verus! {

/// An exact rational number `num / den`.
///
/// A coefficient of the color matrix is a real number; the matrix
/// constructions and the fixed-point encoding only ever need rational
/// values, so the library represents a coefficient as an exact fraction.
/// The fraction is not kept reduced; equality of values is `rat_eq`.
#[derive(Clone, Copy, Debug, PartialEq, Eq, Structural)]
pub struct Rational {
    /// Signed numerator.
    pub num: i128,
    /// Denominator; must be at least 1 for the value to be well formed.
    pub den: u64,
}

impl Rational {
    /// A rational is well formed when its denominator is positive.
    pub open spec fn wf(self) -> bool {
        self.den >= 1
    }

    /// Builds the fraction `num / den`.
    pub fn new(num: i128, den: u64) -> (r: Rational)
        requires
            den >= 1,
        ensures
            r.num == num,
            r.den == den,
            r.wf(),
    {
        Rational { num, den }
    }

    /// Builds the integer value `n / 1`.
    pub fn from_int(n: i64) -> (r: Rational)
        ensures
            r.num == n as int,
            r.den == 1,
            r.wf(),
    {
        Rational { num: n as i128, den: 1 }
    }
}

/// Two fractions denote the same rational value exactly when they
/// cross-multiply equally.
pub open spec fn rat_eq(a: Rational, b: Rational) -> bool {
    a.num * b.den == b.num * a.den
}

} // verus!
