//! The 3x3 color-transformation matrix and its constructors.

use vstd::prelude::*;

use crate::rational::{rat_eq, Rational};

verus! {

/// Error returned when an explicit coefficient list does not have
/// exactly nine elements.
#[derive(Clone, Copy, Debug, PartialEq, Eq, Structural)]
pub struct ShapeError;

/// A 3x3 linear color-transformation matrix: nine exact rational
/// coefficients in row-major order, mapping input linear RGB to output
/// linear RGB.
#[derive(Debug)]
pub struct Ctm {
    entries: Vec<Rational>,
}

/// The rational `n / 1`.
pub open spec fn int_rat(n: int) -> Rational {
    Rational { num: n as i128, den: 1u64 }
}

/// The identity matrix: ones on the diagonal, zeros elsewhere.
pub open spec fn spec_identity() -> Seq<Rational> {
    seq![
        int_rat(1), int_rat(0), int_rat(0),
        int_rat(0), int_rat(1), int_rat(0),
        int_rat(0), int_rat(0), int_rat(1),
    ]
}

/// Row-major positions of the diagonal of a 3x3 matrix.
pub open spec fn is_diag(i: int) -> bool {
    i == 0 || i == 4 || i == 8
}

/// The diagonal matrix with `r`, `g`, `b` on the diagonal.
pub open spec fn spec_gain(r: Rational, g: Rational, b: Rational) -> Seq<Rational> {
    seq![
        r, int_rat(0), int_rat(0),
        int_rat(0), g, int_rat(0),
        int_rat(0), int_rat(0), b,
    ]
}

/// Shape of a saturation matrix for saturation `sat = num / den`:
/// with `coeff = (1 - sat) / 3`, every diagonal entry is `coeff + sat`
/// and every off-diagonal entry is `coeff`. Over the common denominator
/// `3 * den` the diagonal numerator is `den + 2 * num` and the
/// off-diagonal numerator is `den - num`.
pub open spec fn spec_saturation_matrix(sat: Rational, m: Seq<Rational>) -> bool {
    &&& m.len() == 9
    &&& forall|i: int| 0 <= i < 9 ==> (#[trigger] m[i]).den == 3 * sat.den
    &&& forall|i: int| 0 <= i < 9 && is_diag(i) ==> (#[trigger] m[i]).num == sat.den + 2 * sat.num
    &&& forall|i: int| 0 <= i < 9 && !is_diag(i) ==> (#[trigger] m[i]).num == sat.den - sat.num
}

impl View for Ctm {
    type V = Seq<Rational>;

    closed spec fn view(&self) -> Seq<Rational> {
        self.entries@
    }
}

impl Ctm {
    /// A matrix is well formed when it has exactly nine well-formed
    /// entries.
    pub open spec fn wf(self) -> bool {
        &&& self@.len() == 9
        &&& forall|i: int| 0 <= i < 9 ==> (#[trigger] self@[i]).wf()
    }

    /// The identity matrix `[1,0,0, 0,1,0, 0,0,1]`.
    pub fn identity() -> (m: Ctm)
        ensures
            m@ == spec_identity(),
            m.wf(),
    {
        let one = Rational::from_int(1);
        let zero = Rational::from_int(0);
        let m = Ctm { entries: vec![one, zero, zero, zero, one, zero, zero, zero, one] };
        proof {
            assert(m@ =~= spec_identity());
        }
        m
    }

    /// Uniform saturation adjustment: with `coeff = (1 - sat) / 3`,
    /// diagonal entries are `coeff + sat` and off-diagonal entries are
    /// `coeff`. At `sat = 1` this is the identity; at `sat = 0` every
    /// entry is `1/3`. No range validation: any rational saturation is
    /// accepted, as long as the exact arithmetic fits the machine words.
    pub fn from_saturation(sat: Rational) -> (m: Ctm)
        requires
            sat.wf(),
            3 * sat.den <= u64::MAX,
            i128::MIN <= sat.den + 2 * sat.num <= i128::MAX,
            i128::MIN <= sat.den - sat.num <= i128::MAX,
        ensures
            m.wf(),
            spec_saturation_matrix(sat, m@),
    {
        let den: u64 = 3 * sat.den;
        let diag_num: i128 = (sat.den as i128 + sat.num) + sat.num;
        let off_num: i128 = sat.den as i128 - sat.num;
        let diag = Rational::new(diag_num, den);
        let off = Rational::new(off_num, den);
        Ctm { entries: vec![diag, off, off, off, diag, off, off, off, diag] }
    }

    /// Per-channel gain: the diagonal matrix `[r,0,0, 0,g,0, 0,0,b]`.
    /// No range validation: any rational gains are accepted.
    pub fn from_gain(r: Rational, g: Rational, b: Rational) -> (m: Ctm)
        requires
            r.wf(),
            g.wf(),
            b.wf(),
        ensures
            m.wf(),
            m@ == spec_gain(r, g, b),
    {
        let zero = Rational::from_int(0);
        let m = Ctm { entries: vec![r, zero, zero, zero, g, zero, zero, zero, b] };
        proof {
            assert(m@ =~= spec_gain(r, g, b));
        }
        m
    }

    /// Explicit matrix from nine row-major coefficients. Fails with
    /// `ShapeError`, producing no matrix at all, exactly when the list
    /// does not have nine elements.
    pub fn from_explicit(values: Vec<Rational>) -> (r: Result<Ctm, ShapeError>)
        requires
            forall|i: int| 0 <= i < values@.len() ==> (#[trigger] values@[i]).wf(),
        ensures
            values@.len() == 9 ==> (r matches Ok(m) && m@ == values@ && m.wf()),
            values@.len() != 9 ==> (r matches Err(e) && e == ShapeError),
    {
        if values.len() == 9 {
            Ok(Ctm { entries: values })
        } else {
            Err(ShapeError)
        }
    }

    /// The entry at row-major position `i`.
    pub fn entry(&self, i: usize) -> (r: Rational)
        requires
            self.wf(),
            i < 9,
        ensures
            r == self@[i as int],
    {
        self.entries[i]
    }
}

impl Default for Ctm {
    /// The default matrix is the identity.
    fn default() -> (m: Ctm)
        ensures
            m@ == spec_identity(),
            m.wf(),
    {
        Ctm::identity()
    }
}

/// At saturation one the saturation matrix is exactly the identity:
/// every diagonal entry equals 1 and every off-diagonal entry equals 0
/// as a rational value.
pub proof fn lemma_saturation_one_is_identity(sat: Rational, m: Seq<Rational>)
    requires
        sat.wf(),
        rat_eq(sat, int_rat(1)),
        spec_saturation_matrix(sat, m),
    ensures
        forall|i: int| 0 <= i < 9 ==> rat_eq(#[trigger] m[i], spec_identity()[i]),
{
    broadcast use vstd::arithmetic::mul::group_mul_basics;

    assert(sat.num == sat.den);
    assert forall|i: int| 0 <= i < 9 implies rat_eq(#[trigger] m[i], spec_identity()[i]) by {
        if is_diag(i) {
            assert(m[i].num == 3 * sat.den);
            assert(m[i].den == 3 * sat.den);
        } else {
            assert(m[i].num == 0);
        }
    }
}

/// Symmetry of the saturation matrix: all three diagonal entries are
/// equal, and all six off-diagonal entries are equal.
pub proof fn lemma_saturation_symmetry(sat: Rational, m: Seq<Rational>)
    requires
        spec_saturation_matrix(sat, m),
    ensures
        m[0] == m[4] && m[4] == m[8],
        m[1] == m[2] && m[2] == m[3] && m[3] == m[5] && m[5] == m[6] && m[6] == m[7],
{
}

} // verus!
