//! Builds a display color-transformation matrix (CTM) from high-level
//! parameters, encodes each coefficient into the driver's 64-bit
//! sign-magnitude fixed-point format, and serializes the result into the
//! comma-separated token list that a display-configuration tool expects.
//!
//! Coefficients are exact rationals, so the fixed-point truncation toward
//! zero is stated and proved exactly.

pub mod encoder;
pub mod matrix;
pub mod rational;
pub mod serializer;

use vstd::prelude::*;

use crate::encoder::{encode, spec_encode};
use crate::matrix::Ctm;
use crate::rational::Rational;
use crate::serializer::{spec_arg_string, to_argument_string};

verus! {

/// The whole pipeline for one matrix: encode the nine coefficients into
/// fixed-point words and serialize them into the display tool's
/// comma-separated token list.
pub fn ctm_argument(m: &Ctm) -> (s: String)
    requires
        m.wf(),
    ensures
        s@ == spec_arg_string(spec_encode(m@)),
{
    let words = encode(m);
    to_argument_string(&words)
}

/// Encoding followed by the low/high split and serialization is a pure
/// function of the matrix entries: equal matrices always yield equal
/// words and equal argument text.
pub proof fn lemma_pipeline_deterministic(a: Seq<Rational>, b: Seq<Rational>)
    requires
        a == b,
    ensures
        spec_encode(a) == spec_encode(b),
        spec_arg_string(spec_encode(a)) == spec_arg_string(spec_encode(b)),
{
}

} // verus!
