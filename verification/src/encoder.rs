//! Fixed-point encoding of matrix coefficients.
//!
//! A coefficient `x` becomes one 64-bit word in sign-magnitude form:
//! bit 63 is set exactly when `x` is negative, and the low 63 bits hold
//! `|x| * 2^32` truncated toward zero. The encoding never fails: a
//! magnitude too large for the word saturates instead of trapping, as
//! the driver format gives such values no meaning anyway.

use vstd::prelude::*;

use crate::matrix::Ctm;
use crate::rational::Rational;

verus! {

/// The sign flag of a fixed-point word.
pub const SIGN_BIT: u64 = 0x8000_0000_0000_0000;

/// Absolute value of a coefficient's numerator.
pub open spec fn abs_num(x: Rational) -> int {
    if x.num < 0 {
        -(x.num as int)
    } else {
        x.num as int
    }
}

/// The exact magnitude of the encoding: `|x| * 2^32` truncated toward
/// zero. `|x|` is non-negative, so flooring the quotient is truncation
/// toward zero.
pub open spec fn mag_of(x: Rational) -> int {
    (abs_num(x) * 0x1_0000_0000) / (x.den as int)
}

/// The magnitude as stored in a word: saturated at `u64::MAX` when it
/// does not fit 64 bits.
pub open spec fn mag_word(x: Rational) -> u64 {
    if mag_of(x) > u64::MAX {
        u64::MAX
    } else {
        mag_of(x) as u64
    }
}

/// The fixed-point word for a coefficient: the magnitude, with bit 63
/// set when the coefficient is negative.
pub open spec fn word_of(x: Rational) -> u64 {
    if x.num < 0 {
        if mag_word(x) >= SIGN_BIT {
            mag_word(x)
        } else {
            (mag_word(x) + SIGN_BIT) as u64
        }
    } else {
        mag_word(x)
    }
}

/// The encoding of a whole matrix, entry by entry.
pub open spec fn spec_encode(m: Seq<Rational>) -> Seq<u64> {
    m.map_values(|x: Rational| word_of(x))
}

/// Setting bit 63 with a bitwise or, written in plain arithmetic.
proof fn lemma_or_sign_bit(m: u64)
    ensures
        m | 0x8000_0000_0000_0000u64 == (if m >= 0x8000_0000_0000_0000u64 {
            m
        } else {
            (m + 0x8000_0000_0000_0000u64) as u64
        }),
{
    assert(m | 0x8000_0000_0000_0000u64 == (if m >= 0x8000_0000_0000_0000u64 {
        m
    } else {
        (m + 0x8000_0000_0000_0000u64) as u64
    })) by (bit_vector);
}

/// A quotient of something beyond `u128::MAX` by a 64-bit denominator
/// exceeds `u64::MAX`.
proof fn lemma_huge_quotient(p: int, den: int)
    requires
        p > u128::MAX,
        1 <= den <= u64::MAX,
    ensures
        p / den > u64::MAX,
{
    let big: int = u128::MAX + 1;
    assert(0x1_0000_0000_0000_0000 * 0x1_0000_0000_0000_0000 == u128::MAX + 1int)
        by (nonlinear_arith);
    vstd::arithmetic::div_mod::lemma_div_is_ordered_by_denominator(
        p,
        den,
        0x1_0000_0000_0000_0000,
    );
    vstd::arithmetic::div_mod::lemma_div_is_ordered(big, p, 0x1_0000_0000_0000_0000);
    vstd::arithmetic::div_mod::lemma_div_multiples_vanish(
        0x1_0000_0000_0000_0000,
        0x1_0000_0000_0000_0000,
    );
}

/// Encodes one coefficient into its fixed-point word.
pub fn encode_word(x: &Rational) -> (w: u64)
    requires
        x.wf(),
    ensures
        w == word_of(*x),
{
    let a: u128 = if x.num >= 0 {
        x.num as u128
    } else if x.num == i128::MIN {
        0x8000_0000_0000_0000_0000_0000_0000_0000u128
    } else {
        (-x.num) as u128
    };
    assert(a == abs_num(*x));
    let mag: u64 = match a.checked_mul(0x1_0000_0000u128) {
        Some(p) => {
            let q: u128 = p / (x.den as u128);
            if q > 0xFFFF_FFFF_FFFF_FFFFu128 {
                u64::MAX
            } else {
                q as u64
            }
        },
        None => {
            proof {
                lemma_huge_quotient(abs_num(*x) * 0x1_0000_0000, x.den as int);
            }
            u64::MAX
        },
    };
    assert(mag == mag_word(*x));
    if x.num < 0 {
        proof {
            lemma_or_sign_bit(mag);
        }
        mag | SIGN_BIT
    } else {
        mag
    }
}

/// Encodes a matrix into its nine fixed-point words, in row-major
/// order.
pub fn encode(m: &Ctm) -> (words: Vec<u64>)
    requires
        m.wf(),
    ensures
        words@ == spec_encode(m@),
{
    let mut words: Vec<u64> = Vec::new();
    let mut i: usize = 0;
    while i < 9
        invariant
            m.wf(),
            i <= 9,
            words@.len() == i,
            forall|j: int| 0 <= j < i ==> words@[j] == word_of(m@[j]),
        decreases 9 - i,
    {
        let x = m.entry(i);
        words.push(encode_word(&x));
        i = i + 1;
    }
    proof {
        assert(words@ =~= spec_encode(m@));
    }
    words
}

/// The scaled magnitude is truncated toward zero, never rounded: the
/// stored integer multiplied back by the denominator never exceeds the
/// exact value `|num| * 2^32`, and falls short of it by less than one
/// denominator's worth.
pub proof fn lemma_truncation_toward_zero(x: Rational)
    requires
        x.wf(),
    ensures
        0 <= mag_of(x),
        mag_of(x) * x.den <= abs_num(x) * 0x1_0000_0000,
        abs_num(x) * 0x1_0000_0000 < (mag_of(x) + 1) * x.den,
{
    broadcast use vstd::arithmetic::mul::group_mul_is_distributive;
    broadcast use vstd::arithmetic::mul::group_mul_is_commutative_and_distributive;

    let p = abs_num(x) * 0x1_0000_0000;
    let d = x.den as int;
    vstd::arithmetic::mul::lemma_mul_nonnegative(abs_num(x), 0x1_0000_0000);
    vstd::arithmetic::div_mod::lemma_div_pos_is_pos(p, d);
    vstd::arithmetic::div_mod::lemma_fundamental_div_mod(p, d);
    vstd::arithmetic::div_mod::lemma_mod_bound(p, d);
}

/// Sign handling of the encoding, within the meaningful range where
/// the magnitude fits 63 bits: a non-negative coefficient encodes with
/// bit 63 clear; a negative coefficient encodes with bit 63 set, and
/// its low 63 bits (the word minus the sign flag) equal the encoding
/// of the negated coefficient.
pub proof fn lemma_encode_sign(x: Rational)
    requires
        x.wf(),
        x.num > i128::MIN,
        mag_of(x) < SIGN_BIT,
    ensures
        x.num >= 0 ==> word_of(x) < SIGN_BIT,
        x.num < 0 ==> word_of(x) >= SIGN_BIT && word_of(x) - SIGN_BIT == word_of(
            Rational { num: (-x.num) as i128, den: x.den },
        ),
{
    if x.num < 0 {
        let y = Rational { num: (-x.num) as i128, den: x.den };
        assert(abs_num(y) == abs_num(x));
    }
}

} // verus!
