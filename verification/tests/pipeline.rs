use xctm::encoder::{encode, encode_word};
use xctm::matrix::{Ctm, ShapeError};
use xctm::rational::Rational;
use xctm::serializer::{split_words, to_argument_string, u32_to_dec};
use xctm::ctm_argument;

fn rat(num: i128, den: u64) -> Rational {
    Rational::new(num, den)
}

#[test]
fn identity_serializes_to_identity_ctm_tokens() {
    let m = Ctm::identity();
    let words = encode(&m);
    assert_eq!(
        words,
        vec![
            4294967296,
            0,
            0,
            0,
            4294967296,
            0,
            0,
            0,
            4294967296u64
        ]
    );
    let s = to_argument_string(&words);
    assert_eq!(s, "0,1,0,0,0,0,0,0,0,1,0,0,0,0,0,0,0,1");
}

#[test]
fn default_is_identity() {
    let d: Ctm = Default::default();
    let m = Ctm::identity();
    assert_eq!(encode(&d), encode(&m));
}

#[test]
fn saturation_zero_is_uniform_gray() {
    // every coefficient is 1/3; its magnitude is 2^32 / 3 truncated
    let m = Ctm::from_saturation(rat(0, 1));
    for i in 0..9 {
        let e = m.entry(i);
        assert_eq!(e.num, 1);
        assert_eq!(e.den, 3);
    }
    let words = encode(&m);
    for w in &words {
        assert_eq!(*w, 1431655765);
    }
    let s = to_argument_string(&words);
    assert_eq!(
        s,
        "1431655765,0,1431655765,0,1431655765,0,1431655765,0,1431655765,0,\
         1431655765,0,1431655765,0,1431655765,0,1431655765,0"
    );
}

#[test]
fn saturation_one_encodes_as_identity() {
    let m = Ctm::from_saturation(rat(1, 1));
    // entries are 3/3 on the diagonal and 0/3 off it: the identity value
    assert_eq!(encode(&m), encode(&Ctm::identity()));
}

#[test]
fn saturation_matrix_is_symmetric() {
    let m = Ctm::from_saturation(rat(7, 5));
    let diag = m.entry(0);
    assert_eq!(m.entry(4), diag);
    assert_eq!(m.entry(8), diag);
    let off = m.entry(1);
    for i in [2, 3, 5, 6, 7] {
        assert_eq!(m.entry(i), off);
    }
    assert_eq!(diag.num, 5 + 2 * 7);
    assert_eq!(diag.den, 15);
    assert_eq!(off.num, 5 - 7);
    assert_eq!(off.den, 15);
}

#[test]
fn gain_matrix_words() {
    // diagonal 2, 1, 1/2; off-diagonal zero
    let m = Ctm::from_gain(rat(2, 1), rat(1, 1), rat(1, 2));
    let words = encode(&m);
    assert_eq!(words[0], 8589934592);
    assert_eq!(words[4], 4294967296);
    assert_eq!(words[8], 2147483648);
    for i in [1, 2, 3, 5, 6, 7] {
        assert_eq!(words[i], 0);
    }
    let s = to_argument_string(&words);
    assert_eq!(s, "0,2,0,0,0,0,0,0,0,1,0,0,0,0,0,0,2147483648,0");
}

#[test]
fn explicit_matrix_with_negative_first_coefficient() {
    let values = vec![
        rat(-1, 1),
        rat(0, 1),
        rat(0, 1),
        rat(0, 1),
        rat(1, 1),
        rat(0, 1),
        rat(0, 1),
        rat(0, 1),
        rat(1, 1),
    ];
    let m = Ctm::from_explicit(values).unwrap();
    let words = encode(&m);
    assert_eq!(words[0], 0x8000_0001_0000_0000);
    assert_eq!(words[0], 4294967296u64 | (1u64 << 63));
    let s = to_argument_string(&words);
    assert_eq!(s, "0,2147483649,0,0,0,0,0,0,0,1,0,0,0,0,0,0,0,1");
}

#[test]
fn explicit_matrix_wrong_shape_fails() {
    let values = vec![rat(1, 1), rat(0, 1), rat(0, 1), rat(0, 1), rat(1, 1)];
    let r = Ctm::from_explicit(values);
    assert_eq!(r.unwrap_err(), ShapeError);
    assert_eq!(Ctm::from_explicit(vec![]).unwrap_err(), ShapeError);
    assert_eq!(Ctm::from_explicit(vec![rat(1, 1); 10]).unwrap_err(), ShapeError);
}

#[test]
fn encoding_truncates_toward_zero() {
    // 0.9999999998 is just below 1 by less than 2^-32: the scaled
    // magnitude must truncate down to 4294967295, not round up to 2^32
    let x = rat(9999999998, 10000000000);
    assert_eq!(encode_word(&x), 4294967295);
    // the same value negated truncates the same way before the sign flag
    let y = rat(-9999999998, 10000000000);
    assert_eq!(encode_word(&y), 4294967295u64 | (1u64 << 63));
}

#[test]
fn encoding_is_deterministic() {
    let m = Ctm::from_saturation(rat(3, 7));
    let first = encode(&m);
    let second = encode(&m);
    assert_eq!(first, second);
    assert_eq!(to_argument_string(&first), to_argument_string(&second));
}

#[test]
fn sign_bit_mirrors_magnitude() {
    let pos = rat(5, 2);
    let neg = rat(-5, 2);
    let wp = encode_word(&pos);
    let wn = encode_word(&neg);
    assert_eq!(wp & (1u64 << 63), 0);
    assert_eq!(wn & (1u64 << 63), 1u64 << 63);
    assert_eq!(wn & !(1u64 << 63), wp);
    assert_eq!(wp, 5 * (1u64 << 32) / 2);
}

#[test]
fn zero_encodes_to_zero() {
    assert_eq!(encode_word(&rat(0, 1)), 0);
    assert_eq!(encode_word(&rat(0, 123456789)), 0);
}

#[test]
fn oversized_magnitudes_saturate_without_crashing() {
    // magnitudes beyond 63 bits are numerically meaningless for the
    // driver but must still encode without failing
    let big = rat(i128::MAX, 1);
    assert_eq!(encode_word(&big), u64::MAX);
    let big_neg = rat(i128::MIN, 1);
    assert_eq!(encode_word(&big_neg), u64::MAX);
    // 2^31 scales to exactly 2^63: the magnitude spills into the sign bit
    let spill = rat(1 << 31, 1);
    assert_eq!(encode_word(&spill), 1u64 << 63);
}

#[test]
fn split_is_low_then_high_by_shifts() {
    let words = vec![0x8000_0001_0000_0000u64, 0x0000_0001_FFFF_FFFFu64];
    let toks = split_words(&words);
    assert_eq!(toks, vec![0, 2147483649, 4294967295, 1]);
}

#[test]
fn decimal_rendering_is_exact() {
    assert_eq!(u32_to_dec(0), "0");
    assert_eq!(u32_to_dec(7), "7");
    assert_eq!(u32_to_dec(10), "10");
    assert_eq!(u32_to_dec(4294967295), "4294967295");
    assert_eq!(u32_to_dec(1431655765), "1431655765");
}

#[test]
fn pipeline_matches_stepwise_composition() {
    let m = Ctm::from_gain(rat(2, 1), rat(1, 1), rat(1, 2));
    let words = encode(&m);
    assert_eq!(ctm_argument(&m), to_argument_string(&words));
}

#[test]
fn from_int_and_entry_round_trip() {
    let v = Rational::from_int(-42);
    assert_eq!(v.num, -42);
    assert_eq!(v.den, 1);
    let m = Ctm::from_gain(v, Rational::from_int(1), Rational::from_int(1));
    assert_eq!(m.entry(0), v);
    assert_eq!(m.entry(1), Rational::from_int(0));
}
