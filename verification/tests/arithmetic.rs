// The delegated arithmetic, the bit-level sign operations, and the integer
// power loop.
use quadfloat::arith::RoundDir;
use quadfloat::F128;

const ONE: u128 = 0x3FFF0000000000000000000000000000;
const TWO: u128 = 0x40000000000000000000000000000000;
const HALF: u128 = 0x3FFE0000000000000000000000000000;
const QUARTER: u128 = 0x3FFD0000000000000000000000000000;
const THREE: u128 = 0x40008000000000000000000000000000;
const FOUR: u128 = 0x40010000000000000000000000000000;
const FIVE: u128 = 0x40014000000000000000000000000000;
const EIGHT: u128 = 0x40020000000000000000000000000000;
const ONE_POINT_FIVE: u128 = 0x3FFF8000000000000000000000000000;

#[test]
fn addition_computes_the_sum() {
    let r = F128::one().add(F128::one());
    assert_eq!(r.inner_as_u128(), TWO);
}

#[test]
fn subtraction_computes_the_difference() {
    let r = F128::two().sub(F128::one());
    assert_eq!(r.inner_as_u128(), ONE);
}

#[test]
fn multiplication_computes_the_product() {
    let r = F128::two().mul(F128::two());
    assert_eq!(r.inner_as_u128(), FOUR);
}

#[test]
fn division_computes_the_quotient() {
    let three = F128::from_raw_u128(THREE);
    let six = three.add(three);
    assert_eq!(six.div(F128::two()).inner_as_u128(), THREE);
    assert_eq!(F128::one().div(F128::two()).inner_as_u128(), HALF);
}

#[test]
fn fused_multiply_add_computes_a_times_b_plus_c() {
    let r = F128::two().mul_add(F128::two(), F128::one());
    assert_eq!(r.inner_as_u128(), FIVE);
}

#[test]
fn reciprocal_is_one_over_the_value() {
    assert_eq!(F128::two().recip().inner_as_u128(), HALF);
    assert_eq!(F128::two().inv().inner_as_u128(), HALF);
}

#[test]
fn negation_flips_only_the_sign_bit() {
    let v = F128::from_raw_u128(ONE_POINT_FIVE);
    let n = v.neg();
    assert!(n.is_sign_negative());
    assert_eq!(n.exp_bits(), v.exp_bits());
    assert_eq!(n.fract_bits(), v.fract_bits());
    assert_eq!(n.neg().inner_as_u128(), v.inner_as_u128());
}

#[test]
fn abs_clears_only_the_sign_bit() {
    let v = F128::from_raw_u128(ONE_POINT_FIVE).neg();
    let a = v.abs();
    assert!(a.is_sign_positive());
    assert_eq!(a.inner_as_u128(), ONE_POINT_FIVE);
    // NaN keeps its payload, loses its sign.
    let n = F128::nan().neg().abs();
    assert_eq!(n.inner_as_u128(), F128::nan().inner_as_u128());
}

#[test]
fn abs_sub_is_the_absolute_difference() {
    let r = F128::one().abs_sub(F128::two());
    assert_eq!(r.inner_as_u128(), ONE);
    let s = F128::two().abs_sub(F128::one());
    assert_eq!(s.inner_as_u128(), ONE);
}

#[test]
fn signum_is_nan_or_signed_one() {
    assert_eq!(F128::two().signum().inner_as_u128(), ONE);
    assert_eq!(
        F128::two().neg().signum().inner_as_u128(),
        F128::one().neg().inner_as_u128()
    );
    assert_eq!(F128::zero().signum().inner_as_u128(), ONE);
    assert!(F128::nan().signum().is_nan());
}

#[test]
fn rounding_directions_differ_on_halves() {
    let v = F128::from_raw_u128(ONE_POINT_FIVE);
    assert_eq!(v.floor().inner_as_u128(), ONE);
    assert_eq!(v.ceil().inner_as_u128(), TWO);
    assert_eq!(v.trunc().inner_as_u128(), ONE);
    // Ties round away from zero.
    assert_eq!(v.round().inner_as_u128(), TWO);
    let n = v.neg();
    assert_eq!(n.floor().inner_as_u128(), TWO | (1 << 127));
    assert_eq!(n.ceil().inner_as_u128(), ONE | (1 << 127));
    assert_eq!(n.trunc().inner_as_u128(), ONE | (1 << 127));
    assert_eq!(n.round().inner_as_u128(), TWO | (1 << 127));
    assert_eq!(
        v.round_with(RoundDir::TowardZero).inner_as_u128(),
        v.trunc().inner_as_u128()
    );
}

#[test]
fn fract_is_the_frexp_significand() {
    // 3 == 0.75 * 2^2, so the exponent split hands back 0.75.
    let three = F128::from_raw_u128(THREE);
    assert_eq!(
        three.fract().inner_as_u128(),
        0x3FFE8000000000000000000000000000
    );
}

#[test]
fn fract_lands_in_the_half_open_unit_interval() {
    // For a finite nonzero value the significand has biased exponent 16382
    // (magnitude in [0.5, 1)) and keeps the sign.
    for v in [
        F128::from_raw_u128(THREE).neg(),
        F128::one(),
        F128::max_value(),
        F128::min_positive_value(),
    ] {
        let f = v.fract();
        assert_eq!(f.exp_bits(), 16382);
        assert_eq!(f.is_sign_negative(), v.is_sign_negative());
    }
    // An infinity passes through unchanged.
    assert_eq!(
        F128::neg_infinity().fract().inner_as_u128(),
        F128::neg_infinity().inner_as_u128()
    );
}

#[test]
fn powi_zero_exponent_is_one_for_every_base() {
    for v in [
        F128::zero(),
        F128::neg_zero(),
        F128::one(),
        F128::two().neg(),
        F128::max_value(),
        F128::min_positive_value(),
        F128::infinity(),
    ] {
        assert_eq!(v.powi(0).inner_as_u128(), ONE);
    }
}

#[test]
fn powi_positive_is_repeated_multiplication() {
    assert_eq!(F128::two().powi(3).inner_as_u128(), EIGHT);
    assert_eq!(F128::two().powi(1).inner_as_u128(), TWO);
    let three = F128::from_raw_u128(THREE);
    let by_loop = three.powi(4);
    let by_hand = three.mul(three).mul(three).mul(three);
    assert_eq!(by_loop.inner_as_u128(), by_hand.inner_as_u128());
}

#[test]
fn powi_negative_is_the_repeated_division_chain() {
    assert_eq!(F128::two().powi(-2).inner_as_u128(), QUARTER);
    // The result is the chain itself: x divided by x, |n|+1 times.
    let three = F128::from_raw_u128(THREE);
    let chain = three.div(three).div(three).div(three);
    assert_eq!(three.powi(-2).inner_as_u128(), chain.inner_as_u128());
    assert_eq!(
        three.powi(-1).inner_as_u128(),
        three.div(three).div(three).inner_as_u128()
    );
}

#[test]
fn division_by_zero_signals_the_ieee_way() {
    let r = F128::one().div(F128::zero());
    assert!(r.is_infinite() && r.is_sign_positive());
    let s = F128::one().neg().div(F128::zero());
    assert!(s.is_infinite() && s.is_sign_negative());
    let t = F128::zero().div(F128::zero());
    assert!(t.is_nan());
}
