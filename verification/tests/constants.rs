// Every named constant must decode to the IEEE 754-2008 binary128 reference
// triple (sign, biased exponent field, fraction field), read from the bit
// pattern itself so the checks hold on either byte order.
use quadfloat::consts;
use quadfloat::F128;

const FRAC_ALL_ONES: u128 = 0x0000FFFFFFFFFFFFFFFFFFFFFFFFFFFF;

fn triple(v: F128) -> (bool, u32, u128) {
    (v.is_sign_negative(), v.exp_bits(), v.fract_bits())
}

#[test]
fn zero_decodes_to_reference() {
    assert_eq!(triple(F128::zero()), (false, 0, 0));
}

#[test]
fn neg_zero_decodes_to_reference() {
    assert_eq!(triple(F128::neg_zero()), (true, 0, 0));
}

#[test]
fn one_decodes_to_reference() {
    assert_eq!(triple(F128::one()), (false, 16383, 0));
}

#[test]
fn two_decodes_to_reference() {
    assert_eq!(triple(F128::two()), (false, 16384, 0));
}

#[test]
fn epsilon_decodes_to_reference() {
    // Machine epsilon is 2^-112: biased exponent 16383 - 112.
    assert_eq!(triple(F128::epsilon()), (false, 16271, 0));
}

#[test]
fn min_positive_decodes_to_reference() {
    // The smallest positive value of all: the subnormal with pattern 1.
    assert_eq!(triple(F128::min_positive_value()), (false, 0, 1));
    assert_eq!(F128::min_positive_value().inner_as_u128(), 1);
}

#[test]
fn min_positive_normal_decodes_to_reference() {
    // Smallest positive normal: biased exponent 1, zero fraction.
    assert_eq!(triple(F128::min_positive_normal()), (false, 1, 0));
}

#[test]
fn max_value_decodes_to_reference() {
    assert_eq!(triple(F128::max_value()), (false, 0x7FFE, FRAC_ALL_ONES));
}

#[test]
fn min_value_decodes_to_reference() {
    assert_eq!(triple(F128::min_value()), (true, 0x7FFE, FRAC_ALL_ONES));
}

#[test]
fn infinities_decode_to_reference() {
    assert_eq!(triple(F128::infinity()), (false, 0x7FFF, 0));
    assert_eq!(triple(F128::neg_infinity()), (true, 0x7FFF, 0));
}

#[test]
fn nan_decodes_to_reference() {
    assert_eq!(triple(F128::nan()), (false, 0x7FFF, FRAC_ALL_ONES));
}

#[test]
fn e_decodes_to_reference() {
    assert_eq!(
        triple(F128::E()),
        (false, 16384, 0x5BF0A8B1457695355FB8AC404E7A)
    );
}

#[test]
fn pi_decodes_to_reference() {
    assert_eq!(
        triple(F128::PI()),
        (false, 16384, 0x921FB54442D18469898CC51701B8)
    );
}

#[test]
fn constant_bit_patterns_match_catalogue() {
    assert_eq!(F128::zero().inner_as_u128(), consts::ZERO_BITS);
    assert_eq!(F128::one().inner_as_u128(), consts::ONE_BITS);
    assert_eq!(F128::nan().inner_as_u128(), consts::NAN_BITS);
    assert_eq!(F128::PI().inner_as_u128(), consts::PI_BITS);
    assert_eq!(F128::E().inner_as_u128(), consts::E_BITS);
    assert_eq!(F128::max_value().inner_as_u128(), consts::MAX_BITS);
    assert_eq!(F128::min_value().inner_as_u128(), consts::MIN_BITS);
}

#[test]
fn derived_pi_fractions_match_division() {
    // The derived entries are computed from the stored pi and small integers.
    let pi = F128::PI();
    let two = F128::two();
    assert_eq!(
        F128::FRAC_PI_2().inner_as_u128(),
        pi.div(two).inner_as_u128()
    );
    assert_eq!(
        F128::FRAC_1_PI().inner_as_u128(),
        F128::one().div(pi).inner_as_u128()
    );
    assert_eq!(
        F128::FRAC_2_PI().inner_as_u128(),
        two.div(pi).inner_as_u128()
    );
    let eight = F128::from_u64(8).unwrap();
    assert_eq!(
        F128::FRAC_PI_8().inner_as_u128(),
        pi.div(eight).inner_as_u128()
    );
}

#[test]
fn byte_layout_round_trips_through_native_order() {
    let v = F128::PI();
    let bytes = v.inner();
    let back = F128::from_arr(bytes);
    assert_eq!(back.inner_as_u128(), v.inner_as_u128());
    assert_eq!(v.into_inner(), bytes);
    // And in the other direction: any 16 bytes survive the trip through
    // the value unchanged.
    let raw: [u8; 16] = [9, 8, 7, 6, 5, 4, 3, 2, 1, 0, 255, 254, 253, 252, 251, 250];
    assert_eq!(F128::from_arr(raw).into_inner(), raw);
}

#[test]
fn numeric_parameter_constants_describe_the_format() {
    assert_eq!(consts::RADIX, 2);
    assert_eq!(consts::MANTISSA_DIGITS, 112);
    assert_eq!(consts::MAX_EXP, 16383);
    assert_eq!(consts::MIN_EXP, -16382);
    assert_eq!(consts::MAX_10_EXP, 4932);
    assert_eq!(consts::MIN_10_EXP, -4931);
    // The two exponent bounds agree with the catalogue patterns.
    assert_eq!(F128::min_positive_normal().exp_bits(), 1);
    assert_eq!(
        consts::EXP_BIAS as i32 + consts::MIN_EXP,
        F128::min_positive_normal().exp_bits() as i32
    );
    assert_eq!(F128::max_value().exp_bits(), consts::EXP_BIAS + consts::MAX_EXP);
}

#[test]
fn raw_reinterpretation_is_bit_exact() {
    let bits: u128 = 0x40008000000000000000000000000001;
    let v = F128::from_raw_u128(bits);
    assert_eq!(v.inner_as_u128(), bits);
    assert_eq!(v.inner_as_i128() as u128, bits);
    let w = F128::from_raw_i128(-1);
    assert_eq!(w.inner_as_u128(), u128::MAX);
}
