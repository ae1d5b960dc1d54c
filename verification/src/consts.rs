//! The catalogue of named constants, each an exact binary128 bit pattern.
//!
//! The patterns are written most-significant bit first, as 128-bit integers,
//! so a reader can check each one against the IEEE 754-2008 reference
//! encoding digit by digit: the top bit is the sign, the next 15 bits the
//! biased exponent, the low 112 bits the stored fraction.
use vstd::prelude::*;

use crate::classify::{exp_of, frac_of, sign_of};
use crate::F128;

verus! {

/// Mask of the sign bit.
pub const SIGN_MASK: u128 = 0x80000000000000000000000000000000u128;

/// Mask of the 15 exponent bits, in place.
pub const EXP_MASK: u128 = 0x7FFF0000000000000000000000000000u128;

/// Numeric weight of one unit of the exponent field: 2^112.
pub const FRAC_WEIGHT: u128 = 0x10000000000000000000000000000u128;

/// Mask of the 112 fraction bits.
pub const FRAC_MASK: u128 = 0x0000FFFFFFFFFFFFFFFFFFFFFFFFFFFFu128;

/// Mask of everything but the sign bit: the magnitude bits.
pub const MAG_MASK: u128 = 0x7FFFFFFFFFFFFFFFFFFFFFFFFFFFFFFFu128;

/// Biased exponent of a value with unbiased exponent 0 (the bias).
pub const EXP_BIAS: u32 = 16383;

/// Largest biased exponent of a finite value.
pub const EXP_MAX_FINITE: u32 = 0x7FFE;

/// Biased exponent field of infinities and NaNs (all ones).
pub const EXP_ALL_ONES: u32 = 0x7FFF;

/// The radix of the significand: binary128 is a base-2 format.
pub const RADIX: u32 = 2;

/// The stored fraction digits: 112 bits, the implicit integer bit not
/// counted — one less than the format's 113-bit precision.
pub const MANTISSA_DIGITS: u32 = 112;

/// The largest unbiased exponent of a finite value: the largest finite
/// value lies in [2^16383, 2^16384).
pub const MAX_EXP: u32 = 16383;

/// The smallest unbiased exponent of a normal value: the smallest positive
/// normal value is 2^-16382.
pub const MIN_EXP: i32 = -16382;

/// The largest decimal exponent of a finite value: the largest finite
/// value is just under 1.19e4932.
pub const MAX_10_EXP: u32 = 4932;

/// The smallest decimal exponent of a normal value: the smallest positive
/// normal value is about 3.36e-4932.
pub const MIN_10_EXP: i32 = -4931;

/// Positive zero: all bits clear.
pub const ZERO_BITS: u128 = 0;

/// Negative zero: only the sign bit set.
pub const NEG_ZERO_BITS: u128 = 0x80000000000000000000000000000000u128;

/// One: biased exponent 16383, zero fraction.
pub const ONE_BITS: u128 = 0x3FFF0000000000000000000000000000u128;

/// Two: biased exponent 16384, zero fraction.
pub const TWO_BITS: u128 = 0x40000000000000000000000000000000u128;

/// Negative one: one with the sign bit set.
pub const NEG_ONE_BITS: u128 = 0xBFFF0000000000000000000000000000u128;

/// Machine epsilon, 2^-112: the gap between one and the next larger value.
pub const EPSILON_BITS: u128 = 0x3F8F0000000000000000000000000000u128;

/// Smallest positive normal value, 2^-16382.
pub const MIN_POSITIVE_NORMAL_BITS: u128 = 0x00010000000000000000000000000000u128;

/// Smallest positive value of all: the subnormal 2^-16494, raw pattern 1.
pub const MIN_POSITIVE_BITS: u128 = 1;

/// Largest finite value: biased exponent 0x7FFE, fraction all ones.
pub const MAX_BITS: u128 = 0x7FFEFFFFFFFFFFFFFFFFFFFFFFFFFFFFu128;

/// Most negative finite value: the largest finite value with the sign bit set.
pub const MIN_BITS: u128 = 0xFFFEFFFFFFFFFFFFFFFFFFFFFFFFFFFFu128;

/// Positive infinity: exponent all ones, zero fraction.
pub const INFINITY_BITS: u128 = 0x7FFF0000000000000000000000000000u128;

/// Negative infinity: positive infinity with the sign bit set.
pub const NEG_INFINITY_BITS: u128 = 0xFFFF0000000000000000000000000000u128;

/// The canonical NaN pattern of this library: sign clear, every other bit set.
/// Any pattern with exponent all ones and a nonzero fraction is a valid NaN.
pub const NAN_BITS: u128 = 0x7FFFFFFFFFFFFFFFFFFFFFFFFFFFFFFFu128;

/// Euler's number e, rounded to binary128 precision.
pub const E_BITS: u128 = 0x40005BF0A8B1457695355FB8AC404E7Au128;

/// The circle constant pi, rounded to binary128 precision.
pub const PI_BITS: u128 = 0x4000921FB54442D18469898CC51701B8u128;

/// Every named constant decodes to the IEEE 754-2008 binary128 reference
/// triple — sign bit, biased exponent field, fraction field — of the value
/// it names, independent of how the bytes are laid out on the platform:
/// the fields are read from the 128-bit pattern itself.
pub proof fn lemma_constants_decode()
    ensures
        sign_of(ZERO_BITS) == 0 && exp_of(ZERO_BITS) == 0 && frac_of(ZERO_BITS) == 0,
        sign_of(NEG_ZERO_BITS) == 1 && exp_of(NEG_ZERO_BITS) == 0 && frac_of(NEG_ZERO_BITS) == 0,
        sign_of(ONE_BITS) == 0 && exp_of(ONE_BITS) == 16383 && frac_of(ONE_BITS) == 0,
        sign_of(NEG_ONE_BITS) == 1 && exp_of(NEG_ONE_BITS) == 16383 && frac_of(NEG_ONE_BITS) == 0,
        sign_of(TWO_BITS) == 0 && exp_of(TWO_BITS) == 16384 && frac_of(TWO_BITS) == 0,
        sign_of(EPSILON_BITS) == 0 && exp_of(EPSILON_BITS) == 16383 - 112 && frac_of(EPSILON_BITS)
            == 0,
        sign_of(MIN_POSITIVE_NORMAL_BITS) == 0 && exp_of(MIN_POSITIVE_NORMAL_BITS) == 1 && frac_of(
            MIN_POSITIVE_NORMAL_BITS,
        ) == 0,
        sign_of(MIN_POSITIVE_BITS) == 0 && exp_of(MIN_POSITIVE_BITS) == 0 && frac_of(
            MIN_POSITIVE_BITS,
        ) == 1,
        sign_of(MAX_BITS) == 0 && exp_of(MAX_BITS) == 0x7FFE && frac_of(MAX_BITS) == FRAC_MASK,
        sign_of(MIN_BITS) == 1 && exp_of(MIN_BITS) == 0x7FFE && frac_of(MIN_BITS) == FRAC_MASK,
        sign_of(INFINITY_BITS) == 0 && exp_of(INFINITY_BITS) == 0x7FFF && frac_of(INFINITY_BITS)
            == 0,
        sign_of(NEG_INFINITY_BITS) == 1 && exp_of(NEG_INFINITY_BITS) == 0x7FFF && frac_of(
            NEG_INFINITY_BITS,
        ) == 0,
        sign_of(NAN_BITS) == 0 && exp_of(NAN_BITS) == 0x7FFF && frac_of(NAN_BITS) == FRAC_MASK,
        sign_of(E_BITS) == 0 && exp_of(E_BITS) == 16384 && frac_of(E_BITS)
            == 0x5BF0A8B1457695355FB8AC404E7Au128,
        sign_of(PI_BITS) == 0 && exp_of(PI_BITS) == 16384 && frac_of(PI_BITS)
            == 0x921FB54442D18469898CC51701B8u128,
{
    assert(sign_of(ZERO_BITS) == 0 && exp_of(ZERO_BITS) == 0 && frac_of(ZERO_BITS) == 0)
        by (bit_vector);
    assert(sign_of(NEG_ZERO_BITS) == 1 && exp_of(NEG_ZERO_BITS) == 0 && frac_of(NEG_ZERO_BITS)
        == 0) by (bit_vector);
    assert(sign_of(ONE_BITS) == 0 && exp_of(ONE_BITS) == 16383 && frac_of(ONE_BITS) == 0)
        by (bit_vector);
    assert(sign_of(NEG_ONE_BITS) == 1 && exp_of(NEG_ONE_BITS) == 16383 && frac_of(NEG_ONE_BITS)
        == 0) by (bit_vector);
    assert(sign_of(TWO_BITS) == 0 && exp_of(TWO_BITS) == 16384 && frac_of(TWO_BITS) == 0)
        by (bit_vector);
    assert(sign_of(EPSILON_BITS) == 0 && exp_of(EPSILON_BITS) == 16271 && frac_of(EPSILON_BITS)
        == 0) by (bit_vector);
    assert(sign_of(MIN_POSITIVE_NORMAL_BITS) == 0 && exp_of(MIN_POSITIVE_NORMAL_BITS) == 1
        && frac_of(MIN_POSITIVE_NORMAL_BITS) == 0) by (bit_vector);
    assert(sign_of(MIN_POSITIVE_BITS) == 0 && exp_of(MIN_POSITIVE_BITS) == 0 && frac_of(
        MIN_POSITIVE_BITS,
    ) == 1) by (bit_vector);
    assert(sign_of(MAX_BITS) == 0 && exp_of(MAX_BITS) == 0x7FFE && frac_of(MAX_BITS) == FRAC_MASK)
        by (bit_vector);
    assert(sign_of(MIN_BITS) == 1 && exp_of(MIN_BITS) == 0x7FFE && frac_of(MIN_BITS) == FRAC_MASK)
        by (bit_vector);
    assert(sign_of(INFINITY_BITS) == 0 && exp_of(INFINITY_BITS) == 0x7FFF && frac_of(INFINITY_BITS)
        == 0) by (bit_vector);
    assert(sign_of(NEG_INFINITY_BITS) == 1 && exp_of(NEG_INFINITY_BITS) == 0x7FFF && frac_of(
        NEG_INFINITY_BITS,
    ) == 0) by (bit_vector);
    assert(sign_of(NAN_BITS) == 0 && exp_of(NAN_BITS) == 0x7FFF && frac_of(NAN_BITS) == FRAC_MASK)
        by (bit_vector);
    assert(sign_of(E_BITS) == 0 && exp_of(E_BITS) == 16384 && frac_of(E_BITS)
        == 0x5BF0A8B1457695355FB8AC404E7Au128) by (bit_vector);
    assert(sign_of(PI_BITS) == 0 && exp_of(PI_BITS) == 16384 && frac_of(PI_BITS)
        == 0x921FB54442D18469898CC51701B8u128) by (bit_vector);
}

impl F128 {
    /// Positive zero, the additive identity.
    pub fn zero() -> (r: Self)
        ensures
            r@ == ZERO_BITS,
    {
        F128 { bits: ZERO_BITS }
    }

    /// Negative zero: numerically equal to zero, byte-distinct from it.
    pub fn neg_zero() -> (r: Self)
        ensures
            r@ == NEG_ZERO_BITS,
    {
        F128 { bits: NEG_ZERO_BITS }
    }

    /// One, the multiplicative identity.
    pub fn one() -> (r: Self)
        ensures
            r@ == ONE_BITS,
    {
        F128 { bits: ONE_BITS }
    }

    /// Two.
    pub fn two() -> (r: Self)
        ensures
            r@ == TWO_BITS,
    {
        F128 { bits: TWO_BITS }
    }

    /// Machine epsilon.
    pub fn epsilon() -> (r: Self)
        ensures
            r@ == EPSILON_BITS,
    {
        F128 { bits: EPSILON_BITS }
    }

    /// The smallest positive value: the subnormal with raw pattern 1.
    /// Note that this is below the smallest positive *normal* value that
    /// the generic float surface's wording suggests; that one is
    /// [`F128::min_positive_normal`].
    pub fn min_positive_value() -> (r: Self)
        ensures
            r@ == MIN_POSITIVE_BITS,
    {
        F128 { bits: MIN_POSITIVE_BITS }
    }

    /// The smallest positive normal value.
    pub fn min_positive_normal() -> (r: Self)
        ensures
            r@ == MIN_POSITIVE_NORMAL_BITS,
    {
        F128 { bits: MIN_POSITIVE_NORMAL_BITS }
    }

    /// The largest finite value.
    pub fn max_value() -> (r: Self)
        ensures
            r@ == MAX_BITS,
    {
        F128 { bits: MAX_BITS }
    }

    /// The most negative finite value.
    pub fn min_value() -> (r: Self)
        ensures
            r@ == MIN_BITS,
    {
        F128 { bits: MIN_BITS }
    }

    /// Positive infinity.
    pub fn infinity() -> (r: Self)
        ensures
            r@ == INFINITY_BITS,
    {
        F128 { bits: INFINITY_BITS }
    }

    /// Negative infinity.
    pub fn neg_infinity() -> (r: Self)
        ensures
            r@ == NEG_INFINITY_BITS,
    {
        F128 { bits: NEG_INFINITY_BITS }
    }

    /// The canonical NaN pattern.
    pub fn nan() -> (r: Self)
        ensures
            r@ == NAN_BITS,
    {
        F128 { bits: NAN_BITS }
    }

    /// Euler's number e.
    #[allow(non_snake_case)]
    pub fn E() -> (r: Self)
        ensures
            r@ == E_BITS,
    {
        F128 { bits: E_BITS }
    }

    /// The circle constant pi.
    #[allow(non_snake_case)]
    pub fn PI() -> (r: Self)
        ensures
            r@ == PI_BITS,
    {
        F128 { bits: PI_BITS }
    }

    /// The Zero-trait test, answered from the classifier: true of both
    /// zeros, the numeric reading under which negative zero is zero too.
    /// Raw equality with the positive zero pattern is `v == F128::zero()`
    /// on the derived `==`.
    pub fn is_zero(&self) -> (r: bool)
        ensures
            r == crate::classify::is_zero_bits(self@),
    {
        self.is_zero_value()
    }

    /// The reciprocal of pi, computed by dividing one by the stored pi.
    #[allow(non_snake_case)]
    pub fn FRAC_1_PI() -> (r: Self)
        ensures
            r@ == crate::arith::quad_div(ONE_BITS, PI_BITS),
    {
        F128::PI().recip()
    }

    /// Two over pi, computed from the stored constants.
    #[allow(non_snake_case)]
    pub fn FRAC_2_PI() -> (r: Self)
        ensures
            r@ == crate::arith::quad_div(TWO_BITS, PI_BITS),
    {
        F128::two().div(F128::PI())
    }

    /// Half pi, computed by dividing the stored pi by two.
    #[allow(non_snake_case)]
    pub fn FRAC_PI_2() -> (r: Self)
        ensures
            r@ == crate::arith::quad_div(PI_BITS, TWO_BITS),
    {
        F128::PI().div(F128::two())
    }

    /// A third of pi, computed by dividing the stored pi by three.
    #[allow(non_snake_case)]
    pub fn FRAC_PI_3() -> (r: Self)
        ensures
            r@ == crate::arith::quad_div(PI_BITS, crate::convert::quad_of_u128(3)),
    {
        let three = F128::from_u128(3).unwrap();
        F128::PI().div(three)
    }

    /// A quarter of pi, computed by dividing the stored pi by four.
    #[allow(non_snake_case)]
    pub fn FRAC_PI_4() -> (r: Self)
        ensures
            r@ == crate::arith::quad_div(PI_BITS, crate::convert::quad_of_u128(4)),
    {
        let four = F128::from_u128(4).unwrap();
        F128::PI().div(four)
    }

    /// A sixth of pi, computed by dividing the stored pi by six.
    #[allow(non_snake_case)]
    pub fn FRAC_PI_6() -> (r: Self)
        ensures
            r@ == crate::arith::quad_div(PI_BITS, crate::convert::quad_of_u128(6)),
    {
        let six = F128::from_u128(6).unwrap();
        F128::PI().div(six)
    }

    /// An eighth of pi, computed by dividing the stored pi by eight.
    #[allow(non_snake_case)]
    pub fn FRAC_PI_8() -> (r: Self)
        ensures
            r@ == crate::arith::quad_div(PI_BITS, crate::convert::quad_of_u128(8)),
    {
        let eight = F128::from_u128(8).unwrap();
        F128::PI().div(eight)
    }
}

} // verus!
