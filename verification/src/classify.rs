//! The classifier: pure bit-mask predicates over the 128-bit pattern.
//!
//! The specification-level decomposition reads the three fields of the
//! pattern — sign, biased exponent, fraction — by shift and mask, and every
//! predicate is defined from those fields exactly as IEEE 754-2008 defines
//! the categories.  The executable code tests the same conditions the way
//! the format makes cheap, by comparing the magnitude bits against the
//! all-exponent-ones pattern; the bit-vector lemmas below tie the two
//! together.
use vstd::prelude::*;

use crate::consts::{EXP_MASK, FRAC_MASK, FRAC_WEIGHT, MAG_MASK, SIGN_MASK};
use crate::F128;

verus! {

/// The sign bit of the pattern: 0 or 1.
pub open spec fn sign_of(b: u128) -> u128 {
    b >> 127
}

/// The 15-bit biased exponent field, shifted down to a plain integer.
pub open spec fn exp_of(b: u128) -> u128 {
    (b >> 112) & 0x7FFF
}

/// The 112-bit fraction field, in place.
pub open spec fn frac_of(b: u128) -> u128 {
    b & FRAC_MASK
}

/// The magnitude bits: everything except the sign.
pub open spec fn mag_of(b: u128) -> u128 {
    b & MAG_MASK
}

/// NaN: exponent all ones and a nonzero fraction, whatever the sign.
pub open spec fn is_nan_bits(b: u128) -> bool {
    exp_of(b) == 0x7FFF && frac_of(b) != 0
}

/// Infinity of either sign: exponent all ones, zero fraction.
pub open spec fn is_inf_bits(b: u128) -> bool {
    exp_of(b) == 0x7FFF && frac_of(b) == 0
}

/// Zero of either sign: exponent zero, zero fraction.
pub open spec fn is_zero_bits(b: u128) -> bool {
    exp_of(b) == 0 && frac_of(b) == 0
}

/// Subnormal: exponent zero, nonzero fraction.
pub open spec fn is_subnormal_bits(b: u128) -> bool {
    exp_of(b) == 0 && frac_of(b) != 0
}

/// Normal: exponent field in the closed range [1, 0x7FFE].
pub open spec fn is_normal_bits(b: u128) -> bool {
    1 <= exp_of(b) && exp_of(b) <= 0x7FFE
}

/// Finite: neither NaN nor an infinity.
pub open spec fn is_finite_bits(b: u128) -> bool {
    !is_nan_bits(b) && !is_inf_bits(b)
}

/// The category a value belongs to.  Exactly one holds of every pattern.
#[derive(Clone, Copy, PartialEq, Eq, Structural, Debug)]
pub enum FpCategory {
    Nan,
    Infinite,
    Zero,
    Subnormal,
    Normal,
}

/// The category of a pattern, decided from its exponent and fraction fields.
pub open spec fn classify_bits(b: u128) -> FpCategory {
    if is_nan_bits(b) {
        FpCategory::Nan
    } else if is_inf_bits(b) {
        FpCategory::Infinite
    } else if is_zero_bits(b) {
        FpCategory::Zero
    } else if is_subnormal_bits(b) {
        FpCategory::Subnormal
    } else {
        FpCategory::Normal
    }
}

/// Facts tying the mask-level reading of a pattern to its field-level
/// decomposition: field bounds, the magnitude as exponent-and-fraction, and
/// the magnitude tests that the executable predicates use.
pub proof fn lemma_bit_fields(b: u128)
    by (bit_vector)
    ensures
        exp_of(b) <= 0x7FFF,
        frac_of(b) <= FRAC_MASK,
        sign_of(b) == 0 || sign_of(b) == 1,
        (sign_of(b) == 1) <==> (b & SIGN_MASK != 0),
        mag_of(b) == exp_of(b) * FRAC_WEIGHT + frac_of(b),
        (mag_of(b) > EXP_MASK) <==> (exp_of(b) == 0x7FFF && frac_of(b) != 0),
        (mag_of(b) == EXP_MASK) <==> (exp_of(b) == 0x7FFF && frac_of(b) == 0),
        (mag_of(b) == 0) <==> (exp_of(b) == 0 && frac_of(b) == 0),
        exp_of(b & MAG_MASK) == exp_of(b),
        frac_of(b & MAG_MASK) == frac_of(b),
        sign_of(b & MAG_MASK) == 0,
        exp_of(b ^ SIGN_MASK) == exp_of(b),
        frac_of(b ^ SIGN_MASK) == frac_of(b),
        sign_of(b ^ SIGN_MASK) == 1 - sign_of(b),
        b == sign_of(b) * SIGN_MASK + mag_of(b),
{
}

/// Exactly one of the five categories holds of every 128-bit pattern, and
/// the boundary exponent fields land where IEEE 754-2008 puts them.
pub proof fn lemma_classify_partition(b: u128)
    ensures
        is_zero_bits(b) || is_subnormal_bits(b) || is_normal_bits(b) || is_inf_bits(b)
            || is_nan_bits(b),
        classify_bits(b) == FpCategory::Zero <==> is_zero_bits(b),
        classify_bits(b) == FpCategory::Subnormal <==> is_subnormal_bits(b),
        classify_bits(b) == FpCategory::Normal <==> is_normal_bits(b),
        classify_bits(b) == FpCategory::Infinite <==> is_inf_bits(b),
        classify_bits(b) == FpCategory::Nan <==> is_nan_bits(b),
        exp_of(b) == 0 ==> classify_bits(b) == FpCategory::Zero || classify_bits(b)
            == FpCategory::Subnormal,
        exp_of(b) == 1 ==> classify_bits(b) == FpCategory::Normal,
        exp_of(b) == 0x7FFE ==> classify_bits(b) == FpCategory::Normal,
        exp_of(b) == 0x7FFF ==> classify_bits(b) == FpCategory::Infinite || classify_bits(b)
            == FpCategory::Nan,
{
    lemma_bit_fields(b);
}

impl F128 {
    /// The 15-bit biased exponent field, as a plain integer.
    pub fn exp_bits(&self) -> (r: u32)
        ensures
            r == exp_of(self@),
    {
        let b = self.bits;
        proof {
            lemma_bit_fields(b);
            assert((b & EXP_MASK) >> 112 == exp_of(b)) by (bit_vector);
        }
        ((b & EXP_MASK) >> 112) as u32
    }

    /// The 112-bit fraction field, left in place.
    pub fn fract_bits(&self) -> (r: u128)
        ensures
            r == frac_of(self@),
    {
        self.bits & FRAC_MASK
    }

    /// True iff the sign bit is set.  Signed zeros and signed NaNs carry a
    /// meaningful sign bit even though numeric comparison treats them
    /// specially.
    pub fn is_sign_negative(self) -> (r: bool)
        ensures
            r == (sign_of(self@) == 1),
    {
        proof {
            lemma_bit_fields(self.bits);
        }
        self.bits & SIGN_MASK != 0
    }

    /// True iff the sign bit is clear.
    pub fn is_sign_positive(self) -> (r: bool)
        ensures
            r == (sign_of(self@) == 0),
    {
        proof {
            lemma_bit_fields(self.bits);
        }
        self.bits & SIGN_MASK == 0
    }

    /// True iff the value is a NaN: the magnitude bits strictly exceed the
    /// all-exponent-ones-with-zero-fraction pattern.  The sign is irrelevant.
    pub fn is_nan(self) -> (r: bool)
        ensures
            r == is_nan_bits(self@),
    {
        proof {
            lemma_bit_fields(self.bits);
        }
        (self.bits & MAG_MASK) > EXP_MASK
    }

    /// True iff the value is an infinity of either sign: the magnitude bits
    /// exactly equal the all-exponent-ones-with-zero-fraction pattern.
    pub fn is_infinite(self) -> (r: bool)
        ensures
            r == is_inf_bits(self@),
    {
        proof {
            lemma_bit_fields(self.bits);
        }
        (self.bits & MAG_MASK) == EXP_MASK
    }

    /// True iff the value is neither an infinity nor NaN.
    pub fn is_finite(self) -> (r: bool)
        ensures
            r == is_finite_bits(self@),
    {
        !self.is_infinite() && !self.is_nan()
    }

    /// True iff the value is normal: exponent field in [1, 0x7FFE].
    pub fn is_normal(self) -> (r: bool)
        ensures
            r == is_normal_bits(self@),
    {
        let exp = self.exp_bits();
        exp >= 0x0001u32 && exp <= 0x7FFEu32
    }

    /// True iff the value is zero of either sign.
    pub fn is_zero_value(self) -> (r: bool)
        ensures
            r == is_zero_bits(self@),
    {
        proof {
            lemma_bit_fields(self.bits);
        }
        (self.bits & MAG_MASK) == 0
    }

    /// The category of the value: exactly one of the five, decided by the
    /// exponent and fraction fields alone.
    pub fn classify(self) -> (r: FpCategory)
        ensures
            r == classify_bits(self@),
    {
        proof {
            lemma_classify_partition(self.bits);
        }
        if self.is_nan() {
            FpCategory::Nan
        } else if self.is_infinite() {
            FpCategory::Infinite
        } else if self.is_normal() {
            FpCategory::Normal
        } else if self.fract_bits() != 0 {
            FpCategory::Subnormal
        } else {
            FpCategory::Zero
        }
    }

    /// True iff the sign bit is clear (the `Signed` reading of positivity).
    pub fn is_positive(&self) -> (r: bool)
        ensures
            r == (sign_of(self@) == 0),
    {
        self.is_sign_positive()
    }

    /// True iff the sign bit is set (the `Signed` reading of negativity).
    pub fn is_negative(&self) -> (r: bool)
        ensures
            r == (sign_of(self@) == 1),
    {
        self.is_sign_negative()
    }
}

} // verus!
