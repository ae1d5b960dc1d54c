//! Numeric comparison under IEEE 754 rules, decided from the bit pattern.
//!
//! Raw `==` on [`F128`] is bit-pattern equality.  The comparisons here are
//! the numeric ones: a NaN compares equal to nothing, not even to an
//! identical NaN pattern, and the two zeros compare equal although their
//! patterns differ.  For everything else the order of the magnitude bits,
//! read as an unsigned integer, is exactly the order of the magnitudes, so
//! each value is mapped to a signed key — the magnitude, negated when the
//! sign bit is set — and the keys are compared as plain integers.
use vstd::prelude::*;

use crate::classify::{
    exp_of, frac_of, is_nan_bits, is_zero_bits, lemma_bit_fields, mag_of, sign_of,
};
use crate::consts::{MAG_MASK, NAN_BITS, NEG_ZERO_BITS, SIGN_MASK, ZERO_BITS};
use crate::F128;

verus! {

/// The comparison key of a pattern: its magnitude, negated when the sign bit
/// is set.  For every pair of patterns that are not NaN, the numeric order
/// of the two values is the order of their keys; both zeros have key 0.
pub open spec fn key_of(b: u128) -> int {
    if sign_of(b) == 1 {
        -(mag_of(b) as int)
    } else {
        mag_of(b) as int
    }
}

/// IEEE numeric equality: neither side is NaN and the keys agree.
pub open spec fn num_eq_bits(a: u128, b: u128) -> bool {
    !is_nan_bits(a) && !is_nan_bits(b) && key_of(a) == key_of(b)
}

/// IEEE numeric strict order: neither side is NaN and the keys are ordered.
pub open spec fn num_lt_bits(a: u128, b: u128) -> bool {
    !is_nan_bits(a) && !is_nan_bits(b) && key_of(a) < key_of(b)
}

/// IEEE maxNum: the larger argument, or the other one where one is NaN.
/// A numeric tie — identical patterns, or zero against negative zero — is
/// broken by the sign bit, negative zero below positive zero, so that
/// [`max_bits`] and [`min_bits`] together return both arguments.
pub open spec fn max_bits(a: u128, b: u128) -> u128 {
    if is_nan_bits(a) {
        b
    } else if is_nan_bits(b) {
        a
    } else if num_lt_bits(a, b) {
        b
    } else if num_lt_bits(b, a) {
        a
    } else if sign_of(a) == 1 {
        b
    } else {
        a
    }
}

/// IEEE minNum: the smaller argument, or the other one where one is NaN.
/// A numeric tie is broken by the sign bit, mirroring [`max_bits`].
pub open spec fn min_bits(a: u128, b: u128) -> u128 {
    if is_nan_bits(a) {
        b
    } else if is_nan_bits(b) {
        a
    } else if num_lt_bits(a, b) {
        a
    } else if num_lt_bits(b, a) {
        b
    } else if sign_of(a) == 1 {
        a
    } else {
        b
    }
}

/// For two arguments that are not NaN, `min` and `max` together return
/// exactly the two arguments: one each way, never the same one twice.
pub proof fn lemma_min_max_pair(a: u128, b: u128)
    requires
        !is_nan_bits(a),
        !is_nan_bits(b),
    ensures
        (min_bits(a, b) == a && max_bits(a, b) == b) || (min_bits(a, b) == b && max_bits(a, b)
            == a),
{
}

impl F128 {
    /// IEEE numeric equality.  False whenever either side is NaN — also for
    /// two identical NaN patterns — and true for zero against negative zero.
    pub fn num_eq(self, other: Self) -> (r: bool)
        ensures
            r == num_eq_bits(self@, other@),
    {
        proof {
            lemma_bit_fields(self.bits);
            lemma_bit_fields(other.bits);
        }
        if self.is_nan() || other.is_nan() {
            false
        } else {
            let ma = self.bits & MAG_MASK;
            let mb = other.bits & MAG_MASK;
            (ma == 0 && mb == 0) || ((self.bits & SIGN_MASK) == (other.bits & SIGN_MASK) && ma
                == mb)
        }
    }

    /// IEEE numeric strict less-than.  False whenever either side is NaN.
    pub fn num_lt(self, other: Self) -> (r: bool)
        ensures
            r == num_lt_bits(self@, other@),
    {
        proof {
            lemma_bit_fields(self.bits);
            lemma_bit_fields(other.bits);
        }
        if self.is_nan() || other.is_nan() {
            return false;
        }
        let ma = self.bits & MAG_MASK;
        let mb = other.bits & MAG_MASK;
        let neg_a = self.bits & SIGN_MASK != 0;
        let neg_b = other.bits & SIGN_MASK != 0;
        if neg_a && !neg_b {
            !(ma == 0 && mb == 0)
        } else if !neg_a && !neg_b {
            ma < mb
        } else if neg_a && neg_b {
            mb < ma
        } else {
            false
        }
    }

    /// IEEE numeric less-than-or-equal.  False whenever either side is NaN.
    pub fn num_le(self, other: Self) -> (r: bool)
        ensures
            r == (num_lt_bits(self@, other@) || num_eq_bits(self@, other@)),
    {
        self.num_lt(other) || self.num_eq(other)
    }

    /// IEEE numeric strict greater-than.  False whenever either side is NaN.
    pub fn num_gt(self, other: Self) -> (r: bool)
        ensures
            r == num_lt_bits(other@, self@),
    {
        other.num_lt(self)
    }

    /// IEEE numeric greater-than-or-equal.  False whenever either side is NaN.
    pub fn num_ge(self, other: Self) -> (r: bool)
        ensures
            r == (num_lt_bits(other@, self@) || num_eq_bits(other@, self@)),
    {
        other.num_le(self)
    }

    /// The larger of the two values under IEEE maxNum semantics: where one
    /// argument is NaN, the other is returned, and a numeric tie is broken
    /// by the sign bit — so `max` and [`F128::min`] together always return
    /// both operands, positive zero above negative zero.
    pub fn max(self, other: Self) -> (r: Self)
        ensures
            r@ == max_bits(self@, other@),
    {
        if self.is_nan() {
            other
        } else if other.is_nan() {
            self
        } else if self.num_lt(other) {
            other
        } else if other.num_lt(self) {
            self
        } else if self.is_sign_negative() {
            other
        } else {
            self
        }
    }

    /// The smaller of the two values under IEEE minNum semantics: where one
    /// argument is NaN, the other is returned, and a numeric tie is broken
    /// by the sign bit, mirroring [`F128::max`].
    pub fn min(self, other: Self) -> (r: Self)
        ensures
            r@ == min_bits(self@, other@),
    {
        if self.is_nan() {
            other
        } else if other.is_nan() {
            self
        } else if self.num_lt(other) {
            self
        } else if other.num_lt(self) {
            other
        } else if self.is_sign_negative() {
            self
        } else {
            other
        }
    }
}

/// For two values that are not NaN the numeric comparison is total: exactly
/// one of less-than, equal and greater-than holds.
pub proof fn lemma_num_cmp_trichotomy(a: u128, b: u128)
    requires
        !is_nan_bits(a),
        !is_nan_bits(b),
    ensures
        num_lt_bits(a, b) || num_eq_bits(a, b) || num_lt_bits(b, a),
        !(num_lt_bits(a, b) && num_eq_bits(a, b)),
        !(num_lt_bits(a, b) && num_lt_bits(b, a)),
        !(num_eq_bits(a, b) && num_lt_bits(b, a)),
{
}

/// The canonical NaN pattern is a NaN, and under IEEE comparison it does not
/// equal itself, although the two raw bit patterns compared are identical.
pub proof fn lemma_nan_ne_itself()
    ensures
        is_nan_bits(NAN_BITS),
        !num_eq_bits(NAN_BITS, NAN_BITS),
{
    assert(exp_of(NAN_BITS) == 0x7FFF && frac_of(NAN_BITS) != 0) by (bit_vector);
}

/// Zero and negative zero compare numerically equal, yet their raw patterns
/// differ, and so do their sign bits.
pub proof fn lemma_signed_zeros()
    ensures
        num_eq_bits(ZERO_BITS, NEG_ZERO_BITS),
        ZERO_BITS != NEG_ZERO_BITS,
        sign_of(ZERO_BITS) == 0,
        sign_of(NEG_ZERO_BITS) == 1,
        is_zero_bits(ZERO_BITS),
        is_zero_bits(NEG_ZERO_BITS),
{
    assert(sign_of(ZERO_BITS) == 0 && mag_of(ZERO_BITS) == 0 && exp_of(ZERO_BITS) == 0 && frac_of(
        ZERO_BITS,
    ) == 0) by (bit_vector);
    assert(sign_of(NEG_ZERO_BITS) == 1 && mag_of(NEG_ZERO_BITS) == 0 && exp_of(NEG_ZERO_BITS) == 0
        && frac_of(NEG_ZERO_BITS) == 0) by (bit_vector);
}

} // verus!
