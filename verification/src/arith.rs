//! Arithmetic and rounding on binary128 values.
//!
//! The computation itself — addition, subtraction, multiplication, division,
//! fused multiply-add, rounding to an integral value and exponent splitting —
//! is delegated to `rustc_apfloat`'s software binary128 routines.  Each
//! routine is a pure function of its 128-bit arguments, so its result is
//! given a name here, and everything layered on top (negation, absolute
//! value, sign, reciprocal, the integer power loop) is verified against
//! those names.  Domain errors are signalled the IEEE way, by NaN or
//! infinity results that flow through unchanged.
use vstd::prelude::*;

use rustc_apfloat::ieee::Quad;
use rustc_apfloat::Float;
use rustc_apfloat::Round;

use crate::classify::{
    exp_of, frac_of, is_finite_bits, is_inf_bits, is_nan_bits, is_normal_bits, is_zero_bits,
    sign_of,
};
use crate::consts::{MAG_MASK, NEG_ONE_BITS, ONE_BITS, SIGN_MASK};
use crate::F128;

verus! {

/// The bit pattern of the rounded sum of the two values whose patterns are
/// given, under round-to-nearest-ties-to-even.
pub uninterp spec fn quad_add(a: u128, b: u128) -> u128;

/// The bit pattern of the rounded difference of the two values.
pub uninterp spec fn quad_sub(a: u128, b: u128) -> u128;

/// The bit pattern of the rounded product of the two values.
pub uninterp spec fn quad_mul(a: u128, b: u128) -> u128;

/// The bit pattern of the rounded quotient of the two values.
pub uninterp spec fn quad_div(a: u128, b: u128) -> u128;

/// The bit pattern of the fused multiply-add `a * b + c`, rounded once.
pub uninterp spec fn quad_fma(a: u128, b: u128, c: u128) -> u128;

/// The bit pattern of the value rounded to an integral value in the given
/// direction.
pub uninterp spec fn quad_round_int(b: u128, mode: RoundDir) -> u128;

/// The significand that the exponent-splitting decomposition (the C
/// `frexp`) hands back for the value: the normalized fraction of magnitude
/// in [0.5, 1) that a power of two scales to the value.
pub uninterp spec fn quad_frexp_sig(b: u128) -> u128;

/// A rounding direction for [`F128::round_with`]: toward negative infinity,
/// toward positive infinity, to the nearest integral value with ties away
/// from zero, or toward zero.
#[derive(Clone, Copy, PartialEq, Eq, Structural, Debug)]
pub enum RoundDir {
    Down,
    Up,
    Nearest,
    TowardZero,
}

/// Relies on `rustc_apfloat`'s binary128 addition (`Quad::add_r`, rounding
/// to nearest, ties to even): a pure function of the two bit patterns.
#[verifier::external_body]
fn apf_add(a: u128, b: u128) -> (r: u128)
    ensures
        r == quad_add(a, b),
{
    (Quad::from_bits(a) + Quad::from_bits(b)).value.to_bits()
}

/// Relies on `rustc_apfloat`'s binary128 subtraction (`Quad::sub_r`): a pure
/// function of the two bit patterns.
#[verifier::external_body]
fn apf_sub(a: u128, b: u128) -> (r: u128)
    ensures
        r == quad_sub(a, b),
{
    (Quad::from_bits(a) - Quad::from_bits(b)).value.to_bits()
}

/// Relies on `rustc_apfloat`'s binary128 multiplication (`Quad::mul_r`): a
/// pure function of the two bit patterns.
#[verifier::external_body]
fn apf_mul(a: u128, b: u128) -> (r: u128)
    ensures
        r == quad_mul(a, b),
{
    (Quad::from_bits(a) * Quad::from_bits(b)).value.to_bits()
}

/// Relies on `rustc_apfloat`'s binary128 division (`Quad::div_r`): a pure
/// function of the two bit patterns.
#[verifier::external_body]
fn apf_div(a: u128, b: u128) -> (r: u128)
    ensures
        r == quad_div(a, b),
{
    (Quad::from_bits(a) / Quad::from_bits(b)).value.to_bits()
}

/// Relies on `rustc_apfloat`'s binary128 fused multiply-add
/// (`Quad::mul_add`): `a * b + c` with a single rounding, a pure function of
/// the three bit patterns.
#[verifier::external_body]
fn apf_fma(a: u128, b: u128, c: u128) -> (r: u128)
    ensures
        r == quad_fma(a, b, c),
{
    Quad::from_bits(a).mul_add(Quad::from_bits(b), Quad::from_bits(c)).value.to_bits()
}

/// Relies on `rustc_apfloat`'s `Quad::round_to_integral`: rounds to an
/// integral value in the asked direction; zeros and infinities come back
/// unchanged, as its source shows.
#[verifier::external_body]
fn apf_round_int(b: u128, mode: RoundDir) -> (r: u128)
    ensures
        r == quad_round_int(b, mode),
        is_zero_bits(b) ==> r == b,
        is_inf_bits(b) ==> r == b,
{
    let m = match mode {
        RoundDir::Down => Round::TowardNegative,
        RoundDir::Up => Round::TowardPositive,
        RoundDir::Nearest => Round::NearestTiesToAway,
        RoundDir::TowardZero => Round::TowardZero,
    };
    Quad::from_bits(b).round_to_integral(m).value.to_bits()
}

/// Relies on `rustc_apfloat`'s `Quad::frexp`: the significand part of the
/// exponent-splitting decomposition, a pure function of the bit pattern.
/// Its source shows that a finite nonzero input is scaled, exactly, to a
/// magnitude in [0.5, 1) with its sign kept — a normal value with biased
/// exponent 16382 — that a normal input keeps its whole fraction field
/// (only the exponent moves), and that an infinity comes back unchanged.
#[verifier::external_body]
fn apf_frexp_sig(b: u128) -> (r: u128)
    ensures
        r == quad_frexp_sig(b),
        is_finite_bits(b) && !is_zero_bits(b) ==> exp_of(r) == 16382 && sign_of(r) == sign_of(b),
        is_normal_bits(b) ==> frac_of(r) == frac_of(b),
        is_inf_bits(b) ==> r == b,
{
    let mut e: i32 = 0;
    Quad::from_bits(b).frexp(&mut e).to_bits()
}

/// The sign of a value: itself for NaN, one for a clear sign bit, negative
/// one for a set sign bit.  Both zeros have a sign of magnitude one.
pub open spec fn signum_bits(b: u128) -> u128 {
    if is_nan_bits(b) {
        b
    } else if sign_of(b) == 0 {
        ONE_BITS
    } else {
        NEG_ONE_BITS
    }
}

/// The chain of repeated multiplications that the integer power loop
/// produces for a positive exponent: `k` copies of `x` multiplied together,
/// left to right.
pub open spec fn powi_pos(x: u128, k: nat) -> u128
    decreases k,
{
    if k <= 1 {
        x
    } else {
        quad_mul(powi_pos(x, (k - 1) as nat), x)
    }
}

/// The chain of repeated divisions that the integer power loop produces for
/// a negative exponent: `x` divided by `x`, `k` times, left to right.
pub open spec fn powi_neg(x: u128, k: nat) -> u128
    decreases k,
{
    if k == 0 {
        x
    } else {
        quad_div(powi_neg(x, (k - 1) as nat), x)
    }
}

/// The integer power: exactly one for exponent zero, the repeated-product
/// chain for a positive exponent, and the repeated-division chain — `x`
/// divided by itself `1 - n` times — for a negative one.
pub open spec fn powi_bits(x: u128, n: int) -> u128 {
    if n == 0 {
        ONE_BITS
    } else if n > 0 {
        powi_pos(x, n as nat)
    } else {
        powi_neg(x, (1 - n) as nat)
    }
}

/// Raising any value, zero included, to the power zero yields exactly one.
pub proof fn lemma_powi_zero(x: u128)
    ensures
        powi_bits(x, 0) == ONE_BITS,
{
}

/// For a negative exponent the integer power is the repeated-division
/// result itself — one more division of the next power up — and not the
/// reciprocal of the positive power computed along another path.
pub proof fn lemma_powi_negative_is_repeated_division(x: u128, n: int)
    requires
        n < 0,
    ensures
        n == -1 ==> powi_bits(x, n) == quad_div(quad_div(x, x), x),
        n < -1 ==> powi_bits(x, n) == quad_div(powi_bits(x, n + 1), x),
{
    assert(powi_neg(x, 0) == x);
    assert(powi_neg(x, 1) == quad_div(x, x));
    assert(powi_neg(x, 2) == quad_div(powi_neg(x, 1), x));
}

impl F128 {
    /// The rounded sum of the two values.
    pub fn add(self, other: Self) -> (r: Self)
        ensures
            r@ == quad_add(self@, other@),
    {
        F128 { bits: apf_add(self.bits, other.bits) }
    }

    /// The rounded difference of the two values.
    pub fn sub(self, other: Self) -> (r: Self)
        ensures
            r@ == quad_sub(self@, other@),
    {
        F128 { bits: apf_sub(self.bits, other.bits) }
    }

    /// The rounded product of the two values.
    pub fn mul(self, other: Self) -> (r: Self)
        ensures
            r@ == quad_mul(self@, other@),
    {
        F128 { bits: apf_mul(self.bits, other.bits) }
    }

    /// The rounded quotient of the two values.
    pub fn div(self, other: Self) -> (r: Self)
        ensures
            r@ == quad_div(self@, other@),
    {
        F128 { bits: apf_div(self.bits, other.bits) }
    }

    /// Fused multiply-add: `self * a + b` with a single rounding.
    pub fn mul_add(self, a: Self, b: Self) -> (r: Self)
        ensures
            r@ == quad_fma(self@, a@, b@),
    {
        F128 { bits: apf_fma(self.bits, a.bits, b.bits) }
    }

    /// The value with the sign bit flipped: negation is a pure bit
    /// operation that keeps the exponent and fraction fields intact.
    pub fn neg(self) -> (r: Self)
        ensures
            r@ == self@ ^ SIGN_MASK,
            exp_of(r@) == exp_of(self@),
            frac_of(r@) == frac_of(self@),
            sign_of(r@) == 1 - sign_of(self@),
    {
        proof {
            crate::classify::lemma_bit_fields(self.bits);
        }
        F128 { bits: self.bits ^ SIGN_MASK }
    }

    /// The value with the sign bit cleared: the absolute value is a pure
    /// bit operation that keeps the exponent and fraction fields intact.
    pub fn abs(self) -> (r: Self)
        ensures
            r@ == self@ & MAG_MASK,
            exp_of(r@) == exp_of(self@),
            frac_of(r@) == frac_of(self@),
            sign_of(r@) == 0,
    {
        proof {
            crate::classify::lemma_bit_fields(self.bits);
        }
        F128 { bits: self.bits & MAG_MASK }
    }

    /// The absolute value of the rounded difference.
    pub fn abs_sub(self, other: Self) -> (r: Self)
        ensures
            r@ == quad_sub(self@, other@) & MAG_MASK,
    {
        self.sub(other).abs()
    }

    /// The sign of the value: NaN flows through unchanged, otherwise one
    /// with the sign bit of the value.
    pub fn signum(self) -> (r: Self)
        ensures
            r@ == signum_bits(self@),
    {
        if self.is_nan() {
            self
        } else if self.is_sign_positive() {
            F128 { bits: ONE_BITS }
        } else {
            F128 { bits: NEG_ONE_BITS }
        }
    }

    /// The reciprocal: one divided by the value.
    pub fn recip(self) -> (r: Self)
        ensures
            r@ == quad_div(ONE_BITS, self@),
    {
        F128 { bits: ONE_BITS }.div(self)
    }

    /// The multiplicative inverse; the same as [`F128::recip`].
    pub fn inv(self) -> (r: Self)
        ensures
            r@ == quad_div(ONE_BITS, self@),
    {
        self.recip()
    }

    /// The value rounded to an integral value in the given direction.
    pub fn round_with(self, mode: RoundDir) -> (r: Self)
        ensures
            r@ == quad_round_int(self@, mode),
            is_zero_bits(self@) ==> r@ == self@,
            is_inf_bits(self@) ==> r@ == self@,
    {
        F128 { bits: apf_round_int(self.bits, mode) }
    }

    /// The largest integral value not above this one.
    pub fn floor(self) -> (r: Self)
        ensures
            r@ == quad_round_int(self@, RoundDir::Down),
    {
        self.round_with(RoundDir::Down)
    }

    /// The smallest integral value not below this one.
    pub fn ceil(self) -> (r: Self)
        ensures
            r@ == quad_round_int(self@, RoundDir::Up),
    {
        self.round_with(RoundDir::Up)
    }

    /// The nearest integral value, ties rounded away from zero.
    pub fn round(self) -> (r: Self)
        ensures
            r@ == quad_round_int(self@, RoundDir::Nearest),
    {
        self.round_with(RoundDir::Nearest)
    }

    /// The integral part: rounded toward zero.
    pub fn trunc(self) -> (r: Self)
        ensures
            r@ == quad_round_int(self@, RoundDir::TowardZero),
    {
        self.round_with(RoundDir::TowardZero)
    }

    /// The binary fractional part obtained by exponent splitting: the
    /// significand of magnitude in [0.5, 1) that a power of two scales to
    /// this value.  For a finite nonzero value the result is normal with
    /// biased exponent field 16382 and the sign of the input; for a normal
    /// input the fraction field carries over whole, so sign, exponent and
    /// fraction of the result are all pinned down.
    pub fn fract(self) -> (r: Self)
        ensures
            r@ == quad_frexp_sig(self@),
            is_finite_bits(self@) && !is_zero_bits(self@) ==> exp_of(r@) == 16382 && sign_of(r@)
                == sign_of(self@),
            is_normal_bits(self@) ==> frac_of(r@) == frac_of(self@),
            is_inf_bits(self@) ==> r@ == self@,
    {
        F128 { bits: apf_frexp_sig(self.bits) }
    }

    /// The integer power, computed locally by repeated multiplication for a
    /// positive exponent and repeated division for a negative one: an
    /// O(|n|) loop, deliberately simple rather than an exponentiation by
    /// squaring, so the rounding of every step is pinned down.
    pub fn powi(self, n: i32) -> (r: Self)
        ensures
            r@ == powi_bits(self@, n as int),
    {
        if n == 0 {
            return F128 { bits: ONE_BITS };
        }
        let mut i = self;
        if n < 0 {
            let total: i64 = 1 - (n as i64);
            let mut k: i64 = 0;
            while k < total
                invariant
                    0 <= k <= total,
                    total == 1 - (n as int),
                    i@ == powi_neg(self@, k as nat),
                decreases total - k,
            {
                i = i.div(self);
                k = k + 1;
            }
            i
        } else {
            let mut k: i64 = 1;
            while k < n as i64
                invariant
                    1 <= k <= n as int,
                    1 <= n as int,
                    i@ == powi_pos(self@, k as nat),
                decreases n as int - k,
            {
                i = i.mul(self);
                k = k + 1;
            }
            i
        }
    }
}

} // verus!
