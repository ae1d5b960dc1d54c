//! A 128-bit ("quad precision") IEEE 754-2008 binary128 floating-point value
//! type: 1 sign bit, 15 exponent bits (bias 16383) and 112 stored fraction
//! bits, modelled directly as the raw 128-bit pattern.
//!
//! The bit layout, the catalogue of named constants, the classifier
//! (NaN / infinity / normal / subnormal / zero detection) and the IEEE
//! comparison rules are implemented and verified here, over the bit pattern
//! alone.  The heavy numeric work — rounding, arithmetic, conversion to and
//! from the integer widths, parsing and formatting — is delegated to the
//! `rustc_apfloat` software implementation of binary128 through a small set
//! of trusted wrappers; what those routines return is named, and everything
//! built on top of them is verified against those names.
use vstd::prelude::*;

pub mod arith;
pub mod classify;
pub mod cmp;
pub mod codec;
pub mod consts;
pub mod convert;
pub mod layout;
pub mod unsupported;

verus! {

/// One binary128 floating-point value, held as its raw 128-bit pattern.
///
/// Every 128-bit pattern is a well-formed value; no canonicalization of NaN
/// payloads is performed.  The derived `==` is *raw bit-pattern* equality
/// (two NaN payloads differ, and zero differs from negative zero); numeric
/// IEEE comparison, under which `NaN != NaN` and `0.0 == -0.0`, is offered
/// separately by [`F128::num_eq`] and its companions.
#[derive(Clone, Copy, PartialEq, Eq, Structural, Debug)]
pub struct F128 {
    pub(crate) bits: u128,
}

impl View for F128 {
    type V = u128;

    closed spec fn view(&self) -> u128 {
        self.bits
    }
}

impl F128 {
    /// The value whose raw 128-bit pattern, read as an unsigned integer, is `d`.
    /// A pure bit-for-bit reinterpretation: no numeric conversion happens.
    pub fn from_raw_u128(d: u128) -> (r: Self)
        ensures
            r@ == d,
    {
        F128 { bits: d }
    }

    /// The value whose raw 128-bit pattern, read as a signed integer, is `d`.
    pub fn from_raw_i128(d: i128) -> (r: Self)
        ensures
            r@ == d as u128,
    {
        F128 { bits: d as u128 }
    }

    /// The raw 128-bit pattern read as an unsigned integer.
    pub fn inner_as_u128(&self) -> (r: u128)
        ensures
            r == self@,
    {
        self.bits
    }

    /// The raw 128-bit pattern read as a signed integer.
    pub fn inner_as_i128(self) -> (r: i128)
        ensures
            r == self@ as i128,
    {
        self.bits as i128
    }
}

impl Default for F128 {
    /// The default value is positive zero.
    fn default() -> (r: Self)
        ensures
            r@ == 0u128,
    {
        F128 { bits: 0 }
    }
}

/// How an operation of this library fails.
///
/// Numeric domain errors (square root of a negative number, logarithm of
/// zero) are never reported this way: delegated routines signal them the IEEE
/// way, by returning NaN or an infinity, and those values flow through
/// unchanged.
#[derive(Clone, Copy, PartialEq, Eq, Structural, Debug)]
pub enum Error {
    /// An input string (value text or format specification) contains an
    /// embedded null character, which the text codec cannot transfer.
    EmbeddedNul,
    /// The external numeric parser did not accept the text.
    Malformed,
    /// The capability exists in the generic numeric surface but has no
    /// implementation for this representation.
    Unsupported,
}

} // verus!
