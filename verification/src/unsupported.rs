//! Capabilities of the generic numeric surface that have no implementation
//! for this representation.
//!
//! Each of these fails fast with [`Error::Unsupported`], as an explicit
//! failure value a caller can detect and route around, and never returns a
//! default-initialized or zero value disguised as a real answer.  The
//! mantissa-exponent-sign decomposition in particular assumes a 64-bit
//! mantissa, which cannot losslessly carry this type's 112-bit fraction; a
//! correct implementation needs a wider abstraction, not a truncated
//! answer.
use vstd::prelude::*;

use crate::{Error, F128};

verus! {

impl F128 {
    /// The square root of two: not implemented for this representation.
    #[allow(non_snake_case)]
    pub fn SQRT_2() -> (r: Result<Self, Error>)
        ensures
            r == Err::<F128, Error>(Error::Unsupported),
    {
        Err(Error::Unsupported)
    }

    /// The reciprocal of the square root of two: not implemented.
    #[allow(non_snake_case)]
    pub fn FRAC_1_SQRT_2() -> (r: Result<Self, Error>)
        ensures
            r == Err::<F128, Error>(Error::Unsupported),
    {
        Err(Error::Unsupported)
    }

    /// Two over the square root of pi: not implemented.
    #[allow(non_snake_case)]
    pub fn FRAC_2_SQRT_PI() -> (r: Result<Self, Error>)
        ensures
            r == Err::<F128, Error>(Error::Unsupported),
    {
        Err(Error::Unsupported)
    }

    /// The natural logarithm of two: not implemented.
    #[allow(non_snake_case)]
    pub fn LN_2() -> (r: Result<Self, Error>)
        ensures
            r == Err::<F128, Error>(Error::Unsupported),
    {
        Err(Error::Unsupported)
    }

    /// The natural logarithm of ten: not implemented.
    #[allow(non_snake_case)]
    pub fn LN_10() -> (r: Result<Self, Error>)
        ensures
            r == Err::<F128, Error>(Error::Unsupported),
    {
        Err(Error::Unsupported)
    }

    /// The base-two logarithm of e: not implemented.
    #[allow(non_snake_case)]
    pub fn LOG2_E() -> (r: Result<Self, Error>)
        ensures
            r == Err::<F128, Error>(Error::Unsupported),
    {
        Err(Error::Unsupported)
    }

    /// The base-ten logarithm of e: not implemented.
    #[allow(non_snake_case)]
    pub fn LOG10_E() -> (r: Result<Self, Error>)
        ensures
            r == Err::<F128, Error>(Error::Unsupported),
    {
        Err(Error::Unsupported)
    }

    /// Radix-aware parsing: not implemented for this representation.
    pub fn from_str_radix(s: &str, radix: u32) -> (r: Result<Self, Error>)
        ensures
            r == Err::<F128, Error>(Error::Unsupported),
    {
        Err(Error::Unsupported)
    }

    /// The (mantissa, exponent, sign) decomposition of the generic float
    /// surface: its 64-bit mantissa cannot carry the 112-bit fraction.
    pub fn integer_decode(self) -> (r: Result<(u64, i16, i8), Error>)
        ensures
            r == Err::<(u64, i16, i8), Error>(Error::Unsupported),
    {
        Err(Error::Unsupported)
    }

    /// Conversion to degrees: not implemented for this representation.
    pub fn to_degrees(self) -> (r: Result<Self, Error>)
        ensures
            r == Err::<F128, Error>(Error::Unsupported),
    {
        Err(Error::Unsupported)
    }

    /// Conversion to radians: not implemented for this representation.
    pub fn to_radians(self) -> (r: Result<Self, Error>)
        ensures
            r == Err::<F128, Error>(Error::Unsupported),
    {
        Err(Error::Unsupported)
    }
}

} // verus!
