//! The conversion bridge: construction from, and extraction into, every
//! primitive integer width, delegated to `rustc_apfloat`'s conversion entry
//! points.  This component is a typed dispatch table, not a computation
//! engine: each width widens to the 128-bit entry point and narrows its
//! result back.  Conversions never fail here — out-of-range inputs produce
//! what the delegated routine defines (rounding on construction; truncation
//! toward zero with saturation, and zero for NaN, on extraction).
use vstd::prelude::*;

use rustc_apfloat::ieee::Quad;
use rustc_apfloat::Float;

use crate::arith::{quad_add, quad_sub};
use vstd::std_specs::convert::FromSpec;
use crate::F128;

verus! {

/// The bit pattern of the binary128 value nearest the given unsigned
/// integer, ties to even.
pub uninterp spec fn quad_of_u128(x: u128) -> u128;

/// The bit pattern of the binary128 value nearest the given signed integer,
/// ties to even.
pub uninterp spec fn quad_of_i128(x: i128) -> u128;

/// The unsigned integer of the given width that the value converts to:
/// rounded toward zero, saturated to the width's range, zero for NaN.
pub uninterp spec fn u128_of_quad(b: u128, width: usize) -> u128;

/// The signed integer of the given width that the value converts to:
/// rounded toward zero, saturated to the width's range, zero for NaN.
pub uninterp spec fn i128_of_quad(b: u128, width: usize) -> i128;

/// Relies on `Quad::from_u128` (round to nearest, ties to even): a pure
/// function of the integer.
#[verifier::external_body]
fn apf_of_u128(x: u128) -> (r: u128)
    ensures
        r == quad_of_u128(x),
{
    Quad::from_u128(x).value.to_bits()
}

/// Relies on `Quad::from_i128` (round to nearest, ties to even): a pure
/// function of the integer.
#[verifier::external_body]
fn apf_of_i128(x: i128) -> (r: u128)
    ensures
        r == quad_of_i128(x),
{
    Quad::from_i128(x).value.to_bits()
}

/// Relies on `Quad::to_u128`: conversion toward zero.  Its source returns,
/// on every path, either zero or a value at most the all-ones pattern of
/// the asked width, so the result always fits that width.
#[verifier::external_body]
fn apf_to_u128(b: u128, width: usize) -> (r: u128)
    requires
        1 <= width <= 128,
    ensures
        r == u128_of_quad(b, width),
        width < 128 ==> r < (1u128 << (width as u128)),
{
    Quad::from_bits(b).to_u128(width).value
}

/// Relies on `Quad::to_i128`: conversion toward zero.  Its source saturates
/// to the signed range of the asked width, so the result always fits it.
#[verifier::external_body]
fn apf_to_i128(b: u128, width: usize) -> (r: i128)
    requires
        2 <= width <= 128,
    ensures
        r == i128_of_quad(b, width),
        width < 128 ==> -(1i128 << ((width - 1) as i128)) <= r < (1i128 << ((width - 1) as i128)),
{
    Quad::from_bits(b).to_i128(width).value
}

impl F128 {
    /// The value nearest the given unsigned 128-bit integer.
    pub fn from_u128(n: u128) -> (r: Option<Self>)
        ensures
            r matches Some(v) && v@ == quad_of_u128(n),
    {
        Some(F128 { bits: apf_of_u128(n) })
    }

    /// The value nearest the given signed 128-bit integer.
    pub fn from_i128(n: i128) -> (r: Option<Self>)
        ensures
            r matches Some(v) && v@ == quad_of_i128(n),
    {
        Some(F128 { bits: apf_of_i128(n) })
    }

    /// The value of the given unsigned 64-bit integer, which binary128
    /// represents exactly only up to 113 significant bits — always, here.
    pub fn from_u64(n: u64) -> (r: Option<Self>)
        ensures
            r matches Some(v) && v@ == quad_of_u128(n as u128),
    {
        Self::from_u128(n as u128)
    }

    /// The value of the given signed 64-bit integer.
    pub fn from_i64(n: i64) -> (r: Option<Self>)
        ensures
            r matches Some(v) && v@ == quad_of_i128(n as i128),
    {
        Self::from_i128(n as i128)
    }

    /// The value of the given pointer-sized unsigned integer.
    pub fn from_usize(n: usize) -> (r: Option<Self>)
        ensures
            r matches Some(v) && v@ == quad_of_u128(n as u128),
    {
        Self::from_u128(n as u128)
    }

    /// The value of the given pointer-sized signed integer.
    pub fn from_isize(n: isize) -> (r: Option<Self>)
        ensures
            r matches Some(v) && v@ == quad_of_i128(n as i128),
    {
        Self::from_i128(n as i128)
    }

    /// The value of the given unsigned 32-bit integer.
    pub fn from_u32(n: u32) -> (r: Option<Self>)
        ensures
            r matches Some(v) && v@ == quad_of_u128(n as u128),
    {
        Self::from_u128(n as u128)
    }

    /// The value of the given signed 32-bit integer.
    pub fn from_i32(n: i32) -> (r: Option<Self>)
        ensures
            r matches Some(v) && v@ == quad_of_i128(n as i128),
    {
        Self::from_i128(n as i128)
    }

    /// The value of the given unsigned 16-bit integer.
    pub fn from_u16(n: u16) -> (r: Option<Self>)
        ensures
            r matches Some(v) && v@ == quad_of_u128(n as u128),
    {
        Self::from_u128(n as u128)
    }

    /// The value of the given signed 16-bit integer.
    pub fn from_i16(n: i16) -> (r: Option<Self>)
        ensures
            r matches Some(v) && v@ == quad_of_i128(n as i128),
    {
        Self::from_i128(n as i128)
    }

    /// The value of the given unsigned 8-bit integer.
    pub fn from_u8(n: u8) -> (r: Option<Self>)
        ensures
            r matches Some(v) && v@ == quad_of_u128(n as u128),
    {
        Self::from_u128(n as u128)
    }

    /// The value of the given signed 8-bit integer.
    pub fn from_i8(n: i8) -> (r: Option<Self>)
        ensures
            r matches Some(v) && v@ == quad_of_i128(n as i128),
    {
        Self::from_i128(n as i128)
    }

    /// The unsigned 128-bit integer the value converts to.
    pub fn to_u128(&self) -> (r: Option<u128>)
        ensures
            r == Some(u128_of_quad(self@, 128)),
    {
        Some(apf_to_u128(self.bits, 128))
    }

    /// The signed 128-bit integer the value converts to.
    pub fn to_i128(&self) -> (r: Option<i128>)
        ensures
            r == Some(i128_of_quad(self@, 128)),
    {
        Some(apf_to_i128(self.bits, 128))
    }

    /// The unsigned 64-bit integer the value converts to.
    pub fn to_u64(&self) -> (r: Option<u64>)
        ensures
            r == Some((u128_of_quad(self@, 64) as u64)),
            u128_of_quad(self@, 64) <= u64::MAX,
    {
        let v = apf_to_u128(self.bits, 64);
        proof {
            assert(v < (1u128 << 64u128) ==> v <= u64::MAX) by (bit_vector);
        }
        Some(v as u64)
    }

    /// The signed 64-bit integer the value converts to.
    pub fn to_i64(&self) -> (r: Option<i64>)
        ensures
            r == Some((i128_of_quad(self@, 64) as i64)),
            i64::MIN <= i128_of_quad(self@, 64) <= i64::MAX,
    {
        let v = apf_to_i128(self.bits, 64);
        proof {
            assert(-(1i128 << 63i128) <= v < (1i128 << 63i128) ==> i64::MIN <= v <= i64::MAX)
                by (bit_vector);
        }
        Some(v as i64)
    }

    /// The pointer-sized unsigned integer the value converts to: the 64-bit
    /// conversion, narrowed to the platform width.
    pub fn to_usize(&self) -> (r: Option<usize>)
        ensures
            r == Some((u128_of_quad(self@, 64) as u64 as usize)),
    {
        let v = self.to_u64();
        Some(v.unwrap() as usize)
    }

    /// The pointer-sized signed integer the value converts to: the 64-bit
    /// conversion, narrowed to the platform width.
    pub fn to_isize(&self) -> (r: Option<isize>)
        ensures
            r == Some((i128_of_quad(self@, 64) as i64 as isize)),
    {
        let v = self.to_i64();
        Some(v.unwrap() as isize)
    }

    /// The unsigned 32-bit integer the value converts to.
    pub fn to_u32(&self) -> (r: Option<u32>)
        ensures
            r == Some((u128_of_quad(self@, 32) as u32)),
            u128_of_quad(self@, 32) <= u32::MAX,
    {
        let v = apf_to_u128(self.bits, 32);
        proof {
            assert(v < (1u128 << 32u128) ==> v <= u32::MAX) by (bit_vector);
        }
        Some(v as u32)
    }

    /// The signed 32-bit integer the value converts to.
    pub fn to_i32(&self) -> (r: Option<i32>)
        ensures
            r == Some((i128_of_quad(self@, 32) as i32)),
            i32::MIN <= i128_of_quad(self@, 32) <= i32::MAX,
    {
        let v = apf_to_i128(self.bits, 32);
        proof {
            assert(-(1i128 << 31i128) <= v < (1i128 << 31i128) ==> i32::MIN <= v <= i32::MAX)
                by (bit_vector);
        }
        Some(v as i32)
    }

    /// The unsigned 16-bit integer the value converts to.
    pub fn to_u16(&self) -> (r: Option<u16>)
        ensures
            r == Some((u128_of_quad(self@, 16) as u16)),
            u128_of_quad(self@, 16) <= u16::MAX,
    {
        let v = apf_to_u128(self.bits, 16);
        proof {
            assert(v < (1u128 << 16u128) ==> v <= u16::MAX) by (bit_vector);
        }
        Some(v as u16)
    }

    /// The signed 16-bit integer the value converts to.
    pub fn to_i16(&self) -> (r: Option<i16>)
        ensures
            r == Some((i128_of_quad(self@, 16) as i16)),
            i16::MIN <= i128_of_quad(self@, 16) <= i16::MAX,
    {
        let v = apf_to_i128(self.bits, 16);
        proof {
            assert(-(1i128 << 15i128) <= v < (1i128 << 15i128) ==> i16::MIN <= v <= i16::MAX)
                by (bit_vector);
        }
        Some(v as i16)
    }

    /// The unsigned 8-bit integer the value converts to.
    pub fn to_u8(&self) -> (r: Option<u8>)
        ensures
            r == Some((u128_of_quad(self@, 8) as u8)),
            u128_of_quad(self@, 8) <= u8::MAX,
    {
        let v = apf_to_u128(self.bits, 8);
        proof {
            assert(v < (1u128 << 8u128) ==> v <= u8::MAX) by (bit_vector);
        }
        Some(v as u8)
    }

    /// The signed 8-bit integer the value converts to.
    pub fn to_i8(&self) -> (r: Option<i8>)
        ensures
            r == Some((i128_of_quad(self@, 8) as i8)),
            i8::MIN <= i128_of_quad(self@, 8) <= i8::MAX,
    {
        let v = apf_to_i128(self.bits, 8);
        proof {
            assert(-(1i128 << 7i128) <= v < (1i128 << 7i128) ==> i8::MIN <= v <= i8::MAX)
                by (bit_vector);
        }
        Some(v as i8)
    }

    /// The value a source of any converting type turns into; the same as
    /// `From::from`, usable wherever the source type is known to convert.
    pub fn new<T>(a: T) -> (r: Self) where F128: core::convert::From<T>
        ensures
            <F128 as FromSpec<T>>::obeys_from_spec() ==> r == <F128 as FromSpec<T>>::from_spec(a),
    {
        F128::from(a)
    }

    /// The approximate-construction path for casting from a numeric source
    /// with no dedicated conversion: the source's integer component and a
    /// separately converted full approximation are recombined by
    /// subtraction and addition.  An explicit approximation, lossy for
    /// magnitudes that need more integer precision than the approximation
    /// carries — not an exact bit-preserving conversion.
    pub fn approx_from_parts(int_part: i128, approx: Self) -> (r: Self)
        ensures
            r@ == quad_add(quad_sub(approx@, quad_of_i128(int_part)), quad_of_i128(int_part)),
    {
        let int_comp = F128 { bits: apf_of_i128(int_part) };
        approx.sub(int_comp).add(int_comp)
    }
}

/// The value carrying a given bit pattern, as a specification-level
/// constructor: `of_bits(b)` is the value whose view is `b` (see
/// [`lemma_of_bits`]).
pub closed spec fn of_bits(b: u128) -> F128 {
    F128 { bits: b }
}

/// The view of [`of_bits`] is the pattern it was built from.
pub proof fn lemma_of_bits(b: u128)
    ensures
        of_bits(b)@ == b,
{
}

impl core::convert::From<u64> for F128 {
    /// The conversion behind `F128::new` for unsigned 64-bit sources.
    fn from(n: u64) -> (r: F128)
        ensures
            r@ == quad_of_u128(n as u128),
    {
        F128 { bits: apf_of_u128(n as u128) }
    }
}

impl vstd::std_specs::convert::FromSpecImpl<u64> for F128 {
    open spec fn obeys_from_spec() -> bool {
        true
    }

    open spec fn from_spec(v: u64) -> F128 {
        of_bits(quad_of_u128(v as u128))
    }
}

impl core::convert::From<i64> for F128 {
    /// The conversion behind `F128::new` for signed 64-bit sources.
    fn from(n: i64) -> (r: F128)
        ensures
            r@ == quad_of_i128(n as i128),
    {
        F128 { bits: apf_of_i128(n as i128) }
    }
}

impl vstd::std_specs::convert::FromSpecImpl<i64> for F128 {
    open spec fn obeys_from_spec() -> bool {
        true
    }

    open spec fn from_spec(v: i64) -> F128 {
        of_bits(quad_of_i128(v as i128))
    }
}

impl core::convert::From<u32> for F128 {
    /// The conversion behind `F128::new` for unsigned 32-bit sources.
    fn from(n: u32) -> (r: F128)
        ensures
            r@ == quad_of_u128(n as u128),
    {
        F128 { bits: apf_of_u128(n as u128) }
    }
}

impl vstd::std_specs::convert::FromSpecImpl<u32> for F128 {
    open spec fn obeys_from_spec() -> bool {
        true
    }

    open spec fn from_spec(v: u32) -> F128 {
        of_bits(quad_of_u128(v as u128))
    }
}

impl core::convert::From<i32> for F128 {
    /// The conversion behind `F128::new` for signed 32-bit sources.
    fn from(n: i32) -> (r: F128)
        ensures
            r@ == quad_of_i128(n as i128),
    {
        F128 { bits: apf_of_i128(n as i128) }
    }
}

impl vstd::std_specs::convert::FromSpecImpl<i32> for F128 {
    open spec fn obeys_from_spec() -> bool {
        true
    }

    open spec fn from_spec(v: i32) -> F128 {
        of_bits(quad_of_i128(v as i128))
    }
}

} // verus!
