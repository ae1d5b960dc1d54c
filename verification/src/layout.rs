//! The byte-layout boundary: the 16-byte storage as the platform lays a
//! binary128 value out in memory.
//!
//! Inside the library a value is the 128-bit pattern itself, free of byte
//! order; only this boundary speaks raw bytes.  The platform's native order
//! is whatever `u128::to_ne_bytes` produces — the little-endian layout or
//! its reverse, one fixed choice per target — so it is given a name here,
//! pinned to that disjunction over the fully specified little-endian
//! reading of vstd, and the two directions are tied to the same order: a
//! value survives the trip through its bytes unchanged.  No validation
//! happens in either direction: any 16-byte input is accepted as a
//! well-formed value.
use vstd::prelude::*;
use vstd::seq_lib::*;

use crate::F128;

verus! {

/// The 16 bytes of a value in the target's native byte order.  For any one
/// target this is a single fixed function of the value — the little-endian
/// array or its reverse, the same choice for every value — unlike a result
/// that could differ between calls.
pub uninterp spec fn native_bytes_of(x: u128) -> Seq<u8>;

/// Relies on `u128::to_ne_bytes`: std documents the result as the memory
/// representation in native byte order, which is the little-endian byte
/// array or its reverse, by target.
#[verifier::external_body]
fn ne_bytes_of(x: u128) -> (r: [u8; 16])
    ensures
        r@ == native_bytes_of(x),
        r@ == vstd::bytes::spec_u128_to_le_bytes(x) || r@ == vstd::bytes::spec_u128_to_le_bytes(
            x,
        ).reverse(),
{
    x.to_ne_bytes()
}

/// Relies on `u128::from_ne_bytes`: std documents the argument as read in
/// native byte order, the exact inverse of `u128::to_ne_bytes` — bytes that
/// are some value's native representation read back as that value — and the
/// little-endian reading of the array or of its reverse, by target.
#[verifier::external_body]
fn ne_bytes_to(bytes: [u8; 16]) -> (r: u128)
    ensures
        forall|x: u128| native_bytes_of(x) == bytes@ ==> r == x,
        native_bytes_of(r) == bytes@,
        r == vstd::bytes::spec_u128_from_le_bytes(bytes@) || r
            == vstd::bytes::spec_u128_from_le_bytes(bytes@.reverse()),
{
    u128::from_ne_bytes(bytes)
}

impl F128 {
    /// The value whose 16-byte storage, in the platform's native order, is
    /// `d`.  A pure reinterpretation: no validation, no numeric conversion,
    /// and the two-sided inverse of [`F128::inner`] — bytes that came from
    /// a value give that value back, and the value's storage is exactly the
    /// bytes it was built from, bit for bit.
    pub fn from_arr(d: [u8; 16]) -> (r: Self)
        ensures
            forall|x: u128| native_bytes_of(x) == d@ ==> r@ == x,
            native_bytes_of(r@) == d@,
            r@ == vstd::bytes::spec_u128_from_le_bytes(d@) || r@
                == vstd::bytes::spec_u128_from_le_bytes(d@.reverse()),
    {
        F128 { bits: ne_bytes_to(d) }
    }

    /// The 16-byte storage of the value, in the platform's native order.
    pub fn inner(&self) -> (r: [u8; 16])
        ensures
            r@ == native_bytes_of(self@),
            r@ == vstd::bytes::spec_u128_to_le_bytes(self@) || r@
                == vstd::bytes::spec_u128_to_le_bytes(self@).reverse(),
    {
        ne_bytes_of(self.bits)
    }

    /// The 16-byte storage of the value, consuming it; the same bytes as
    /// [`F128::inner`].
    pub fn into_inner(self) -> (r: [u8; 16])
        ensures
            r@ == native_bytes_of(self@),
            r@ == vstd::bytes::spec_u128_to_le_bytes(self@) || r@
                == vstd::bytes::spec_u128_to_le_bytes(self@).reverse(),
    {
        ne_bytes_of(self.bits)
    }
}

} // verus!
