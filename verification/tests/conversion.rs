// The conversion bridge: a value built from an integer converts back to
// exactly that integer, for the boundary values of every width.
use quadfloat::F128;

#[test]
fn u64_round_trip_on_boundaries() {
    for n in [0u64, 1, u64::MAX] {
        let v = F128::from_u64(n).unwrap();
        assert_eq!(v.to_u64().unwrap(), n);
    }
}

#[test]
fn i64_round_trip_on_boundaries() {
    for n in [0i64, 1, -1, i64::MIN, i64::MAX] {
        let v = F128::from_i64(n).unwrap();
        assert_eq!(v.to_i64().unwrap(), n);
    }
}

#[test]
fn u32_round_trip_on_boundaries() {
    for n in [0u32, 1, u32::MAX] {
        let v = F128::from_u32(n).unwrap();
        assert_eq!(v.to_u32().unwrap(), n);
    }
}

#[test]
fn i32_round_trip_on_boundaries() {
    for n in [0i32, 1, -1, i32::MIN, i32::MAX] {
        let v = F128::from_i32(n).unwrap();
        assert_eq!(v.to_i32().unwrap(), n);
    }
}

#[test]
fn u16_round_trip_on_boundaries() {
    for n in [0u16, 1, u16::MAX] {
        let v = F128::from_u16(n).unwrap();
        assert_eq!(v.to_u16().unwrap(), n);
    }
}

#[test]
fn i16_round_trip_on_boundaries() {
    for n in [0i16, 1, -1, i16::MIN, i16::MAX] {
        let v = F128::from_i16(n).unwrap();
        assert_eq!(v.to_i16().unwrap(), n);
    }
}

#[test]
fn u8_round_trip_on_boundaries() {
    for n in [0u8, 1, u8::MAX] {
        let v = F128::from_u8(n).unwrap();
        assert_eq!(v.to_u8().unwrap(), n);
    }
}

#[test]
fn i8_round_trip_on_boundaries() {
    for n in [0i8, 1, -1, i8::MIN, i8::MAX] {
        let v = F128::from_i8(n).unwrap();
        assert_eq!(v.to_i8().unwrap(), n);
    }
}

#[test]
fn usize_and_isize_round_trip_on_boundaries() {
    for n in [0usize, 1, usize::MAX] {
        assert_eq!(F128::from_usize(n).unwrap().to_usize().unwrap(), n);
    }
    for n in [0isize, 1, -1, isize::MIN, isize::MAX] {
        assert_eq!(F128::from_isize(n).unwrap().to_isize().unwrap(), n);
    }
}

#[test]
fn i128_round_trip_within_exact_range() {
    // Binary128 carries 113 significant bits, so these convert exactly.
    for n in [0i128, 1, -1, 1 << 112, -(1 << 112), (1 << 113) - 1] {
        let v = F128::from_i128(n).unwrap();
        assert_eq!(v.to_i128().unwrap(), n);
    }
}

#[test]
fn u128_conversion_saturates_beyond_the_exact_range() {
    // The maximum unsigned 128-bit value rounds up to 2^128, which the
    // extraction then saturates back to the maximum: the boundary value
    // still round-trips.
    let v = F128::from_u128(u128::MAX).unwrap();
    assert_eq!(v.to_u128().unwrap(), u128::MAX);
}

#[test]
fn small_integers_produce_the_expected_patterns() {
    assert_eq!(
        F128::from_u8(1).unwrap().inner_as_u128(),
        F128::one().inner_as_u128()
    );
    assert_eq!(
        F128::from_i16(-1).unwrap().inner_as_u128(),
        F128::one().neg().inner_as_u128()
    );
    assert_eq!(F128::from_u32(0).unwrap().inner_as_u128(), 0);
    assert_eq!(
        F128::from_i64(2).unwrap().inner_as_u128(),
        F128::two().inner_as_u128()
    );
}

#[test]
fn extraction_truncates_toward_zero() {
    // 1.5 extracts as 1; -1.5 extracts as -1.
    let v = F128::from_raw_u128(0x3FFF8000000000000000000000000000);
    assert_eq!(v.to_i32().unwrap(), 1);
    assert_eq!(v.neg().to_i32().unwrap(), -1);
    // NaN extracts as zero; negative values saturate to zero unsigned.
    assert_eq!(F128::nan().to_u64().unwrap(), 0);
    assert_eq!(F128::one().neg().to_u64().unwrap(), 0);
}

#[test]
fn new_converts_from_primitive_sources() {
    assert_eq!(
        F128::new(2u64).inner_as_u128(),
        F128::two().inner_as_u128()
    );
    assert_eq!(
        F128::new(-1i32).inner_as_u128(),
        F128::one().neg().inner_as_u128()
    );
    assert_eq!(
        F128::new(7u32).inner_as_u128(),
        F128::from_u8(7).unwrap().inner_as_u128()
    );
    assert_eq!(
        F128::new(-9i64).inner_as_u128(),
        F128::from_i8(-9).unwrap().inner_as_u128()
    );
    assert_eq!(
        F128::from(3u64).inner_as_u128(),
        F128::from_u8(3).unwrap().inner_as_u128()
    );
}

#[test]
fn approx_from_parts_recombines_exactly_for_integers() {
    // For a source that is itself a 64-bit integer the approximation path
    // must reproduce the exact value.
    let v = F128::approx_from_parts(41, F128::from_i64(41).unwrap());
    assert_eq!(
        v.inner_as_u128(),
        F128::from_i64(41).unwrap().inner_as_u128()
    );
}
