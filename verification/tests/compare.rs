// IEEE numeric comparison against raw bit-pattern equality: NaN equals
// nothing, the two zeros equal each other, and minNum/maxNum prefer the
// non-NaN argument.
use quadfloat::F128;

#[test]
fn nan_is_nan_but_not_equal_to_itself() {
    let nan = F128::nan();
    assert!(nan.is_nan());
    // The two raw patterns are identical...
    assert_eq!(nan.inner_as_u128(), F128::nan().inner_as_u128());
    assert_eq!(nan, F128::nan());
    // ...and still the numeric comparison rejects the equality.
    assert!(!nan.num_eq(F128::nan()));
    assert!(!nan.num_lt(F128::nan()));
    assert!(!nan.num_le(F128::nan()));
}

#[test]
fn zero_and_neg_zero_compare_equal_but_differ_in_bits() {
    let z = F128::zero();
    let nz = F128::neg_zero();
    assert!(z.num_eq(nz));
    assert!(nz.num_eq(z));
    assert!(!z.num_lt(nz) && !nz.num_lt(z));
    assert_ne!(z.inner_as_u128(), nz.inner_as_u128());
    assert_ne!(z.inner(), nz.inner());
    assert!(!z.is_sign_negative());
    assert!(nz.is_sign_negative());
}

#[test]
fn ordering_follows_numeric_value() {
    let one = F128::one();
    let two = F128::two();
    let neg_one = F128::one().neg();
    assert!(one.num_lt(two));
    assert!(!two.num_lt(one));
    assert!(neg_one.num_lt(one));
    assert!(neg_one.num_lt(F128::zero()));
    assert!(F128::min_value().num_lt(neg_one));
    assert!(two.num_lt(F128::infinity()));
    assert!(F128::neg_infinity().num_lt(F128::min_value()));
    assert!(one.num_le(one));
    assert!(two.num_gt(one));
    assert!(two.num_ge(two));
}

#[test]
fn max_and_min_follow_ieee_maxnum_minnum() {
    let one = F128::one();
    let two = F128::two();
    let nan = F128::nan();
    assert_eq!(one.max(two).inner_as_u128(), two.inner_as_u128());
    assert_eq!(two.max(one).inner_as_u128(), two.inner_as_u128());
    assert_eq!(one.min(two).inner_as_u128(), one.inner_as_u128());
    // A NaN argument yields the other argument, in either position.
    assert_eq!(nan.max(one).inner_as_u128(), one.inner_as_u128());
    assert_eq!(one.max(nan).inner_as_u128(), one.inner_as_u128());
    assert_eq!(nan.min(two).inner_as_u128(), two.inner_as_u128());
    assert_eq!(two.min(nan).inner_as_u128(), two.inner_as_u128());
}

#[test]
fn min_and_max_keep_both_operands_on_signed_zeros() {
    let z = F128::zero();
    let nz = F128::neg_zero();
    // The numeric tie between the two zeros is broken by the sign bit, so
    // the pair of results is the pair of operands.
    assert_eq!(z.max(nz).inner_as_u128(), z.inner_as_u128());
    assert_eq!(nz.max(z).inner_as_u128(), z.inner_as_u128());
    assert_eq!(z.min(nz).inner_as_u128(), nz.inner_as_u128());
    assert_eq!(nz.min(z).inner_as_u128(), nz.inner_as_u128());
}

#[test]
fn max_orders_across_signs_correctly() {
    // Mixed signs once misordered under a raw signed-integer reading of the
    // patterns; the IEEE reading must prefer the positive value.
    let neg_one = F128::one().neg();
    let one = F128::one();
    assert_eq!(neg_one.max(one).inner_as_u128(), one.inner_as_u128());
    assert_eq!(one.max(neg_one).inner_as_u128(), one.inner_as_u128());
    assert_eq!(neg_one.min(one).inner_as_u128(), neg_one.inner_as_u128());
}
