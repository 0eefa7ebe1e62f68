use transient_flow::fixed::Real;
use transient_flow::fixed::RAW_LIMIT;

#[test]
fn whole_numbers_carry_twelve_places() {
    assert_eq!(Real::from_int(3).raw(), 3_000_000_000_000);
    assert_eq!(Real::from_int(-2).raw(), -2_000_000_000_000);
}

#[test]
fn sums_and_differences() {
    let a = Real::from_raw(1_500_000_000_000);
    let b = Real::from_int(2);
    assert_eq!(a.add(&b).raw(), 3_500_000_000_000);
    assert_eq!(a.sub(&b).raw(), -500_000_000_000);
    assert_eq!(a.neg().raw(), -1_500_000_000_000);
}

#[test]
fn products_round_toward_zero() {
    let a = Real::from_raw(1_500_000_000_000);
    assert_eq!(a.mul(&Real::from_int(3)), Real::from_raw(4_500_000_000_000));
    let tiny = Real::from_raw(1);
    assert_eq!(tiny.mul(&Real::from_raw(999_999_999_999)), Real::zero());
    assert_eq!(tiny.neg().mul(&Real::from_raw(999_999_999_999)), Real::zero());
    assert_eq!(Real::from_int(-2).mul(&Real::from_int(3)), Real::from_int(-6));
}

#[test]
fn quotients_round_toward_zero() {
    assert_eq!(Real::from_int(1).div(&Real::from_int(3)).raw(), 333_333_333_333);
    assert_eq!(Real::from_int(-1).div(&Real::from_int(3)).raw(), -333_333_333_333);
    assert_eq!(Real::from_int(7).div(&Real::from_int(2)), Real::from_raw(3_500_000_000_000));
}

#[test]
fn square_roots_round_down() {
    assert_eq!(Real::from_int(2).sqrt().raw(), 1_414_213_562_373);
    assert_eq!(Real::from_int(9).sqrt(), Real::from_int(3));
    assert_eq!(Real::zero().sqrt(), Real::zero());
}

#[test]
fn results_saturate_at_the_bounds() {
    let big = Real::from_raw(RAW_LIMIT);
    assert_eq!(big.add(&big).raw(), RAW_LIMIT);
    assert_eq!(big.neg().sub(&big).raw(), -RAW_LIMIT);
    assert_eq!(big.mul(&big).raw(), RAW_LIMIT);
    assert_eq!(Real::from_raw(i128::MAX).raw(), RAW_LIMIT);
    assert_eq!(Real::from_raw(i128::MIN).raw(), -RAW_LIMIT);
    assert_eq!(big.div(&Real::from_raw(1)).raw(), RAW_LIMIT);
}

#[test]
fn comparisons() {
    assert!(Real::from_int(1).lt(&Real::from_int(2)));
    assert!(!Real::from_int(2).lt(&Real::from_int(2)));
    assert!(Real::from_int(2).le(&Real::from_int(2)));
}
