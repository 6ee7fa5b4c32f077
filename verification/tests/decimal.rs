use crabscore::decimal::{Decimal, SignedDecimal, UNIT};

fn from_float(x: f64) -> Option<Decimal> {
    Decimal::from_float_bits(x.to_bits())
}

#[test]
fn decimal_from_units_scales_by_a_billion() {
    assert_eq!(Decimal::from_units(3).nanos, 3_000_000_000);
    assert_eq!(Decimal::from_units(0), Decimal::zero());
    assert_eq!(Decimal::from_units(u64::MAX).nanos, u64::MAX as u128 * UNIT);
}

#[test]
fn decimal_from_nanos_keeps_the_count() {
    assert_eq!(Decimal::from_nanos(1_500_000_000).nanos, 1_500_000_000);
}

#[test]
fn decimal_ratio_rounds_down() {
    assert_eq!(Decimal::ratio(1, 3).nanos, 333_333_333);
    assert_eq!(Decimal::ratio(2, 3).nanos, 666_666_666);
    assert_eq!(Decimal::ratio(1, 50).nanos, 20_000_000);
    assert_eq!(Decimal::ratio(7, 7).nanos, UNIT);
}

#[test]
fn decimal_ratio_by_zero_is_zero() {
    assert_eq!(Decimal::ratio(5, 0), Decimal::zero());
    assert_eq!(Decimal::ratio(0, 0), Decimal::zero());
}

#[test]
fn float_bits_of_exact_values() {
    assert_eq!(from_float(0.0), Some(Decimal::zero()));
    assert_eq!(from_float(1.0), Some(Decimal::from_units(1)));
    assert_eq!(from_float(12.5), Some(Decimal::from_nanos(12_500_000_000)));
    assert_eq!(from_float(1024.0), Some(Decimal::from_units(1024)));
    assert_eq!(from_float(0.5), Some(Decimal::from_nanos(500_000_000)));
    assert_eq!(from_float(1e15), Some(Decimal::from_units(1_000_000_000_000_000)));
}

#[test]
fn float_bits_round_to_the_nearest_billionth() {
    assert_eq!(from_float(0.1), Some(Decimal::from_nanos(100_000_000)));
    assert_eq!(from_float(0.3), Some(Decimal::from_nanos(300_000_000)));
    assert_eq!(from_float(84.999999), Some(Decimal::from_nanos(84_999_999_000)));
    assert_eq!(from_float(0.0001005), Some(Decimal::from_nanos(100_500)));
    assert_eq!(from_float(1e-9), Some(Decimal::from_nanos(1)));
    assert_eq!(from_float(0.4e-9), Some(Decimal::zero()));
    assert_eq!(from_float(0.6e-9), Some(Decimal::from_nanos(1)));
    assert_eq!(from_float(2.5e-9), Some(Decimal::from_nanos(3)));
}

#[test]
fn float_bits_agree_with_float_rounding_on_many_values() {
    let mut x: f64 = 0.000123;
    let mut i = 0;
    while i < 400 {
        let wanted = (x * 1e9).round() as u128;
        let got = from_float(x).unwrap().nanos;
        let diff = if wanted > got { wanted - got } else { got - wanted };
        assert!(diff <= 1 + wanted / 1_000_000_000_000_000, "{} gave {} not {}", x, got, wanted);
        x = x * 1.37 + 0.011;
        i += 1;
    }
}

#[test]
fn float_bits_of_subnormal_and_tiny_values_are_zero() {
    assert_eq!(from_float(f64::MIN_POSITIVE), Some(Decimal::zero()));
    assert_eq!(from_float(5e-324), Some(Decimal::zero()));
    assert_eq!(from_float(1e-300), Some(Decimal::zero()));
}

#[test]
fn float_bits_of_negative_zero_is_zero() {
    assert_eq!(from_float(-0.0), Some(Decimal::zero()));
}

#[test]
fn float_bits_refuse_negative_and_non_finite_values() {
    assert_eq!(from_float(-1.0), None);
    assert_eq!(from_float(-1e-300), None);
    assert_eq!(from_float(f64::INFINITY), None);
    assert_eq!(from_float(f64::NEG_INFINITY), None);
    assert_eq!(from_float(f64::NAN), None);
}

#[test]
fn float_bits_hold_huge_values_at_the_largest_decimal() {
    assert_eq!(from_float(1e300), Some(Decimal::from_nanos(u128::MAX)));
    assert_eq!(from_float(f64::MAX), Some(Decimal::from_nanos(u128::MAX)));
    assert_eq!(from_float(1e29), Some(Decimal::from_nanos(1e29 as u128 * UNIT)));
    assert_eq!(from_float(1e30), Some(Decimal::from_nanos(u128::MAX)));
}

fn signed_from_float(x: f64) -> Option<SignedDecimal> {
    SignedDecimal::from_float_bits(x.to_bits())
}

#[test]
fn signed_decimal_is_built_from_units_and_nanos() {
    assert_eq!(SignedDecimal::from_units(-3).nanos, -3_000_000_000);
    assert_eq!(SignedDecimal::from_units(3).nanos, 3_000_000_000);
    assert_eq!(SignedDecimal::from_units(i64::MIN).nanos, i64::MIN as i128 * 1_000_000_000);
    assert_eq!(SignedDecimal::from_nanos(-1).nanos, -1);
    assert_eq!(SignedDecimal::zero().nanos, 0);
}

#[test]
fn signed_float_bits_keep_the_sign() {
    assert_eq!(signed_from_float(-5.0), Some(SignedDecimal::from_units(-5)));
    assert_eq!(signed_from_float(5.0), Some(SignedDecimal::from_units(5)));
    assert_eq!(signed_from_float(-0.3), Some(SignedDecimal::from_nanos(-300_000_000)));
    assert_eq!(signed_from_float(-2.5e-9), Some(SignedDecimal::from_nanos(-3)));
    assert_eq!(signed_from_float(-0.4e-9), Some(SignedDecimal::zero()));
    assert_eq!(signed_from_float(-0.0), Some(SignedDecimal::zero()));
    assert_eq!(signed_from_float(0.0), Some(SignedDecimal::zero()));
    assert_eq!(signed_from_float(12.5), Some(SignedDecimal::from_nanos(12_500_000_000)));
}

#[test]
fn signed_float_bits_are_held_at_the_bounds() {
    assert_eq!(signed_from_float(1e300), Some(SignedDecimal::from_nanos(i128::MAX)));
    assert_eq!(signed_from_float(-1e300), Some(SignedDecimal::from_nanos(i128::MIN)));
    assert_eq!(signed_from_float(f64::MAX), Some(SignedDecimal::from_nanos(i128::MAX)));
    assert_eq!(signed_from_float(f64::MIN), Some(SignedDecimal::from_nanos(i128::MIN)));
    assert_eq!(signed_from_float(1e29), Some(SignedDecimal::from_nanos(1e29 as i128 * 1_000_000_000)));
    assert_eq!(signed_from_float(-1e29), Some(SignedDecimal::from_nanos(-(1e29 as i128) * 1_000_000_000)));
}

#[test]
fn signed_float_bits_refuse_values_that_are_not_finite() {
    assert_eq!(signed_from_float(f64::INFINITY), None);
    assert_eq!(signed_from_float(f64::NEG_INFINITY), None);
    assert_eq!(signed_from_float(f64::NAN), None);
}
