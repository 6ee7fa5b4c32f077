use crabscore::decimal::Decimal;
use crabscore::profiles::{IndustryProfile, ProfileWeights};

fn as_float(d: Decimal) -> f64 {
    d.nanos as f64 / 1e9
}

fn tenths(n: u128) -> Decimal {
    Decimal::from_nanos(n * 100_000_000)
}

#[test]
fn test_industry_profile_weights() {
    let profile = IndustryProfile::WebServices;
    let weights = profile.weights();
    assert!(
        (as_float(weights.performance) + as_float(weights.energy) + as_float(weights.cost) - 1.0)
            .abs()
            < f64::EPSILON
    );
}

#[test]
fn every_preset_has_its_documented_weights() {
    let cases = [
        (IndustryProfile::WebServices, 4, 3, 3),
        (IndustryProfile::IotEmbedded, 2, 6, 2),
        (IndustryProfile::Financial, 5, 2, 3),
        (IndustryProfile::Gaming, 6, 2, 2),
        (IndustryProfile::Enterprise, 3, 3, 4),
    ];
    for (profile, p, e, c) in cases {
        let w = profile.weights();
        assert_eq!(w.performance, tenths(p));
        assert_eq!(w.energy, tenths(e));
        assert_eq!(w.cost, tenths(c));
        assert_eq!(w.performance.nanos + w.energy.nanos + w.cost.nanos, 1_000_000_000);
    }
}

#[test]
fn custom_profile_hands_its_weights_back() {
    let w = ProfileWeights::new(tenths(1), tenths(1), tenths(8));
    let got = IndustryProfile::Custom(w).weights();
    assert_eq!(got.performance, tenths(1));
    assert_eq!(got.energy, tenths(1));
    assert_eq!(got.cost, tenths(8));
}

#[test]
fn default_profile_is_web_services() {
    assert_eq!(IndustryProfile::default(), IndustryProfile::WebServices);
    let w = ProfileWeights::default();
    assert_eq!(w.performance, tenths(4));
    assert_eq!(w.energy, tenths(3));
    assert_eq!(w.cost, tenths(3));
}

#[test]
fn weights_are_valid_within_a_ten_thousandth_of_one() {
    assert!(ProfileWeights::is_valid(tenths(4), tenths(3), tenths(3)));
    assert!(ProfileWeights::is_valid(
        Decimal::from_nanos(400_099_999),
        tenths(3),
        tenths(3)
    ));
    assert!(!ProfileWeights::is_valid(
        Decimal::from_nanos(400_100_000),
        tenths(3),
        tenths(3)
    ));
    assert!(ProfileWeights::is_valid(
        Decimal::from_nanos(399_900_001),
        tenths(3),
        tenths(3)
    ));
    assert!(!ProfileWeights::is_valid(
        Decimal::from_nanos(399_900_000),
        tenths(3),
        tenths(3)
    ));
    assert!(!ProfileWeights::is_valid(tenths(5), tenths(5), tenths(5)));
    assert!(!ProfileWeights::is_valid(
        Decimal::from_nanos(u128::MAX),
        Decimal::from_nanos(u128::MAX),
        Decimal::from_nanos(2)
    ));
}

#[test]
fn weights_compare_equal_within_the_tolerance() {
    let a = ProfileWeights::new(tenths(4), tenths(3), tenths(3));
    let b = ProfileWeights::new(
        Decimal::from_nanos(400_050_000),
        Decimal::from_nanos(299_950_000),
        tenths(3),
    );
    let c = ProfileWeights::new(tenths(3), tenths(4), tenths(3));
    assert!(a == b);
    assert!(a != c);
    assert!(IndustryProfile::Custom(a) == IndustryProfile::Custom(b));
    assert!(IndustryProfile::Custom(a) != IndustryProfile::WebServices);
}

#[test]
fn weights_are_ordered_field_by_field() {
    let low = ProfileWeights::new(tenths(2), tenths(6), tenths(2));
    let high = ProfileWeights::new(tenths(4), tenths(3), tenths(3));
    assert!(low < high);
    assert!(high > low);
    assert!(low <= low);
    let tie = ProfileWeights::new(tenths(4), tenths(2), tenths(4));
    assert!(tie < high);
}
