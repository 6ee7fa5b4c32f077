use crabscore::decimal::{Decimal, SignedDecimal};
use crabscore::metrics::{CostMetrics, EnergyMetrics, PerformanceMetrics, SafetyMetrics};
use crabscore::profiles::{IndustryProfile, ProfileWeights};
use crabscore::score::{Certification, ScoreMetadata, Timestamp};
use crabscore::scoring::{score_cost, score_energy, score_performance, score_safety, ScoringEngine};

fn nanos(n: u128) -> Decimal {
    Decimal::from_nanos(n)
}

fn units(n: u64) -> Decimal {
    Decimal::from_units(n)
}

fn stamp() -> Timestamp {
    Timestamp { seconds: 1_700_000_000, nanos: 42 }
}

fn perf(p95: Decimal, tps: Decimal, cpu: Decimal) -> PerformanceMetrics {
    let mut m = PerformanceMetrics::default();
    m.latency.p95_ms = p95;
    m.throughput.requests_per_second = tps;
    m.resource_usage.cpu_efficiency = cpu;
    m
}

fn energy(watts: Decimal, renewable: Decimal) -> EnergyMetrics {
    let mut m = EnergyMetrics::default();
    m.direct_consumption.average_watts = watts;
    m.carbon_efficiency.renewable_percentage = renewable;
    m
}

fn cost(cloud: Decimal, overhead: Decimal) -> CostMetrics {
    signed_cost(cloud.nanos.min(i128::MAX as u128) as i128, overhead.nanos.min(i128::MAX as u128) as i128)
}

fn signed_cost(cloud: i128, overhead: i128) -> CostMetrics {
    let mut m = CostMetrics::default();
    m.infrastructure.cloud_compute_usd = SignedDecimal::from_nanos(cloud);
    m.operations.overhead_percentage = SignedDecimal::from_nanos(overhead);
    m
}

fn safety(unsafe_blocks: u32, clippy_warnings: u32, avg: Decimal) -> SafetyMetrics {
    SafetyMetrics { unsafe_blocks, clippy_warnings, avg_cyclomatic: avg }
}

#[test]
fn performance_score_of_known_measurements() {
    // latency 100/(1+1) = 50, throughput 100*1000/2000 = 50, resource 100*0.5 = 50
    assert_eq!(score_performance(&perf(units(100), units(1000), nanos(500_000_000))), units(50));
    // latency 100, throughput 0, resource 0: mean 33.333333333
    assert_eq!(
        score_performance(&PerformanceMetrics::default()),
        nanos(33_333_333_333)
    );
    // latency 100/(1+3) = 25, throughput 100*3000/4000 = 75, resource 100
    assert_eq!(
        score_performance(&perf(units(300), units(3000), units(2))),
        nanos(66_666_666_666)
    );
}

#[test]
fn performance_score_rounds_each_part_down() {
    // latency 100/(1+0.15375) = 86.674..., throughput 100*97.56/1097.56, resource 79.75
    let m = perf(nanos(15_375_000_000), nanos(97_560_975_609), nanos(797_500_000));
    let latency: u128 = 10_000_000_000_000_000_000_000 / 115_375_000_000;
    let throughput: u128 = 100_000_000_000 * 97_560_975_609 / 1_097_560_975_609;
    let resource: u128 = 79_750_000_000;
    assert_eq!(score_performance(&m), nanos((latency + throughput + resource) / 3));
}

#[test]
fn performance_score_stays_in_range_for_extreme_measurements() {
    let max = nanos(u128::MAX);
    assert_eq!(score_performance(&perf(max, nanos(0), nanos(0))), nanos(0));
    // latency 0, throughput just below 100, resource 100
    assert_eq!(
        score_performance(&perf(max, max, max)),
        nanos((99_999_999_999 + 100_000_000_000) / 3)
    );
    assert_eq!(
        score_performance(&perf(nanos(0), max, max)),
        nanos((100_000_000_000 + 99_999_999_999 + 100_000_000_000) / 3)
    );
    let huge = nanos(100_000_000_000_000_000_000_000);
    assert_eq!(
        score_performance(&perf(max, huge, nanos(0))),
        nanos(99_999_999_999 / 3)
    );
    let below = nanos(99_999_999_999_999_999_999_999);
    assert_eq!(
        score_performance(&perf(max, below, nanos(0))),
        nanos(99_999_999_999 / 3)
    );
}

#[test]
fn energy_score_of_known_measurements() {
    // power 100/(1+1) = 50, renewable 30: mean 40
    assert_eq!(score_energy(&energy(units(100), nanos(300_000_000))), units(40));
    // power 100, renewable 0: mean 50
    assert_eq!(score_energy(&EnergyMetrics::default()), units(50));
    // power 100/(1+0.051) = 95.147..., renewable 30
    let power: u128 = 10_000_000_000_000_000_000_000 / 105_100_000_000;
    assert_eq!(
        score_energy(&energy(nanos(5_100_000_000), nanos(300_000_000))),
        nanos((power + 30_000_000_000) / 2)
    );
}

#[test]
fn energy_score_is_held_at_one_hundred() {
    assert_eq!(score_energy(&energy(units(0), units(1))), units(100));
    assert_eq!(score_energy(&energy(units(0), units(2))), units(100));
    assert_eq!(score_energy(&energy(units(100), nanos(1_500_000_000))), units(100));
    assert_eq!(score_energy(&energy(nanos(u128::MAX), nanos(u128::MAX))), units(100));
    assert_eq!(score_energy(&energy(nanos(u128::MAX), nanos(1_999_999_999))), nanos(99_999_999_950));
}

#[test]
fn cost_score_of_known_measurements() {
    // infra 100/(1+1) = 50, ops 100/(1+1) = 50
    assert_eq!(score_cost(&cost(units(1000), units(1))), units(50));
    // both at zero: 100
    assert_eq!(score_cost(&CostMetrics::default()), units(100));
    // infra 100/(1+0.011), ops 100/(1+0.101)
    let infra: u128 = 100_000_000_000_000_000_000_000 / 1_011_000_000_000;
    let ops: u128 = 100_000_000_000_000_000_000 / 1_101_000_000;
    assert_eq!(
        score_cost(&cost(units(11), nanos(101_000_000))),
        nanos((infra + ops) / 2)
    );
    assert_eq!(score_cost(&cost(nanos(u128::MAX), nanos(u128::MAX))), nanos(0));
}

#[test]
fn safety_bonus_of_a_clean_project_is_ten() {
    assert_eq!(score_safety(&safety(0, 0, units(1))), units(10));
    assert_eq!(score_safety(&SafetyMetrics::default()), units(10));
}

#[test]
fn safety_bonus_with_one_unsafe_block_is_six() {
    assert_eq!(score_safety(&safety(1, 0, units(1))), units(6));
}

#[test]
fn safety_bonus_counts_each_part() {
    assert_eq!(score_safety(&safety(0, 1, units(1))), units(7));
    assert_eq!(score_safety(&safety(0, 0, units(10))), units(10));
    assert_eq!(score_safety(&safety(0, 0, nanos(10_000_000_001))), units(7));
    assert_eq!(score_safety(&safety(3, 9, units(11))), units(0));
    assert_eq!(score_safety(&safety(u32::MAX, 0, nanos(u128::MAX))), units(3));
}

#[test]
fn certification_thresholds_are_exact() {
    assert_eq!(Certification::for_score(units(85)), Certification::Certified);
    assert_eq!(Certification::for_score(nanos(84_999_999_000)), Certification::Verified);
    assert_eq!(Certification::for_score(nanos(84_999_999_999)), Certification::Verified);
    assert_eq!(Certification::for_score(units(70)), Certification::Verified);
    assert_eq!(Certification::for_score(nanos(69_999_999_000)), Certification::Uncertified);
    assert_eq!(Certification::for_score(nanos(69_999_999_999)), Certification::Uncertified);
    assert_eq!(Certification::for_score(units(0)), Certification::Uncertified);
    assert_eq!(Certification::for_score(units(120)), Certification::Certified);
    assert_eq!(Certification::for_score(nanos(u128::MAX)), Certification::Certified);
}

#[test]
fn certification_tiers_are_ordered() {
    let tiers = [
        Certification::Uncertified,
        Certification::Verified,
        Certification::Certified,
        Certification::Elite,
        Certification::Pioneer,
        Certification::Sustainable,
    ];
    for (i, t) in tiers.iter().enumerate() {
        assert_eq!(t.rank() as usize, i);
    }
}

#[test]
fn overall_score_weights_the_axes_and_adds_the_bonus() {
    let engine = ScoringEngine::new(IndustryProfile::WebServices);
    let p = perf(units(100), units(1000), nanos(500_000_000)); // 50
    let e = energy(units(100), nanos(300_000_000)); // 40
    let c = cost(units(1000), units(1)); // 50
    let s = engine.calculate_score(&p, &e, &c, &safety(0, 0, units(1)), stamp());
    assert_eq!(s.performance, units(50));
    assert_eq!(s.energy, units(40));
    assert_eq!(s.cost, units(50));
    assert_eq!(s.bonuses, units(10));
    // 50*0.4 + 40*0.3 + 50*0.3 + 10 = 57
    assert_eq!(s.overall, units(57));
    assert_eq!(s.certification, Certification::Uncertified);
    assert_eq!(s.timestamp, stamp());
    assert_eq!(s.metadata, ScoreMetadata::blank(IndustryProfile::WebServices));
    assert_eq!(s.metadata.profile, IndustryProfile::WebServices);
    assert_eq!(s.metadata.project_name, "");
    assert_eq!(s.metadata.measurements.iterations, 0);
}

#[test]
fn overall_score_depends_on_the_profile() {
    let p = perf(units(0), units(1000), units(1)); // (100 + 50 + 100) / 3 = 83.333333333
    let e = energy(units(100), nanos(300_000_000)); // 40
    let c = cost(units(0), units(0)); // 100
    let clean = safety(0, 0, units(1));
    let gaming = ScoringEngine::new(IndustryProfile::Gaming)
        .calculate_score(&p, &e, &c, &clean, stamp());
    // (83.333333333*0.6 + 40*0.2 + 100*0.2) + 10
    let weighted: u128 =
        (83_333_333_333u128 * 600_000_000 + 40_000_000_000u128 * 200_000_000 + 100_000_000_000u128 * 200_000_000)
            / 1_000_000_000;
    assert_eq!(gaming.overall, nanos(weighted + 10_000_000_000));
    assert_eq!(gaming.overall, nanos(87_999_999_999));
    assert_eq!(gaming.certification, Certification::Certified);
    let iot = ScoringEngine::new(IndustryProfile::IotEmbedded)
        .calculate_score(&p, &e, &c, &clean, stamp());
    let weighted: u128 =
        (83_333_333_333u128 * 200_000_000 + 40_000_000_000u128 * 600_000_000 + 100_000_000_000u128 * 200_000_000)
            / 1_000_000_000;
    assert_eq!(iot.overall, nanos(weighted + 10_000_000_000));
    assert_eq!(iot.overall, nanos(70_666_666_666));
    assert_eq!(iot.certification, Certification::Verified);
}

#[test]
fn best_measurements_are_certified() {
    let p = perf(units(0), nanos(u128::MAX), units(1));
    let e = energy(units(0), units(1));
    let c = cost(units(0), units(0));
    let s = ScoringEngine::new(IndustryProfile::Enterprise)
        .calculate_score(&p, &e, &c, &safety(0, 0, units(1)), stamp());
    assert_eq!(s.performance, nanos(99_999_999_999));
    assert_eq!(s.energy, units(100));
    assert_eq!(s.cost, units(100));
    assert_eq!(s.overall, nanos(99_999_999_999 + 10_000_000_000));
    assert_eq!(s.certification, Certification::Certified);
}

#[test]
fn custom_weights_at_the_edge_of_the_tolerance_do_not_overflow() {
    let w = ProfileWeights::new(nanos(1_000_099_999), nanos(0), nanos(0));
    let engine = ScoringEngine::new(IndustryProfile::Custom(w));
    assert_eq!(engine.profile(), IndustryProfile::Custom(w));
    let p = perf(units(0), nanos(u128::MAX), nanos(u128::MAX));
    let s = engine.calculate_score(
        &p,
        &EnergyMetrics::default(),
        &CostMetrics::default(),
        &safety(0, 0, units(1)),
        stamp(),
    );
    assert_eq!(s.overall, nanos(99_999_999_999u128 * 1_000_099_999 / 1_000_000_000 + 10_000_000_000));
    assert!(s.overall.nanos <= 110_010_000_000);
}

#[test]
fn score_is_stamped_with_the_time_given() {
    let engine = ScoringEngine::new(IndustryProfile::WebServices);
    let when = Timestamp { seconds: -86_400, nanos: 999_999_999 };
    let s = engine.calculate_score(
        &PerformanceMetrics::default(),
        &EnergyMetrics::default(),
        &CostMetrics::default(),
        &SafetyMetrics::default(),
        when,
    );
    // 33.333333333*0.4 + 50*0.3 + 100*0.3 + 10
    assert_eq!(s.overall, nanos(13_333_333_333 + 15_000_000_000 + 30_000_000_000 + 10_000_000_000));
    assert_eq!(s.timestamp, when);
}

#[test]
fn cost_score_of_figures_below_zero() {
    let unit: i128 = 1_000_000_000;
    // infra 100/(1 - 0.5) = 200, ops 100: mean 150, held at 100
    assert_eq!(score_cost(&signed_cost(-500 * unit, 0)), units(100));
    // infra 100/(1 - 2) = -100, ops 100: mean 0
    assert_eq!(score_cost(&signed_cost(-2000 * unit, 0)), units(0));
    // infra 100/(1 - 3) = -50, ops 100/(1 + 1) = 50: mean 0
    assert_eq!(score_cost(&signed_cost(-3000 * unit, unit)), units(0));
    // infra 100/(1 - 5) = -25, ops 100: mean 37.5
    assert_eq!(score_cost(&signed_cost(-5000 * unit, 0)), nanos(37_500_000_000));
    // infra 100/(1 + 1) = 50, ops 100/(1 - 3) = -50: mean 0
    assert_eq!(score_cost(&signed_cost(1000 * unit, -3 * unit)), units(0));
    // infra 100/(1 + 1) = 50, ops 100/(1 - 4) = -33.333333333: mean 8.333333333
    assert_eq!(score_cost(&signed_cost(1000 * unit, -4 * unit)), nanos(8_333_333_333));
    // infra 100/(1 - 4) = -33.333333333, ops 100/(1 + 1) = 50: mean 8.333333333
    assert_eq!(score_cost(&signed_cost(-4000 * unit, unit)), nanos(8_333_333_333));
    // both far below zero
    assert_eq!(score_cost(&signed_cost(i128::MIN, i128::MIN)), units(0));
    assert_eq!(score_cost(&signed_cost(i128::MAX, i128::MIN)), units(0));
}

#[test]
fn cost_score_where_a_part_is_unbounded() {
    let unit: i128 = 1_000_000_000;
    // 1 + cloud/1000 is zero
    assert_eq!(score_cost(&signed_cost(-1000 * unit, 0)), units(100));
    assert_eq!(score_cost(&signed_cost(-1000 * unit, -5 * unit)), units(100));
    // 1 + overhead is zero
    assert_eq!(score_cost(&signed_cost(50 * unit, -unit)), units(100));
    assert_eq!(score_cost(&signed_cost(-1000 * unit, -unit)), units(100));
    // just beside the pole the part is huge and the mean held at 100
    assert_eq!(score_cost(&signed_cost(-1000 * unit + 1, 0)), units(100));
    assert_eq!(score_cost(&signed_cost(-1000 * unit - 1, 0)), units(0));
}
