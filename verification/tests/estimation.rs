use crabscore::complexity::ProjectComplexity;
use crabscore::decimal::{Decimal, SignedDecimal};
use crabscore::estimation::{
    estimate_cost_from_complexity, estimate_energy_from_complexity,
    estimate_performance_from_complexity,
};
use crabscore::metrics::ScalabilityMetrics;

fn nanos(n: u128) -> Decimal {
    Decimal::from_nanos(n)
}

fn rounded(x: f64) -> Decimal {
    Decimal::from_nanos((x * 1e9).round() as u128)
}

fn project(total_lines: usize, function_count: usize) -> ProjectComplexity {
    ProjectComplexity {
        file_count: 1,
        total_lines,
        function_count,
        module_count: 0,
        test_count: 0,
        doc_lines: 1,
        dependency_count: 0,
    }
}

fn signed(x: f64) -> SignedDecimal {
    SignedDecimal::from_nanos((x * 1e9).round() as i128)
}

fn close(got: f64, wanted: f64) {
    assert!((got - wanted).abs() <= 2e-9 * wanted.abs().max(1.0), "{} is not {}", got, wanted);
}

fn near(got: Decimal, wanted: f64) {
    close(got.nanos as f64 / 1e9, wanted);
}

fn near_signed(got: SignedDecimal, wanted: f64) {
    close(got.nanos as f64 / 1e9, wanted);
}

#[test]
fn one_file_scenario_gives_the_documented_estimates() {
    // 50 lines: complexity factor 0.05
    let c = project(50, 2);
    assert_eq!(c.complexity_factor(), nanos(50_000_000));
    let p = estimate_performance_from_complexity(&c);
    assert_eq!(p.latency.p50_ms, nanos(10_250_000_000));
    let k = estimate_cost_from_complexity(&c);
    assert_eq!(k.infrastructure.cloud_compute_usd, SignedDecimal::from_units(11));
}

#[test]
fn performance_estimate_at_factor_one_twentieth() {
    let p = estimate_performance_from_complexity(&project(50, 2));
    assert_eq!(p.latency.p50_ms, rounded(10.25));
    assert_eq!(p.latency.p95_ms, rounded(15.375));
    assert_eq!(p.latency.p99_ms, rounded(20.5));
    assert_eq!(p.latency.cold_start_ms, rounded(30.75));
    assert_eq!(p.latency.ttfb_ms, rounded(3.075));
    assert_eq!(p.throughput.requests_per_second, nanos(1_000_000_000_000_000_000_000 / 10_250_000_000));
    assert_eq!(p.throughput.requests_per_second, nanos(97_560_975_609));
    assert_eq!(p.throughput.mb_per_second, rounded(100.0));
    assert_eq!(p.throughput.concurrent_connections, 100);
    assert_eq!(p.throughput.queue_depth, rounded(10.0));
    assert_eq!(p.resource_usage.cpu_efficiency, rounded(0.7975));
    assert_eq!(p.resource_usage.memory_bandwidth_gb_s, rounded(10.0));
    assert_eq!(p.resource_usage.io_operations_per_sec, rounded(1000.0));
    assert_eq!(p.resource_usage.cache_hit_rate, rounded(0.899));
    assert_eq!(p.scalability, ScalabilityMetrics::default());
}

#[test]
fn energy_estimate_at_factor_one_twentieth() {
    let e = estimate_energy_from_complexity(&project(50, 2));
    assert_eq!(e.direct_consumption.average_watts, rounded(5.1));
    assert_eq!(e.direct_consumption.peak_watts, rounded(10.25));
    assert_eq!(e.direct_consumption.idle_watts, rounded(2.025));
    assert_eq!(e.direct_consumption.joules_per_operation, rounded(0.001005));
    assert_eq!(e.carbon_efficiency.co2_per_operation, rounded(0.0001005));
    assert_eq!(e.carbon_efficiency.carbon_intensity, rounded(400.0));
    assert_eq!(e.carbon_efficiency.renewable_percentage, rounded(0.3));
    assert_eq!(e.hardware_lifecycle.thermal_efficiency, rounded(0.8));
    assert_eq!(e.hardware_lifecycle.component_stress, rounded(0.2025));
    assert_eq!(e.hardware_lifecycle.expected_lifespan_years, rounded(5.0));
    assert_eq!(e.algorithmic_efficiency.time_complexity, "O(n)");
    assert_eq!(e.algorithmic_efficiency.space_complexity, "O(1)");
    assert_eq!(e.algorithmic_efficiency.actual_time_coefficient, rounded(1.005));
    assert_eq!(e.algorithmic_efficiency.actual_space_coefficient, rounded(1.0025));
}

#[test]
fn cost_estimate_at_factor_one_twentieth() {
    let k = estimate_cost_from_complexity(&project(50, 2));
    assert_eq!(k.infrastructure.cloud_compute_usd, signed(11.0));
    assert_eq!(k.infrastructure.storage_usd, signed(1.1));
    assert_eq!(k.infrastructure.network_egress_usd, signed(5.25));
    assert_eq!(k.infrastructure.cost_per_million_ops, signed(0.1025));
    assert_eq!(k.operations.mttr_minutes, signed(32.0));
    assert_eq!(k.operations.incidents_per_month, signed(0.51));
    assert_eq!(k.operations.overhead_percentage, signed(0.101));
    assert_eq!(k.operations.monitoring_usd, signed(5.25));
    assert_eq!(k.development.loc, 50);
    assert_eq!(k.development.cyclomatic_complexity, signed(1.2));
    assert_eq!(k.development.code_churn, signed(102.5));
    assert_eq!(k.development.onboarding_days, signed(1.1));
    assert_eq!(k.business_impact.revenue_per_100ms_latency, signed(100.0));
    assert_eq!(k.business_impact.csat_score, signed(79.9));
    assert_eq!(k.business_impact.sla_compliance, signed(0.9895));
    assert_eq!(k.business_impact.competitive_advantage, signed(6.985));
}

#[test]
fn estimates_follow_the_float_formulas_at_every_size() {
    for lines in [0usize, 1, 7, 50, 999, 1000, 1234, 5000, 9999, 10_000, 25_000, 1_000_000] {
        for functions in [0usize, 3, 10, 57] {
            let c = project(lines, functions);
            let f = (lines as f64 / 1000.0).min(10.0);
            let base = 10.0 + f * 5.0;
            let p = estimate_performance_from_complexity(&c);
            near(p.latency.p50_ms, base);
            near(p.latency.p95_ms, base * 1.5);
            near(p.latency.p99_ms, base * 2.0);
            near(p.latency.cold_start_ms, base * 3.0);
            near(p.latency.ttfb_ms, base * 0.3);
            near(p.throughput.requests_per_second, 1000.0 / base);
            near(p.throughput.mb_per_second, 100.0 / f.max(1.0));
            near(p.resource_usage.cpu_efficiency, 0.8 - (f * 0.05).min(0.5));
            near(p.resource_usage.cache_hit_rate, 0.9 - (f * 0.02).min(0.3));
            let e = estimate_energy_from_complexity(&c);
            near(e.direct_consumption.average_watts, 5.0 + f * 2.0);
            near(e.direct_consumption.peak_watts, 10.0 + f * 5.0);
            near(e.direct_consumption.idle_watts, 2.0 + f * 0.5);
            near(e.direct_consumption.joules_per_operation, 0.001 * (1.0 + f * 0.1));
            near(e.carbon_efficiency.co2_per_operation, 0.0001 * (1.0 + f * 0.1));
            near(e.hardware_lifecycle.component_stress, 0.2 + (f * 0.05).min(0.5));
            near(e.algorithmic_efficiency.actual_time_coefficient, 1.0 + f * 0.1);
            near(e.algorithmic_efficiency.actual_space_coefficient, 1.0 + f * 0.05);
            let k = estimate_cost_from_complexity(&c);
            let maintenance = functions as f64 / 10.0;
            near_signed(k.infrastructure.cloud_compute_usd, 10.0 + f * 20.0);
            near_signed(k.infrastructure.storage_usd, 1.0 + f * 2.0);
            near_signed(k.infrastructure.network_egress_usd, 5.0 + f * 5.0);
            near_signed(k.infrastructure.cost_per_million_ops, 0.1 + f * 0.05);
            near_signed(k.operations.mttr_minutes, 30.0 + maintenance * 10.0);
            near_signed(k.operations.incidents_per_month, 0.5 + f * 0.2);
            near_signed(k.operations.overhead_percentage, 0.1 + (f * 0.02).min(0.3));
            near_signed(k.operations.monitoring_usd, 5.0 + f * 5.0);
            assert_eq!(k.development.loc, lines as u64);
            near_signed(k.development.cyclomatic_complexity, 1.0 + maintenance);
            near_signed(k.development.code_churn, 100.0 + f * 50.0);
            near_signed(k.development.onboarding_days, 1.0 + (f * 2.0).min(14.0));
            near_signed(k.business_impact.csat_score, 80.0 - f * 2.0);
            near_signed(k.business_impact.sla_compliance, 0.99 - (f * 0.01).min(0.1));
            near_signed(k.business_impact.competitive_advantage, 7.0 - (f * 0.3).min(4.0));
        }
    }
}

#[test]
fn estimates_are_capped_at_factor_ten() {
    let big = estimate_performance_from_complexity(&project(10_000, 0));
    let huge = estimate_performance_from_complexity(&project(usize::MAX, 0));
    assert_eq!(big, huge);
    assert_eq!(big.latency.p50_ms, rounded(60.0));
    assert_eq!(big.resource_usage.cpu_efficiency, rounded(0.3));
    assert_eq!(big.resource_usage.cache_hit_rate, rounded(0.7));
    assert_eq!(big.throughput.mb_per_second, rounded(10.0));
    let k = estimate_cost_from_complexity(&project(usize::MAX, usize::MAX));
    assert_eq!(k.business_impact.competitive_advantage, signed(4.0));
    assert_eq!(k.operations.overhead_percentage, signed(0.3));
    assert_eq!(k.development.onboarding_days, signed(15.0));
    assert_eq!(
        k.operations.mttr_minutes.nanos,
        30_000_000_000 + usize::MAX as i128 * 1_000_000_000 / 10 * 10
    );
}
