//! Estimates for projects that cannot be run.
//!
//! When no artifact can be found or built, performance, energy and cost are
//! estimated from the project's counters alone. Every estimate is a fixed
//! formula of the complexity factor `f`, which lies between 0 and 10, or of
//! the number of functions. In the formulas below `f` is in billionths, a
//! product with a decimal constant is written as a product and a quotient
//! (`f * 5 / 100` for `0.05 f`), and each quotient is rounded down.

use vstd::prelude::*;
use vstd::string::StringExecFns;
use crate::complexity::{complexity_factor_nanos, ProjectComplexity};
use crate::decimal::{Decimal, SignedDecimal, UNIT};
use crate::metrics::{
    AlgorithmEfficiency, BusinessImpact, CarbonEfficiency, CostMetrics, DevelopmentCosts,
    EnergyMetrics, HardwareLifecycle, InfrastructureCosts, LatencyMetrics, OperationalCosts,
    PerformanceMetrics, PowerConsumption, ResourceMetrics, ScalabilityMetrics, ThroughputMetrics,
};

verus! {

/// The smaller of two numbers.
pub open spec fn least(a: int, b: int) -> int {
    if a < b {
        a
    } else {
        b
    }
}

/// The larger of two numbers.
pub open spec fn greatest(a: int, b: int) -> int {
    if a > b {
        a
    } else {
        b
    }
}

/// The base latency in milliseconds: `10 + 5 f`.
pub open spec fn base_latency(f: int) -> int {
    10 * UNIT + 5 * f
}

/// `m` holds the performance estimated at the complexity factor `f`.
pub open spec fn estimated_performance(f: int, m: PerformanceMetrics) -> bool {
    let base = base_latency(f);
    &&& m.latency.p50_ms@ == base
    &&& m.latency.p95_ms@ == base * 15 / 10
    &&& m.latency.p99_ms@ == base * 2
    &&& m.latency.cold_start_ms@ == base * 3
    &&& m.latency.ttfb_ms@ == base * 3 / 10
    &&& m.throughput.requests_per_second@ == (1000 * UNIT * UNIT) / base
    &&& m.throughput.mb_per_second@ == (100 * UNIT * UNIT) / greatest(f, UNIT as int)
    &&& m.throughput.concurrent_connections == 100
    &&& m.throughput.queue_depth@ == 10 * UNIT
    &&& m.resource_usage.cpu_efficiency@ == 800_000_000 - least(f * 5 / 100, 500_000_000)
    &&& m.resource_usage.memory_bandwidth_gb_s@ == 10 * UNIT
    &&& m.resource_usage.io_operations_per_sec@ == 1000 * UNIT
    &&& m.resource_usage.cache_hit_rate@ == 900_000_000 - least(f * 2 / 100, 300_000_000)
    &&& m.scalability.is_default()
}

/// `m` holds the energy estimated at the complexity factor `f`.
pub open spec fn estimated_energy(f: int, m: EnergyMetrics) -> bool {
    &&& m.direct_consumption.average_watts@ == 5 * UNIT + 2 * f
    &&& m.direct_consumption.peak_watts@ == 10 * UNIT + 5 * f
    &&& m.direct_consumption.idle_watts@ == 2 * UNIT + f * 5 / 10
    &&& m.direct_consumption.joules_per_operation@ == (UNIT + f / 10) / 1000
    &&& m.carbon_efficiency.co2_per_operation@ == (UNIT + f / 10) / 10_000
    &&& m.carbon_efficiency.carbon_intensity@ == 400 * UNIT
    &&& m.carbon_efficiency.renewable_percentage@ == 300_000_000
    &&& m.hardware_lifecycle.thermal_efficiency@ == 800_000_000
    &&& m.hardware_lifecycle.component_stress@ == 200_000_000 + least(f * 5 / 100, 500_000_000)
    &&& m.hardware_lifecycle.expected_lifespan_years@ == 5 * UNIT
    &&& m.algorithmic_efficiency.time_complexity@ == "O(n)"@
    &&& m.algorithmic_efficiency.space_complexity@ == "O(1)"@
    &&& m.algorithmic_efficiency.actual_time_coefficient@ == UNIT + f / 10
    &&& m.algorithmic_efficiency.actual_space_coefficient@ == UNIT + f * 5 / 100
}

/// `m` holds the cost estimated at the complexity factor `f` for a project
/// of `lines` lines and `functions` functions.
pub open spec fn estimated_cost(f: int, lines: int, functions: int, m: CostMetrics) -> bool {
    let maintenance = functions * UNIT / 10;
    &&& m.infrastructure.cloud_compute_usd@ == 10 * UNIT + 20 * f
    &&& m.infrastructure.storage_usd@ == UNIT + 2 * f
    &&& m.infrastructure.network_egress_usd@ == 5 * UNIT + 5 * f
    &&& m.infrastructure.cost_per_million_ops@ == 100_000_000 + f * 5 / 100
    &&& m.operations.mttr_minutes@ == 30 * UNIT + maintenance * 10
    &&& m.operations.incidents_per_month@ == 500_000_000 + f * 2 / 10
    &&& m.operations.overhead_percentage@ == 100_000_000 + least(f * 2 / 100, 300_000_000)
    &&& m.operations.monitoring_usd@ == 5 * UNIT + 5 * f
    &&& m.development.loc == lines
    &&& m.development.cyclomatic_complexity@ == UNIT + maintenance
    &&& m.development.code_churn@ == 100 * UNIT + 50 * f
    &&& m.development.onboarding_days@ == UNIT + least(2 * f, 14 * UNIT)
    &&& m.business_impact.revenue_per_100ms_latency@ == 100 * UNIT
    &&& m.business_impact.csat_score@ == 80 * UNIT - 2 * f
    &&& m.business_impact.sla_compliance@ == 990_000_000 - least(f / 100, 100_000_000)
    &&& m.business_impact.competitive_advantage@ == 7 * UNIT - least(f * 3 / 10, 4 * UNIT)
}

fn amount(nanos: u128) -> (d: SignedDecimal)
    requires
        nanos <= i128::MAX,
    ensures
        d@ == nanos,
{
    SignedDecimal::from_nanos(nanos as i128)
}

fn at_most(a: u128, b: u128) -> (r: u128)
    ensures
        r == least(a as int, b as int),
{
    if a < b {
        a
    } else {
        b
    }
}

/// Performance estimated from the size of the project.
pub fn estimate_performance_from_complexity(complexity: &ProjectComplexity) -> (m:
    PerformanceMetrics)
    ensures
        estimated_performance(complexity_factor_nanos(complexity.total_lines as nat) as int, m),
{
    let f: u128 = complexity.complexity_factor().nanos;
    let base: u128 = 10 * UNIT + 5 * f;
    PerformanceMetrics {
        latency: LatencyMetrics {
            p50_ms: Decimal::from_nanos(base),
            p95_ms: Decimal::from_nanos(base * 15 / 10),
            p99_ms: Decimal::from_nanos(base * 2),
            cold_start_ms: Decimal::from_nanos(base * 3),
            ttfb_ms: Decimal::from_nanos(base * 3 / 10),
        },
        throughput: ThroughputMetrics {
            requests_per_second: Decimal::from_nanos((1000 * UNIT * UNIT) / base),
            mb_per_second: Decimal::from_nanos(
                (100 * UNIT * UNIT) / if f > UNIT {
                    f
                } else {
                    UNIT
                },
            ),
            concurrent_connections: 100,
            queue_depth: Decimal::from_units(10),
        },
        resource_usage: ResourceMetrics {
            cpu_efficiency: Decimal::from_nanos(800_000_000 - at_most(f * 5 / 100, 500_000_000)),
            memory_bandwidth_gb_s: Decimal::from_units(10),
            io_operations_per_sec: Decimal::from_units(1000),
            cache_hit_rate: Decimal::from_nanos(900_000_000 - at_most(f * 2 / 100, 300_000_000)),
        },
        scalability: ScalabilityMetrics::default(),
    }
}

/// Energy estimated from the size of the project.
pub fn estimate_energy_from_complexity(complexity: &ProjectComplexity) -> (m: EnergyMetrics)
    ensures
        estimated_energy(complexity_factor_nanos(complexity.total_lines as nat) as int, m),
{
    let f: u128 = complexity.complexity_factor().nanos;
    EnergyMetrics {
        direct_consumption: PowerConsumption {
            average_watts: Decimal::from_nanos(5 * UNIT + 2 * f),
            peak_watts: Decimal::from_nanos(10 * UNIT + 5 * f),
            idle_watts: Decimal::from_nanos(2 * UNIT + f * 5 / 10),
            joules_per_operation: Decimal::from_nanos((UNIT + f / 10) / 1000),
        },
        carbon_efficiency: CarbonEfficiency {
            co2_per_operation: Decimal::from_nanos((UNIT + f / 10) / 10_000),
            carbon_intensity: Decimal::from_units(400),
            renewable_percentage: Decimal::from_nanos(300_000_000),
        },
        hardware_lifecycle: HardwareLifecycle {
            thermal_efficiency: Decimal::from_nanos(800_000_000),
            component_stress: Decimal::from_nanos(
                200_000_000 + at_most(f * 5 / 100, 500_000_000),
            ),
            expected_lifespan_years: Decimal::from_units(5),
        },
        algorithmic_efficiency: AlgorithmEfficiency {
            time_complexity: String::from_str("O(n)"),
            space_complexity: String::from_str("O(1)"),
            actual_time_coefficient: Decimal::from_nanos(UNIT + f / 10),
            actual_space_coefficient: Decimal::from_nanos(UNIT + f * 5 / 100),
        },
    }
}

/// Cost estimated from the size of the project and the number of its
/// functions.
pub fn estimate_cost_from_complexity(complexity: &ProjectComplexity) -> (m: CostMetrics)
    ensures
        estimated_cost(
            complexity_factor_nanos(complexity.total_lines as nat) as int,
            complexity.total_lines as int,
            complexity.function_count as int,
            m,
        ),
{
    let f: u128 = complexity.complexity_factor().nanos;
    let maintenance: u128 = (complexity.function_count as u128) * UNIT / 10;
    CostMetrics {
        infrastructure: InfrastructureCosts {
            cloud_compute_usd: amount(10 * UNIT + 20 * f),
            storage_usd: amount(UNIT + 2 * f),
            network_egress_usd: amount(5 * UNIT + 5 * f),
            cost_per_million_ops: amount(100_000_000 + f * 5 / 100),
        },
        operations: OperationalCosts {
            mttr_minutes: amount(30 * UNIT + maintenance * 10),
            incidents_per_month: amount(500_000_000 + f * 2 / 10),
            overhead_percentage: amount(
                100_000_000 + at_most(f * 2 / 100, 300_000_000),
            ),
            monitoring_usd: amount(5 * UNIT + 5 * f),
        },
        development: DevelopmentCosts {
            loc: complexity.total_lines as u64,
            cyclomatic_complexity: amount(UNIT + maintenance),
            code_churn: amount(100 * UNIT + 50 * f),
            onboarding_days: amount(UNIT + at_most(2 * f, 14 * UNIT)),
        },
        business_impact: BusinessImpact {
            revenue_per_100ms_latency: amount(100 * UNIT),
            csat_score: amount(80 * UNIT - 2 * f),
            sla_compliance: amount(990_000_000 - at_most(f / 100, 100_000_000)),
            competitive_advantage: amount(7 * UNIT - at_most(f * 3 / 10, 4 * UNIT)),
        },
    }
}


/// The estimates are monotonic in the complexity factor: a larger project
/// is estimated slower, hungrier and costlier, never the other way.
pub proof fn lemma_estimates_monotone(
    f: int,
    g: int,
    slow: PerformanceMetrics,
    slower: PerformanceMetrics,
    lean: EnergyMetrics,
    hungry: EnergyMetrics,
    cheap: CostMetrics,
    dear: CostMetrics,
    lines: int,
    functions: int,
)
    requires
        0 <= f <= g,
        estimated_performance(f, slow),
        estimated_performance(g, slower),
        estimated_energy(f, lean),
        estimated_energy(g, hungry),
        estimated_cost(f, lines, functions, cheap),
        estimated_cost(g, lines, functions, dear),
    ensures
        slow.latency.p50_ms@ <= slower.latency.p50_ms@,
        slow.latency.p95_ms@ <= slower.latency.p95_ms@,
        slow.latency.p99_ms@ <= slower.latency.p99_ms@,
        slow.latency.cold_start_ms@ <= slower.latency.cold_start_ms@,
        slow.latency.ttfb_ms@ <= slower.latency.ttfb_ms@,
        slow.throughput.requests_per_second@ >= slower.throughput.requests_per_second@,
        slow.throughput.mb_per_second@ >= slower.throughput.mb_per_second@,
        slow.resource_usage.cpu_efficiency@ >= slower.resource_usage.cpu_efficiency@,
        slow.resource_usage.cache_hit_rate@ >= slower.resource_usage.cache_hit_rate@,
        lean.direct_consumption.average_watts@ <= hungry.direct_consumption.average_watts@,
        lean.direct_consumption.peak_watts@ <= hungry.direct_consumption.peak_watts@,
        lean.direct_consumption.idle_watts@ <= hungry.direct_consumption.idle_watts@,
        lean.direct_consumption.joules_per_operation@
            <= hungry.direct_consumption.joules_per_operation@,
        lean.carbon_efficiency.co2_per_operation@ <= hungry.carbon_efficiency.co2_per_operation@,
        lean.hardware_lifecycle.component_stress@ <= hungry.hardware_lifecycle.component_stress@,
        cheap.infrastructure.cloud_compute_usd@ <= dear.infrastructure.cloud_compute_usd@,
        cheap.infrastructure.storage_usd@ <= dear.infrastructure.storage_usd@,
        cheap.infrastructure.network_egress_usd@ <= dear.infrastructure.network_egress_usd@,
        cheap.infrastructure.cost_per_million_ops@ <= dear.infrastructure.cost_per_million_ops@,
        cheap.operations.incidents_per_month@ <= dear.operations.incidents_per_month@,
        cheap.operations.overhead_percentage@ <= dear.operations.overhead_percentage@,
        cheap.operations.monitoring_usd@ <= dear.operations.monitoring_usd@,
        cheap.development.code_churn@ <= dear.development.code_churn@,
        cheap.development.onboarding_days@ <= dear.development.onboarding_days@,
        cheap.business_impact.csat_score@ >= dear.business_impact.csat_score@,
        cheap.business_impact.sla_compliance@ >= dear.business_impact.sla_compliance@,
        cheap.business_impact.competitive_advantage@ >= dear.business_impact.competitive_advantage@,
{
    let n = 1000 * UNIT * UNIT;
    vstd::arithmetic::div_mod::lemma_div_is_ordered_by_denominator(
        n,
        base_latency(f),
        base_latency(g),
    );
    vstd::arithmetic::div_mod::lemma_div_is_ordered_by_denominator(
        100 * UNIT * UNIT,
        greatest(f, UNIT as int),
        greatest(g, UNIT as int),
    );
}

} // verus!
