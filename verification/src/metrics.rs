//! Performance, energy, cost and safety measurements.
//!
//! Each group is a plain record of independent quantities. A group's
//! `is_default` predicate says what "nothing measured" means for it.
//! Performance, energy and safety figures are measured or estimated and
//! never lie below zero. Cost figures are stated by the user, and any number
//! may stand for one: they carry a sign.

use vstd::prelude::*;
use crate::decimal::{Decimal, SignedDecimal, UNIT};

verus! {

/// Latency measurements, in milliseconds.
#[derive(Clone, Debug, PartialEq, Eq)]
pub struct LatencyMetrics {
    /// 50th percentile latency.
    pub p50_ms: Decimal,
    /// 95th percentile latency.
    pub p95_ms: Decimal,
    /// 99th percentile latency.
    pub p99_ms: Decimal,
    /// Cold start latency.
    pub cold_start_ms: Decimal,
    /// Time to first byte.
    pub ttfb_ms: Decimal,
}

impl LatencyMetrics {
    /// Every latency is zero.
    pub open spec fn is_default(&self) -> bool {
        &&& self.p50_ms@ == 0
        &&& self.p95_ms@ == 0
        &&& self.p99_ms@ == 0
        &&& self.cold_start_ms@ == 0
        &&& self.ttfb_ms@ == 0
    }
}

impl Default for LatencyMetrics {
    fn default() -> (r: Self)
        ensures
            r.is_default(),
    {
        LatencyMetrics {
            p50_ms: Decimal::zero(),
            p95_ms: Decimal::zero(),
            p99_ms: Decimal::zero(),
            cold_start_ms: Decimal::zero(),
            ttfb_ms: Decimal::zero(),
        }
    }
}

/// Throughput measurements.
#[derive(Clone, Debug, PartialEq, Eq)]
pub struct ThroughputMetrics {
    /// Requests per second.
    pub requests_per_second: Decimal,
    /// Data throughput in MB/s.
    pub mb_per_second: Decimal,
    /// Number of concurrent connections.
    pub concurrent_connections: u64,
    /// Queue depth.
    pub queue_depth: Decimal,
}

impl ThroughputMetrics {
    /// Every throughput figure is zero.
    pub open spec fn is_default(&self) -> bool {
        &&& self.requests_per_second@ == 0
        &&& self.mb_per_second@ == 0
        &&& self.concurrent_connections == 0
        &&& self.queue_depth@ == 0
    }
}

impl Default for ThroughputMetrics {
    fn default() -> (r: Self)
        ensures
            r.is_default(),
    {
        ThroughputMetrics {
            requests_per_second: Decimal::zero(),
            mb_per_second: Decimal::zero(),
            concurrent_connections: 0,
            queue_depth: Decimal::zero(),
        }
    }
}

/// Resource usage measurements.
#[derive(Clone, Debug, PartialEq, Eq)]
pub struct ResourceMetrics {
    /// CPU efficiency, between 0 and 1.
    pub cpu_efficiency: Decimal,
    /// Memory bandwidth in GB/s.
    pub memory_bandwidth_gb_s: Decimal,
    /// I/O operations per second.
    pub io_operations_per_sec: Decimal,
    /// Cache hit rate, between 0 and 1.
    pub cache_hit_rate: Decimal,
}

impl ResourceMetrics {
    /// Every resource figure is zero.
    pub open spec fn is_default(&self) -> bool {
        &&& self.cpu_efficiency@ == 0
        &&& self.memory_bandwidth_gb_s@ == 0
        &&& self.io_operations_per_sec@ == 0
        &&& self.cache_hit_rate@ == 0
    }
}

impl Default for ResourceMetrics {
    fn default() -> (r: Self)
        ensures
            r.is_default(),
    {
        ResourceMetrics {
            cpu_efficiency: Decimal::zero(),
            memory_bandwidth_gb_s: Decimal::zero(),
            io_operations_per_sec: Decimal::zero(),
            cache_hit_rate: Decimal::zero(),
        }
    }
}

/// Scalability measurements for concurrent workloads.
#[derive(Clone, Debug, PartialEq, Eq)]
pub struct ScalabilityMetrics {
    /// Linear scaling factor; 1 is perfect linear scaling.
    pub linear_scaling_factor: Decimal,
    /// Performance ratio at each measured concurrency level, in order.
    pub degradation_curve: Vec<(u32, Decimal)>,
    /// Bottleneck score, between 0 and 1; higher is worse.
    pub bottleneck_score: Decimal,
    /// Elasticity coefficient, between 0 and 1; higher is better.
    pub elasticity_coefficient: Decimal,
}

impl ScalabilityMetrics {
    /// Nothing was measured: perfect linear scaling is taken, with an empty
    /// curve, and zero elsewhere.
    pub open spec fn is_default(&self) -> bool {
        &&& self.linear_scaling_factor@ == UNIT
        &&& self.degradation_curve@.len() == 0
        &&& self.bottleneck_score@ == 0
        &&& self.elasticity_coefficient@ == 0
    }
}

impl ScalabilityMetrics {
    /// Every figure is zero, and the curve is empty.
    pub open spec fn is_zero(&self) -> bool {
        &&& self.linear_scaling_factor@ == 0
        &&& self.degradation_curve@.len() == 0
        &&& self.bottleneck_score@ == 0
        &&& self.elasticity_coefficient@ == 0
    }

    /// Scalability metrics with every figure at zero and an empty curve.
    pub fn zeroed() -> (r: Self)
        ensures
            r.is_zero(),
    {
        ScalabilityMetrics {
            linear_scaling_factor: Decimal::zero(),
            degradation_curve: Vec::new(),
            bottleneck_score: Decimal::zero(),
            elasticity_coefficient: Decimal::zero(),
        }
    }
}

impl Default for ScalabilityMetrics {
    fn default() -> (r: Self)
        ensures
            r.is_default(),
    {
        ScalabilityMetrics {
            linear_scaling_factor: Decimal::from_units(1),
            degradation_curve: Vec::new(),
            bottleneck_score: Decimal::zero(),
            elasticity_coefficient: Decimal::zero(),
        }
    }
}

/// Performance measurements.
#[derive(Clone, Debug, PartialEq, Eq)]
pub struct PerformanceMetrics {
    /// Latency measurements.
    pub latency: LatencyMetrics,
    /// Throughput measurements.
    pub throughput: ThroughputMetrics,
    /// Resource usage measurements.
    pub resource_usage: ResourceMetrics,
    /// Scalability measurements.
    pub scalability: ScalabilityMetrics,
}

impl PerformanceMetrics {
    /// Nothing was measured: every group is at its default.
    pub open spec fn is_default(&self) -> bool {
        &&& self.latency.is_default()
        &&& self.throughput.is_default()
        &&& self.resource_usage.is_default()
        &&& self.scalability.is_default()
    }
}

impl PerformanceMetrics {
    /// Every figure of every group is zero, and the curve is empty.
    pub open spec fn is_zero(&self) -> bool {
        &&& self.latency.is_default()
        &&& self.throughput.is_default()
        &&& self.resource_usage.is_default()
        &&& self.scalability.is_zero()
    }

    /// Performance metrics with every figure at zero.
    pub fn zeroed() -> (r: Self)
        ensures
            r.is_zero(),
    {
        PerformanceMetrics {
            latency: LatencyMetrics::default(),
            throughput: ThroughputMetrics::default(),
            resource_usage: ResourceMetrics::default(),
            scalability: ScalabilityMetrics::zeroed(),
        }
    }
}

impl Default for PerformanceMetrics {
    fn default() -> (r: Self)
        ensures
            r.is_default(),
    {
        PerformanceMetrics {
            latency: LatencyMetrics::default(),
            throughput: ThroughputMetrics::default(),
            resource_usage: ResourceMetrics::default(),
            scalability: ScalabilityMetrics::default(),
        }
    }
}

/// Signals from static analysis of the source tree.
#[derive(Clone, Debug, PartialEq, Eq)]
pub struct SafetyMetrics {
    /// Number of unsafe regions.
    pub unsafe_blocks: u32,
    /// Number of lint warnings.
    pub clippy_warnings: u32,
    /// Mean cyclomatic complexity over the functions found.
    pub avg_cyclomatic: Decimal,
}

impl SafetyMetrics {
    /// No unsafe region, no warning, and the complexity of a function
    /// without branches.
    pub open spec fn is_default(&self) -> bool {
        &&& self.unsafe_blocks == 0
        &&& self.clippy_warnings == 0
        &&& self.avg_cyclomatic@ == UNIT
    }
}

impl Default for SafetyMetrics {
    fn default() -> (r: Self)
        ensures
            r.is_default(),
    {
        SafetyMetrics {
            unsafe_blocks: 0,
            clippy_warnings: 0,
            avg_cyclomatic: Decimal::from_units(1),
        }
    }
}

/// Power consumption measurements.
#[derive(Clone, Debug, PartialEq, Eq)]
pub struct PowerConsumption {
    /// Average power in watts.
    pub average_watts: Decimal,
    /// Peak power in watts.
    pub peak_watts: Decimal,
    /// Idle power in watts.
    pub idle_watts: Decimal,
    /// Energy per operation in joules.
    pub joules_per_operation: Decimal,
}

impl PowerConsumption {
    /// Every power figure is zero.
    pub open spec fn is_default(&self) -> bool {
        &&& self.average_watts@ == 0
        &&& self.peak_watts@ == 0
        &&& self.idle_watts@ == 0
        &&& self.joules_per_operation@ == 0
    }
}

impl Default for PowerConsumption {
    fn default() -> (r: Self)
        ensures
            r.is_default(),
    {
        PowerConsumption {
            average_watts: Decimal::zero(),
            peak_watts: Decimal::zero(),
            idle_watts: Decimal::zero(),
            joules_per_operation: Decimal::zero(),
        }
    }
}

/// Carbon efficiency measurements.
#[derive(Clone, Debug, PartialEq, Eq)]
pub struct CarbonEfficiency {
    /// Grams of CO2 per operation.
    pub co2_per_operation: Decimal,
    /// Carbon intensity of the energy source, in gCO2/kWh.
    pub carbon_intensity: Decimal,
    /// Share of renewable energy, between 0 and 1.
    pub renewable_percentage: Decimal,
}

impl CarbonEfficiency {
    /// Every carbon figure is zero.
    pub open spec fn is_default(&self) -> bool {
        &&& self.co2_per_operation@ == 0
        &&& self.carbon_intensity@ == 0
        &&& self.renewable_percentage@ == 0
    }
}

impl Default for CarbonEfficiency {
    fn default() -> (r: Self)
        ensures
            r.is_default(),
    {
        CarbonEfficiency {
            co2_per_operation: Decimal::zero(),
            carbon_intensity: Decimal::zero(),
            renewable_percentage: Decimal::zero(),
        }
    }
}

/// Hardware lifecycle measurements.
#[derive(Clone, Debug, PartialEq, Eq)]
pub struct HardwareLifecycle {
    /// Thermal efficiency, between 0 and 1.
    pub thermal_efficiency: Decimal,
    /// Component stress, between 0 and 1; lower is better.
    pub component_stress: Decimal,
    /// Expected hardware lifespan in years.
    pub expected_lifespan_years: Decimal,
}

impl HardwareLifecycle {
    /// Every lifecycle figure is zero.
    pub open spec fn is_default(&self) -> bool {
        &&& self.thermal_efficiency@ == 0
        &&& self.component_stress@ == 0
        &&& self.expected_lifespan_years@ == 0
    }
}

impl Default for HardwareLifecycle {
    fn default() -> (r: Self)
        ensures
            r.is_default(),
    {
        HardwareLifecycle {
            thermal_efficiency: Decimal::zero(),
            component_stress: Decimal::zero(),
            expected_lifespan_years: Decimal::zero(),
        }
    }
}

/// Algorithmic efficiency labels and coefficients.
#[derive(Clone, Debug, PartialEq, Eq)]
pub struct AlgorithmEfficiency {
    /// Time complexity label, such as `O(n)`.
    pub time_complexity: String,
    /// Space complexity label, such as `O(1)`.
    pub space_complexity: String,
    /// Observed time coefficient.
    pub actual_time_coefficient: Decimal,
    /// Observed space coefficient.
    pub actual_space_coefficient: Decimal,
}

impl AlgorithmEfficiency {
    /// Empty labels and zero coefficients.
    pub open spec fn is_default(&self) -> bool {
        &&& self.time_complexity@.len() == 0
        &&& self.space_complexity@.len() == 0
        &&& self.actual_time_coefficient@ == 0
        &&& self.actual_space_coefficient@ == 0
    }
}

impl Default for AlgorithmEfficiency {
    fn default() -> (r: Self)
        ensures
            r.is_default(),
    {
        AlgorithmEfficiency {
            time_complexity: String::new(),
            space_complexity: String::new(),
            actual_time_coefficient: Decimal::zero(),
            actual_space_coefficient: Decimal::zero(),
        }
    }
}

/// Energy measurements.
#[derive(Clone, Debug, PartialEq, Eq)]
pub struct EnergyMetrics {
    /// Direct power consumption.
    pub direct_consumption: PowerConsumption,
    /// Carbon efficiency.
    pub carbon_efficiency: CarbonEfficiency,
    /// Hardware lifecycle.
    pub hardware_lifecycle: HardwareLifecycle,
    /// Algorithmic efficiency.
    pub algorithmic_efficiency: AlgorithmEfficiency,
}

impl EnergyMetrics {
    /// Nothing was measured: every group is at its default.
    pub open spec fn is_default(&self) -> bool {
        &&& self.direct_consumption.is_default()
        &&& self.carbon_efficiency.is_default()
        &&& self.hardware_lifecycle.is_default()
        &&& self.algorithmic_efficiency.is_default()
    }
}

impl Default for EnergyMetrics {
    fn default() -> (r: Self)
        ensures
            r.is_default(),
    {
        EnergyMetrics {
            direct_consumption: PowerConsumption::default(),
            carbon_efficiency: CarbonEfficiency::default(),
            hardware_lifecycle: HardwareLifecycle::default(),
            algorithmic_efficiency: AlgorithmEfficiency::default(),
        }
    }
}

/// Infrastructure costs.
#[derive(Clone, Debug, PartialEq, Eq)]
pub struct InfrastructureCosts {
    /// Cloud compute cost per month, in USD.
    pub cloud_compute_usd: SignedDecimal,
    /// Storage cost per month, in USD.
    pub storage_usd: SignedDecimal,
    /// Network egress cost per month, in USD.
    pub network_egress_usd: SignedDecimal,
    /// Cost per million operations, in USD.
    pub cost_per_million_ops: SignedDecimal,
}

impl InfrastructureCosts {
    /// Every infrastructure cost is zero.
    pub open spec fn is_default(&self) -> bool {
        &&& self.cloud_compute_usd@ == 0
        &&& self.storage_usd@ == 0
        &&& self.network_egress_usd@ == 0
        &&& self.cost_per_million_ops@ == 0
    }
}

impl Default for InfrastructureCosts {
    fn default() -> (r: Self)
        ensures
            r.is_default(),
    {
        InfrastructureCosts {
            cloud_compute_usd: SignedDecimal::zero(),
            storage_usd: SignedDecimal::zero(),
            network_egress_usd: SignedDecimal::zero(),
            cost_per_million_ops: SignedDecimal::zero(),
        }
    }
}

/// Operational costs.
#[derive(Clone, Debug, PartialEq, Eq)]
pub struct OperationalCosts {
    /// Mean time to resolve an incident, in minutes.
    pub mttr_minutes: SignedDecimal,
    /// Incidents per month.
    pub incidents_per_month: SignedDecimal,
    /// Operational overhead as a fraction, between 0 and 1.
    pub overhead_percentage: SignedDecimal,
    /// Monitoring cost per month, in USD.
    pub monitoring_usd: SignedDecimal,
}

impl OperationalCosts {
    /// Every operational cost is zero.
    pub open spec fn is_default(&self) -> bool {
        &&& self.mttr_minutes@ == 0
        &&& self.incidents_per_month@ == 0
        &&& self.overhead_percentage@ == 0
        &&& self.monitoring_usd@ == 0
    }
}

impl Default for OperationalCosts {
    fn default() -> (r: Self)
        ensures
            r.is_default(),
    {
        OperationalCosts {
            mttr_minutes: SignedDecimal::zero(),
            incidents_per_month: SignedDecimal::zero(),
            overhead_percentage: SignedDecimal::zero(),
            monitoring_usd: SignedDecimal::zero(),
        }
    }
}

/// Development costs.
#[derive(Clone, Debug, PartialEq, Eq)]
pub struct DevelopmentCosts {
    /// Lines of code.
    pub loc: u64,
    /// Cyclomatic complexity.
    pub cyclomatic_complexity: SignedDecimal,
    /// Lines changed per month.
    pub code_churn: SignedDecimal,
    /// Days to onboard a new developer.
    pub onboarding_days: SignedDecimal,
}

impl DevelopmentCosts {
    /// Every development cost is zero.
    pub open spec fn is_default(&self) -> bool {
        &&& self.loc == 0
        &&& self.cyclomatic_complexity@ == 0
        &&& self.code_churn@ == 0
        &&& self.onboarding_days@ == 0
    }
}

impl Default for DevelopmentCosts {
    fn default() -> (r: Self)
        ensures
            r.is_default(),
    {
        DevelopmentCosts {
            loc: 0,
            cyclomatic_complexity: SignedDecimal::zero(),
            code_churn: SignedDecimal::zero(),
            onboarding_days: SignedDecimal::zero(),
        }
    }
}

/// Business impact figures.
#[derive(Clone, Debug, PartialEq, Eq)]
pub struct BusinessImpact {
    /// Revenue gained per 100 ms of latency improvement, in USD.
    pub revenue_per_100ms_latency: SignedDecimal,
    /// Customer satisfaction score, between 0 and 100.
    pub csat_score: SignedDecimal,
    /// SLA compliance as a fraction, between 0 and 1.
    pub sla_compliance: SignedDecimal,
    /// Competitive advantage score, between 0 and 10.
    pub competitive_advantage: SignedDecimal,
}

impl BusinessImpact {
    /// Every business figure is zero.
    pub open spec fn is_default(&self) -> bool {
        &&& self.revenue_per_100ms_latency@ == 0
        &&& self.csat_score@ == 0
        &&& self.sla_compliance@ == 0
        &&& self.competitive_advantage@ == 0
    }
}

impl Default for BusinessImpact {
    fn default() -> (r: Self)
        ensures
            r.is_default(),
    {
        BusinessImpact {
            revenue_per_100ms_latency: SignedDecimal::zero(),
            csat_score: SignedDecimal::zero(),
            sla_compliance: SignedDecimal::zero(),
            competitive_advantage: SignedDecimal::zero(),
        }
    }
}

/// Cost measurements.
#[derive(Clone, Debug, PartialEq, Eq)]
pub struct CostMetrics {
    /// Infrastructure costs.
    pub infrastructure: InfrastructureCosts,
    /// Operational costs.
    pub operations: OperationalCosts,
    /// Development costs.
    pub development: DevelopmentCosts,
    /// Business impact figures.
    pub business_impact: BusinessImpact,
}

impl CostMetrics {
    /// Nothing was measured: every group is at its default.
    pub open spec fn is_default(&self) -> bool {
        &&& self.infrastructure.is_default()
        &&& self.operations.is_default()
        &&& self.development.is_default()
        &&& self.business_impact.is_default()
    }
}

impl Default for CostMetrics {
    fn default() -> (r: Self)
        ensures
            r.is_default(),
    {
        CostMetrics {
            infrastructure: InfrastructureCosts::default(),
            operations: OperationalCosts::default(),
            development: DevelopmentCosts::default(),
            business_impact: BusinessImpact::default(),
        }
    }
}

} // verus!
