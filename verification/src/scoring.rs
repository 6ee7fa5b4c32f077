//! The scoring engine: from measurements to a score.
//!
//! Each axis is scored between 0 and 100 from a few of its measurements, the
//! three scores are weighted by the profile, and the safety bonus is added.
//! All arithmetic is on billionths; each quotient is rounded down.

use vstd::prelude::*;
use crate::decimal::{Decimal, UNIT};
use crate::metrics::{CostMetrics, EnergyMetrics, PerformanceMetrics, SafetyMetrics};
use crate::profiles::{weights_of, IndustryProfile, TOLERANCE};
use crate::score::{tier_of, Certification, CrabScore, ScoreMetadata, Timestamp};

verus! {

/// The full score of an axis: 100, in billionths.
pub const FULL: u128 = 100_000_000_000;

/// A score held between 0 and 100.
pub open spec fn clamp_score(x: int) -> int {
    if x > FULL {
        FULL as int
    } else if x < 0 {
        0
    } else {
        x
    }
}

/// `100 / (1 + x / scale)`, for a quantity `x` and a scale, both in
/// billionths: the full score at zero, half of it at `scale`.
pub open spec fn inverse_score(x: int, scale: int) -> int {
    (FULL * scale) / (scale + x)
}

/// The scale of latencies: 100 ms.
pub const LATENCY_SCALE: u128 = 100_000_000_000;

/// The scale of throughputs: 1000 requests per second.
pub const THROUGHPUT_SCALE: u128 = 1_000_000_000_000;

/// The scale of power: 100 W.
pub const POWER_SCALE: u128 = 100_000_000_000;

/// The scale of infrastructure cost: 1000 USD.
pub const INFRASTRUCTURE_SCALE: u128 = 1_000_000_000_000;

/// The scale of operational overhead: a fraction of one.
pub const OVERHEAD_SCALE: u128 = 1_000_000_000;

/// `100 / (1 + p95 / 100)`.
pub open spec fn latency_score(p95: int) -> int {
    inverse_score(p95, LATENCY_SCALE as int)
}

/// `100 * tps / (tps + 1000)`.
pub open spec fn throughput_score(tps: int) -> int {
    (FULL * tps) / (tps + THROUGHPUT_SCALE)
}

/// `100 * min(cpu_efficiency, 1)`.
pub open spec fn resource_score(cpu_efficiency: int) -> int {
    100 * if cpu_efficiency < UNIT {
        cpu_efficiency
    } else {
        UNIT as int
    }
}

/// The performance score: the mean of the latency, throughput and resource
/// scores, held between 0 and 100.
pub open spec fn performance_score(m: PerformanceMetrics) -> int {
    clamp_score(
        (latency_score(m.latency.p95_ms@ as int) + throughput_score(
            m.throughput.requests_per_second@ as int,
        ) + resource_score(m.resource_usage.cpu_efficiency@ as int)) / 3,
    )
}

/// `100 / (1 + average_watts / 100)`.
pub open spec fn power_score(average_watts: int) -> int {
    inverse_score(average_watts, POWER_SCALE as int)
}

/// `100 * renewable_fraction`.
pub open spec fn renewable_score(renewable_fraction: int) -> int {
    100 * renewable_fraction
}

/// The energy score: the mean of the power and renewable scores, held
/// between 0 and 100.
pub open spec fn energy_score(m: EnergyMetrics) -> int {
    clamp_score(
        (power_score(m.direct_consumption.average_watts@ as int) + renewable_score(
            m.carbon_efficiency.renewable_percentage@ as int,
        )) / 2,
    )
}

/// `100 / (1 + x / scale)` for a quantity `x` that may lie below zero, `x`
/// and the scale in billionths, rounded toward zero. `None` where
/// `1 + x / scale` is zero: the quotient is then beyond every bound.
pub open spec fn signed_inverse_score(x: int, scale: int) -> Option<int> {
    if scale + x > 0 {
        Some((FULL * scale) / (scale + x))
    } else if scale + x == 0 {
        None
    } else {
        Some(-((FULL * scale) / (-(scale + x))))
    }
}

/// `100 / (1 + cloud_compute_usd / 1000)`.
pub open spec fn infra_score(cloud_compute_usd: int) -> Option<int> {
    signed_inverse_score(cloud_compute_usd, INFRASTRUCTURE_SCALE as int)
}

/// `100 / (1 + overhead_fraction)`.
pub open spec fn ops_score(overhead_fraction: int) -> Option<int> {
    signed_inverse_score(overhead_fraction, OVERHEAD_SCALE as int)
}

/// The mean of two scores held between 0 and 100, where a score that is
/// beyond every bound holds the mean at 100.
pub open spec fn clamped_mean(a: Option<int>, b: Option<int>) -> int {
    match (a, b) {
        (Some(x), Some(y)) => clamp_score((x + y) / 2),
        _ => FULL as int,
    }
}

/// The cost score: the mean of the infrastructure and operations scores,
/// held between 0 and 100.
pub open spec fn cost_score(m: CostMetrics) -> int {
    clamped_mean(
        infra_score(m.infrastructure.cloud_compute_usd@),
        ops_score(m.operations.overhead_percentage@),
    )
}

/// The average cyclomatic complexity up to which the complexity part of the
/// safety bonus is earned: 10, in billionths.
pub const CALM_COMPLEXITY: u128 = 10_000_000_000;

/// The safety bonus in points: 4 for no unsafe region, 3 for no lint
/// warning, 3 for an average cyclomatic complexity of 10 at most.
pub open spec fn safety_points(s: SafetyMetrics) -> int {
    (if s.unsafe_blocks == 0 {
        4int
    } else {
        0int
    }) + (if s.clippy_warnings == 0 {
        3int
    } else {
        0int
    }) + (if s.avg_cyclomatic@ <= CALM_COMPLEXITY {
        3int
    } else {
        0int
    })
}

/// The three scores weighted by the three weights, all in billionths.
pub open spec fn weighted_score(
    performance: int,
    energy: int,
    cost: int,
    weights: (nat, nat, nat),
) -> int {
    (performance * weights.0 + energy * weights.1 + cost * weights.2) / (UNIT as int)
}

/// The overall score of the base engine: the weighted score plus the safety
/// bonus.
pub open spec fn overall_score(
    profile: IndustryProfile,
    performance: PerformanceMetrics,
    energy: EnergyMetrics,
    cost: CostMetrics,
    safety: SafetyMetrics,
) -> int {
    weighted_score(
        performance_score(performance),
        energy_score(energy),
        cost_score(cost),
        weights_of(profile),
    ) + safety_points(safety) * UNIT
}

/// What no overall score of the base engine exceeds: the full score at the
/// largest sum of weights that the tolerance admits, and the largest safety
/// bonus.
pub const OVERALL_LIMIT: u128 = 110_010_000_000;

/// `s` is the score that the base engine gives under `profile` for the four
/// groups of measurements, whenever it was calculated.
pub open spec fn scored(
    profile: IndustryProfile,
    performance: PerformanceMetrics,
    energy: EnergyMetrics,
    cost: CostMetrics,
    safety: SafetyMetrics,
    s: CrabScore,
) -> bool {
    &&& s.performance@ == performance_score(performance)
    &&& s.energy@ == energy_score(energy)
    &&& s.cost@ == cost_score(cost)
    &&& s.bonuses@ == safety_points(safety) * UNIT
    &&& s.overall@ == overall_score(profile, performance, energy, cost, safety)
    &&& s.certification == tier_of(s.overall@)
    &&& s.metadata.profile == profile
    &&& s.metadata.is_blank()
}

fn inverse(x: u128, scale: u128) -> (r: u128)
    requires
        1 <= scale <= 1_000_000_000_000,
    ensures
        r == inverse_score(x as int, scale as int),
        r <= FULL,
{
    let numerator: u128 = FULL * scale;
    if x > u128::MAX - scale {
        assert(numerator as int / (scale + x) == 0) by (nonlinear_arith)
            requires
                0 <= numerator < scale + x,
        ;
        return 0;
    }
    let denominator: u128 = scale + x;
    assert(numerator as int / denominator as int <= FULL) by (nonlinear_arith)
        requires
            numerator == FULL * scale,
            denominator >= scale,
            scale > 0,
    ;
    numerator / denominator
}

fn throughput(tps: u128) -> (r: u128)
    ensures
        r == throughput_score(tps as int),
        r <= FULL,
{
    if tps >= 100_000_000_000_000_000_000_000 {
        proof {
            let a: int = FULL * tps;
            let d: int = tps + THROUGHPUT_SCALE;
            let q: int = FULL - 1;
            assert(q * d <= a < (q + 1) * d);
            assert(a / d == q) by (nonlinear_arith)
                requires
                    q * d <= a < (q + 1) * d,
                    d > 0,
            ;
        }
        return FULL - 1;
    }
    let numerator: u128 = FULL * tps;
    let denominator: u128 = tps + THROUGHPUT_SCALE;
    assert(numerator as int / denominator as int <= FULL) by (nonlinear_arith)
        requires
            numerator == FULL * tps,
            denominator > tps,
            tps >= 0,
    ;
    numerator / denominator
}

fn clamp(x: u128) -> (r: u128)
    ensures
        r == clamp_score(x as int),
        r <= FULL,
{
    if x > FULL {
        FULL
    } else {
        x
    }
}

/// The performance score of the measurements.
pub fn score_performance(m: &PerformanceMetrics) -> (r: Decimal)
    ensures
        r@ == performance_score(*m),
        r@ <= FULL,
{
    let latency = inverse(m.latency.p95_ms.nanos, LATENCY_SCALE);
    let through = throughput(m.throughput.requests_per_second.nanos);
    let cpu: u128 = m.resource_usage.cpu_efficiency.nanos;
    let resource: u128 = 100 * if cpu < UNIT {
        cpu
    } else {
        UNIT
    };
    Decimal::from_nanos(clamp((latency + through + resource) / 3))
}

/// The energy score of the measurements.
pub fn score_energy(m: &EnergyMetrics) -> (r: Decimal)
    ensures
        r@ == energy_score(*m),
        r@ <= FULL,
{
    let power = inverse(m.direct_consumption.average_watts.nanos, POWER_SCALE);
    let renewable: u128 = m.carbon_efficiency.renewable_percentage.nanos;
    if renewable >= 2 * UNIT {
        return Decimal::from_nanos(FULL);
    }
    Decimal::from_nanos(clamp((power + 100 * renewable) / 2))
}

fn signed_inverse(x: i128, scale: u128) -> (r: Option<i128>)
    requires
        1 <= scale <= 1_000_000_000_000,
    ensures
        r is Some <==> signed_inverse_score(x as int, scale as int) is Some,
        r is Some ==> r.unwrap() == signed_inverse_score(x as int, scale as int).unwrap(),
        r is Some ==> -(FULL * scale) <= r.unwrap() <= FULL * scale,
{
    if x >= 0 {
        return Some(inverse(x as u128, scale) as i128);
    }
    let numerator: u128 = FULL * scale;
    let below: u128 = ((-(x + 1)) as u128) + 1;
    if below == scale {
        None
    } else if below < scale {
        let denominator: u128 = scale - below;
        assert(numerator as int / denominator as int <= numerator) by (nonlinear_arith)
            requires
                numerator >= 0,
                denominator >= 1,
        ;
        Some((numerator / denominator) as i128)
    } else {
        let denominator: u128 = below - scale;
        assert(numerator as int / denominator as int <= numerator) by (nonlinear_arith)
            requires
                numerator >= 0,
                denominator >= 1,
        ;
        Some(-((numerator / denominator) as i128))
    }
}

/// The cost score of the measurements.
pub fn score_cost(m: &CostMetrics) -> (r: Decimal)
    ensures
        r@ == cost_score(*m),
        r@ <= FULL,
{
    let infra = signed_inverse(m.infrastructure.cloud_compute_usd.nanos, INFRASTRUCTURE_SCALE);
    let ops = signed_inverse(m.operations.overhead_percentage.nanos, OVERHEAD_SCALE);
    match (infra, ops) {
        (Some(a), Some(b)) => {
            let sum: i128 = a + b;
            if sum <= 0 {
                Decimal::zero()
            } else {
                Decimal::from_nanos(clamp((sum as u128) / 2))
            }
        },
        _ => Decimal::from_nanos(FULL),
    }
}

/// The safety bonus: 4 points for no unsafe region, 3 for no lint warning,
/// 3 for an average cyclomatic complexity of 10 at most.
pub fn score_safety(s: &SafetyMetrics) -> (r: Decimal)
    ensures
        r@ == safety_points(*s) * UNIT,
        r@ <= 10 * UNIT,
{
    let mut points: u64 = 0;
    if s.unsafe_blocks == 0 {
        points = points + 4;
    }
    if s.clippy_warnings == 0 {
        points = points + 3;
    }
    if s.avg_cyclomatic.nanos <= CALM_COMPLEXITY {
        points = points + 3;
    }
    Decimal::from_units(points)
}

/// Calculates scores under one industry profile.
pub struct ScoringEngine {
    profile: IndustryProfile,
}

impl ScoringEngine {
    #[verifier::type_invariant]
    spec fn valid(self) -> bool {
        self.profile.well_formed()
    }

    /// The profile of the engine.
    pub closed spec fn profile_of(&self) -> IndustryProfile {
        self.profile
    }

    /// An engine that scores under `profile`, whose weights must sum to one
    /// within the tolerance.
    pub fn new(profile: IndustryProfile) -> (e: Self)
        requires
            profile.well_formed(),
        ensures
            e.profile_of() == profile,
    {
        ScoringEngine { profile }
    }

    /// The profile of the engine. It is well formed.
    pub fn profile(&self) -> (p: IndustryProfile)
        ensures
            p == self.profile_of(),
            p.well_formed(),
    {
        proof {
            use_type_invariant(self);
        }
        self.profile
    }

    /// The score of the measurements, stamped with `timestamp`, the time at
    /// which the caller's clock says the score is calculated.
    pub fn calculate_score(
        &self,
        performance: &PerformanceMetrics,
        energy: &EnergyMetrics,
        cost: &CostMetrics,
        safety: &SafetyMetrics,
        timestamp: Timestamp,
    ) -> (s: CrabScore)
        ensures
            scored(self.profile_of(), *performance, *energy, *cost, *safety, s),
            s.timestamp == timestamp,
            s.overall@ <= OVERALL_LIMIT,
    {
        proof {
            use_type_invariant(self);
        }
        let weights = self.profile.weights();
        let perf_score = score_performance(performance);
        let energy_score = score_energy(energy);
        let cost_score = score_cost(cost);
        let bonuses = score_safety(safety);
        let limit: u128 = UNIT + TOLERANCE;
        assert(perf_score.nanos * weights.performance.nanos <= FULL * limit) by (nonlinear_arith)
            requires
                perf_score.nanos <= FULL,
                weights.performance.nanos <= limit,
        ;
        assert(energy_score.nanos * weights.energy.nanos <= FULL * limit) by (nonlinear_arith)
            requires
                energy_score.nanos <= FULL,
                weights.energy.nanos <= limit,
        ;
        assert(cost_score.nanos * weights.cost.nanos <= FULL * limit) by (nonlinear_arith)
            requires
                cost_score.nanos <= FULL,
                weights.cost.nanos <= limit,
        ;
        assert(perf_score.nanos * weights.performance.nanos + energy_score.nanos
            * weights.energy.nanos + cost_score.nanos * weights.cost.nanos <= FULL * limit)
            by (nonlinear_arith)
            requires
                perf_score.nanos <= FULL,
                energy_score.nanos <= FULL,
                cost_score.nanos <= FULL,
                weights.performance.nanos + weights.energy.nanos + weights.cost.nanos <= limit,
        ;
        let weighted: u128 = (perf_score.nanos * weights.performance.nanos + energy_score.nanos
            * weights.energy.nanos + cost_score.nanos * weights.cost.nanos) / UNIT;
        let overall = Decimal::from_nanos(weighted + bonuses.nanos);
        CrabScore {
            overall,
            performance: perf_score,
            energy: energy_score,
            cost: cost_score,
            bonuses,
            certification: Certification::for_score(overall),
            timestamp,
            metadata: ScoreMetadata::blank(self.profile),
        }
    }
}

/// A larger quantity never earns a higher inverse score, and the score lies
/// between 0 and 100: lower latency, power and cost score better.
pub proof fn lemma_inverse_score_falls(x: int, y: int, scale: int)
    requires
        0 <= x <= y,
        scale >= 1,
    ensures
        0 <= inverse_score(y, scale) <= inverse_score(x, scale) <= FULL,
{
    let n = FULL * scale;
    assert(n >= 0 && n == FULL * scale) by (nonlinear_arith)
        requires
            n == FULL * scale,
            scale >= 1,
    ;
    vstd::arithmetic::div_mod::lemma_div_is_ordered_by_denominator(n, scale + x, scale + y);
    vstd::arithmetic::div_mod::lemma_div_is_ordered_by_denominator(n, scale, scale + x);
    assert(n / scale == FULL) by (nonlinear_arith)
        requires
            n == FULL * scale,
            scale >= 1,
    ;
    assert(n / (scale + y) >= 0) by (nonlinear_arith)
        requires
            n >= 0,
            scale + y >= 1,
    ;
}

/// A higher throughput never earns a lower throughput score, and the score
/// stays below 100.
pub proof fn lemma_throughput_score_rises(x: int, y: int)
    requires
        0 <= x <= y,
    ensures
        0 <= throughput_score(x) <= throughput_score(y) < FULL,
{
    let s = THROUGHPUT_SCALE as int;
    let qx = throughput_score(x);
    let qy = throughput_score(y);
    vstd::arithmetic::div_mod::lemma_fundamental_div_mod(FULL * x, x + s);
    vstd::arithmetic::div_mod::lemma_fundamental_div_mod(FULL * y, y + s);
    vstd::arithmetic::div_mod::lemma_mod_bound(FULL * x, x + s);
    vstd::arithmetic::div_mod::lemma_mod_bound(FULL * y, y + s);
    assert(qx >= 0 && qx < FULL) by (nonlinear_arith)
        requires
            FULL * x == (x + s) * qx + (FULL * x) % (x + s),
            0 <= (FULL * x) % (x + s) < x + s,
            x >= 0,
            s > 0,
    ;
    assert(qy < FULL) by (nonlinear_arith)
        requires
            FULL * y == (y + s) * qy + (FULL * y) % (y + s),
            0 <= (FULL * y) % (y + s) < y + s,
            y >= 0,
            s > 0,
    ;
    assert(qx <= qy) by (nonlinear_arith)
        requires
            FULL * x == (x + s) * qx + (FULL * x) % (x + s),
            FULL * y == (y + s) * qy + (FULL * y) % (y + s),
            0 <= (FULL * x) % (x + s) < x + s,
            0 <= (FULL * y) % (y + s) < y + s,
            0 <= x <= y,
            s > 0,
            0 <= qx < FULL,
    ;
}

/// Every score that an engine gives is consistent: the scores of the three
/// axes lie between 0 and 100, the safety bonus is ten points at most, and
/// the tier is the one that the overall score earns.
pub proof fn lemma_score_in_range(
    profile: IndustryProfile,
    performance: PerformanceMetrics,
    energy: EnergyMetrics,
    cost: CostMetrics,
    safety: SafetyMetrics,
    s: CrabScore,
)
    requires
        scored(profile, performance, energy, cost, safety, s),
    ensures
        s.performance@ <= FULL,
        s.energy@ <= FULL,
        s.cost@ <= FULL,
        s.bonuses@ <= 10 * UNIT,
        s.consistent(),
{
}

} // verus!
