//! Latency statistics from repeated runs of an artifact.
//!
//! Running the artifact and timing it is the caller's work. The runner says
//! whether another run is wanted, and turns the outcomes of the runs into
//! performance metrics: the first runs are warm-up and are discarded, the
//! later ones are measured, and only a measured run that exits successfully
//! gives a sample. A run that cannot be started at all aborts the benchmark.

use vstd::prelude::*;
use vstd::relations::{sorted_by, total_ordering};
use vstd::seq_lib::{lemma_sorted_unique, to_multiset_build, to_multiset_insert};
use crate::decimal::{Decimal, UNIT};
use crate::error::CrabScoreError;
use crate::metrics::{
    LatencyMetrics, PerformanceMetrics, ResourceMetrics, ScalabilityMetrics, ThroughputMetrics,
};

verus! {

/// How a benchmark is run.
#[derive(Clone, Debug, PartialEq, Eq)]
pub struct BenchmarkOptions {
    /// Number of warm-up runs, which are not recorded.
    pub warmup: u32,
    /// Number of measured runs.
    pub iterations: u32,
    /// Arguments passed to the artifact.
    pub args: Vec<String>,
}

impl Default for BenchmarkOptions {
    fn default() -> (o: Self)
        ensures
            o.warmup == 1,
            o.iterations == 5,
            o.args@.len() == 0,
    {
        BenchmarkOptions { warmup: 1, iterations: 5, args: Vec::new() }
    }
}

/// How one run of the artifact ended.
#[derive(Clone, Debug, PartialEq, Eq)]
pub enum RunOutcome {
    /// The artifact ran and exited.
    Completed {
        /// It exited successfully.
        success: bool,
        /// Wall-clock time of the run, in milliseconds.
        elapsed_ms: Decimal,
    },
    /// The artifact could not be started; the text says why.
    NotStarted(String),
}

/// The order of samples: by value.
pub open spec fn by_value() -> spec_fn(Decimal, Decimal) -> bool {
    |a: Decimal, b: Decimal| a.nanos <= b.nanos
}

/// The samples in ascending order.
pub open spec fn ascending(samples: Seq<Decimal>) -> Seq<Decimal> {
    samples.sort_by(by_value())
}

/// The nearest-rank index of the percentile `p`, given in billionths of one,
/// among `n` sorted samples: `p * (n - 1)` rounded to the nearest integer,
/// halves away from zero, and `n - 1` at most.
pub open spec fn percentile_rank(p: nat, n: nat) -> nat
    recommends
        n >= 1,
{
    let rounded = (2 * p * (n - 1) + UNIT) / (2 * UNIT);
    if rounded > n - 1 {
        (n - 1) as nat
    } else {
        rounded as nat
    }
}

/// The median, as a percentile.
pub const P50: u128 = 500_000_000;

/// The 95th percentile.
pub const P95: u128 = 950_000_000;

/// The 99th percentile.
pub const P99: u128 = 990_000_000;

/// Requests per second at a median latency of `p50` milliseconds, in
/// billionths: a thousand divided by the latency, rounded down; zero at
/// latency zero.
pub open spec fn requests_per_second(p50: nat) -> nat {
    if p50 > 0 {
        ((1000 * UNIT * UNIT) / (p50 as int)) as nat
    } else {
        0
    }
}

/// `m` is the summary of `samples`: every figure zero where there is no
/// sample; otherwise the three percentiles by nearest rank, the smallest
/// sample as cold start, the throughput that follows from the median, and
/// all else at its default, as it was not measured.
pub open spec fn summary_of(samples: Seq<Decimal>, m: PerformanceMetrics) -> bool {
    if samples.len() == 0 {
        m.is_zero()
    } else {
        let sorted = ascending(samples);
        let n = samples.len();
        &&& m.latency.p50_ms == sorted[percentile_rank(P50 as nat, n) as int]
        &&& m.latency.p95_ms == sorted[percentile_rank(P95 as nat, n) as int]
        &&& m.latency.p99_ms == sorted[percentile_rank(P99 as nat, n) as int]
        &&& m.latency.cold_start_ms == sorted[0]
        &&& m.latency.ttfb_ms@ == 0
        &&& m.throughput.requests_per_second@ == requests_per_second(m.latency.p50_ms@)
        &&& m.throughput.mb_per_second@ == 0
        &&& m.throughput.concurrent_connections == 0
        &&& m.throughput.queue_depth@ == 0
        &&& m.resource_usage.is_default()
        &&& m.scalability.is_default()
    }
}

/// The order by value is a total order.
pub proof fn lemma_by_value_total()
    ensures
        total_ordering(by_value()),
{
    let leq = by_value();
    assert forall|a: Decimal, b: Decimal| #[trigger] leq(a, b) && #[trigger] leq(b, a) implies a
        == b by {
        assert(a.nanos == b.nanos);
    }
    assert(vstd::relations::antisymmetric(leq));
}

/// Sorting keeps the number of samples.
pub proof fn lemma_ascending_len(samples: Seq<Decimal>)
    ensures
        ascending(samples).len() == samples.len(),
{
    lemma_by_value_total();
    samples.lemma_sort_by_ensures(by_value());
    samples.to_multiset_ensures();
    ascending(samples).to_multiset_ensures();
}

/// The nearest-rank index of a percentile among `n` sorted samples.
pub fn percentile_index(p: Decimal, n: usize) -> (i: usize)
    requires
        n >= 1,
    ensures
        i == percentile_rank(p@, n as nat),
        i < n,
{
    let last: usize = n - 1;
    if p.nanos >= UNIT {
        proof {
            let a = 2 * p@ * (n - 1) + UNIT;
            assert(a >= (2 * UNIT) * (n - 1) + UNIT) by (nonlinear_arith)
                requires
                    a == 2 * p@ * (n - 1) + UNIT,
                    p@ >= UNIT,
                    n >= 1,
            ;
            assert(a / (2 * UNIT as int) >= n - 1) by (nonlinear_arith)
                requires
                    a >= (2 * UNIT) * (n - 1) + UNIT,
                    UNIT == 1_000_000_000,
            ;
        }
        return last;
    }
    proof {
        assert(2 * p@ * (n - 1) <= 2 * 1_000_000_000 * 0x1_0000_0000_0000_0000) by (nonlinear_arith)
            requires
                p@ < 1_000_000_000,
                0 <= n - 1 < 0x1_0000_0000_0000_0000,
        ;
    }
    let twice: u128 = 2 * p.nanos * (last as u128);
    let rounded: u128 = (twice + UNIT) / (2 * UNIT);
    if rounded > last as u128 {
        last
    } else {
        rounded as usize
    }
}

/// The samples in ascending order.
pub fn sort_samples(samples: &Vec<Decimal>) -> (sorted: Vec<Decimal>)
    ensures
        sorted@ == ascending(samples@),
        sorted@.len() == samples@.len(),
        sorted_by(sorted@, by_value()),
        sorted@.to_multiset() == samples@.to_multiset(),
{
    let mut sorted: Vec<Decimal> = Vec::new();
    let mut i: usize = 0;
    assert(samples@.take(0) =~= Seq::<Decimal>::empty());
    while i < samples.len()
        invariant
            i <= samples.len(),
            sorted@.len() == i,
            sorted_by(sorted@, by_value()),
            sorted@.to_multiset() == samples@.take(i as int).to_multiset(),
        decreases samples.len() - i,
    {
        let x = samples[i];
        let mut pos: usize = 0;
        while pos < sorted.len() && sorted[pos].nanos <= x.nanos
            invariant
                pos <= sorted.len(),
                forall|k: int| 0 <= k < pos ==> sorted@[k].nanos <= x.nanos,
            decreases sorted.len() - pos,
        {
            pos = pos + 1;
        }
        proof {
            let ghost before = sorted@;
            let ghost after = before.insert(pos as int, x);
            to_multiset_insert(before, pos as int, x);
            to_multiset_build(samples@.take(i as int), x);
            assert(samples@.take(i + 1) =~= samples@.take(i as int).push(x));
            assert forall|a: int, b: int| 0 <= a < b < after.len() implies by_value()(
                after[a],
                after[b],
            ) by {
                if a < pos && b > pos {
                    assert(by_value()(before[a], before[b - 1]));
                } else if a > pos {
                    assert(by_value()(before[a - 1], before[b - 1]));
                } else if b < pos {
                    assert(by_value()(before[a], before[b]));
                } else if a == pos {
                    assert(before[b - 1].nanos > x.nanos || pos == before.len()) by {
                        assert(by_value()(before[pos as int], before[b - 1]) || b - 1 == pos);
                    }
                }
            }
        }
        sorted.insert(pos, x);
        i = i + 1;
    }
    proof {
        assert(samples@.take(i as int) =~= samples@);
        lemma_by_value_total();
        samples@.lemma_sort_by_ensures(by_value());
        lemma_sorted_unique(sorted@, ascending(samples@), by_value());
    }
    sorted
}

/// Requests per second at a median latency of `p50` milliseconds.
fn throughput_at(p50: Decimal) -> (r: Decimal)
    ensures
        r@ == requests_per_second(p50@),
{
    if p50.nanos > 0 {
        let numerator: u128 = 1000 * UNIT * UNIT;
        Decimal::from_nanos(numerator / p50.nanos)
    } else {
        Decimal::zero()
    }
}

/// Turns the samples of a benchmark, in milliseconds, into performance
/// metrics. Without a sample every figure is zero.
pub fn summarize(samples: &Vec<Decimal>) -> (m: PerformanceMetrics)
    ensures
        summary_of(samples@, m),
{
    if samples.len() == 0 {
        return PerformanceMetrics::zeroed();
    }
    let sorted = sort_samples(samples);
    let n: usize = sorted.len();
    let p50 = sorted[percentile_index(Decimal::from_nanos(P50), n)];
    let p95 = sorted[percentile_index(Decimal::from_nanos(P95), n)];
    let p99 = sorted[percentile_index(Decimal::from_nanos(P99), n)];
    PerformanceMetrics {
        latency: LatencyMetrics {
            p50_ms: p50,
            p95_ms: p95,
            p99_ms: p99,
            cold_start_ms: sorted[0],
            ttfb_ms: Decimal::zero(),
        },
        throughput: ThroughputMetrics {
            requests_per_second: throughput_at(p50),
            mb_per_second: Decimal::zero(),
            concurrent_connections: 0,
            queue_depth: Decimal::zero(),
        },
        resource_usage: ResourceMetrics::default(),
        scalability: ScalabilityMetrics::default(),
    }
}

/// The samples that the measured runs among `outcomes[from..to]` give: the
/// times of the runs that exited successfully, in the order of the runs.
pub open spec fn samples_of(outcomes: Seq<RunOutcome>, from: int, to: int) -> Seq<Decimal>
    decreases to - from,
{
    if to <= from {
        Seq::empty()
    } else {
        let earlier = samples_of(outcomes, from, to - 1);
        match outcomes[to - 1] {
            RunOutcome::Completed { success, elapsed_ms } => if success {
                earlier.push(elapsed_ms)
            } else {
                earlier
            },
            RunOutcome::NotStarted(_) => earlier,
        }
    }
}

/// The index of the first of `outcomes[..n]` that could not be started, or
/// `n` where all of them could.
pub open spec fn first_not_started(outcomes: Seq<RunOutcome>, n: int) -> int
    decreases n,
{
    if n <= 0 {
        0
    } else {
        let before = first_not_started(outcomes, n - 1);
        if before < n - 1 {
            before
        } else if outcomes[n - 1] is NotStarted {
            n - 1
        } else {
            n
        }
    }
}

/// `first_not_started` is the least index of a run that could not be
/// started.
pub proof fn lemma_first_not_started(outcomes: Seq<RunOutcome>, n: int)
    requires
        0 <= n <= outcomes.len(),
    ensures
        0 <= first_not_started(outcomes, n) <= n,
        first_not_started(outcomes, n) < n ==> outcomes[first_not_started(
            outcomes,
            n,
        )] is NotStarted,
        forall|j: int|
            0 <= j < first_not_started(outcomes, n) ==> !(#[trigger] outcomes[j] is NotStarted),
    decreases n,
{
    if n > 0 {
        lemma_first_not_started(outcomes, n - 1);
    }
}

/// Runs an artifact several times and aggregates latency statistics.
pub struct BenchmarkRunner {
    opts: BenchmarkOptions,
}

impl BenchmarkRunner {
    /// The options of the runner.
    pub closed spec fn options(&self) -> BenchmarkOptions {
        self.opts
    }

    /// The number of runs that a benchmark takes: warm-up and measured.
    pub open spec fn planned(&self) -> int {
        self.options().warmup + self.options().iterations
    }

    /// The number of runs among `count` outcomes that belong to the
    /// benchmark.
    pub open spec fn counted(&self, count: int) -> int {
        if count < self.planned() {
            count
        } else {
            self.planned()
        }
    }

    /// The number of warm-up runs among `count` outcomes.
    pub open spec fn warmed(&self, count: int) -> int {
        if count < self.options().warmup {
            count
        } else {
            self.options().warmup as int
        }
    }

    /// A runner with the given options.
    pub fn new(opts: BenchmarkOptions) -> (r: Self)
        ensures
            r.options() == opts,
    {
        BenchmarkRunner { opts }
    }

    /// The options of the runner.
    pub fn opts(&self) -> (o: &BenchmarkOptions)
        ensures
            *o == self.options(),
    {
        &self.opts
    }

    /// Whether the artifact is to be run once more, after the runs whose
    /// outcomes are `outcomes`: not after a run that could not be started,
    /// and not once all planned runs are made.
    pub fn wants_run(&self, outcomes: &Vec<RunOutcome>) -> (r: bool)
        ensures
            r == (outcomes@.len() < self.planned() && first_not_started(
                outcomes@,
                outcomes@.len() as int,
            ) == outcomes@.len()),
    {
        let planned: u64 = self.opts.warmup as u64 + self.opts.iterations as u64;
        if outcomes.len() as u64 >= planned {
            return false;
        }
        let mut i: usize = 0;
        while i < outcomes.len()
            invariant
                i <= outcomes.len(),
                first_not_started(outcomes@, i as int) == i,
            decreases outcomes.len() - i,
        {
            match &outcomes[i] {
                RunOutcome::NotStarted(_) => {
                    proof {
                        lemma_first_not_started(outcomes@, outcomes@.len() as int);
                        lemma_first_not_started(outcomes@, i as int + 1);
                    }
                    return false;
                },
                RunOutcome::Completed { .. } => {},
            }
            i = i + 1;
        }
        true
    }

    /// The performance metrics that follow from the outcomes of the runs, in
    /// the order in which they were made. The first `warmup` outcomes are
    /// those of the warm-up runs, the next `iterations` those of the measured
    /// runs; further outcomes are not looked at. A run among these that could
    /// not be started fails the benchmark, with its text as the message.
    /// Otherwise the successful measured runs give the samples, and the
    /// metrics are their summary.
    pub fn benchmark(&self, outcomes: &Vec<RunOutcome>) -> (r: Result<
        PerformanceMetrics,
        CrabScoreError,
    >)
        ensures
            ({
                let count = self.counted(outcomes@.len() as int);
                let broken = first_not_started(outcomes@, count);
                match r {
                    Ok(m) => broken == count && summary_of(
                        samples_of(outcomes@, self.warmed(outcomes@.len() as int), count),
                        m,
                    ),
                    Err(e) => {
                        &&& broken < count
                        &&& e matches CrabScoreError::MeasurementError(msg)
                        &&& outcomes@[broken] matches RunOutcome::NotStarted(why)
                        &&& msg@ == why@
                    },
                }
            }),
    {
        let planned: u64 = self.opts.warmup as u64 + self.opts.iterations as u64;
        let count: usize = if (outcomes.len() as u64) < planned {
            outcomes.len()
        } else {
            planned as usize
        };
        let warmed: usize = if (outcomes.len() as u64) < self.opts.warmup as u64 {
            outcomes.len()
        } else {
            self.opts.warmup as usize
        };
        let mut samples: Vec<Decimal> = Vec::new();
        let mut i: usize = 0;
        while i < count
            invariant
                i <= count <= outcomes.len(),
                warmed <= count,
                count == self.counted(outcomes@.len() as int),
                warmed == self.warmed(outcomes@.len() as int),
                first_not_started(outcomes@, i as int) == i,
                samples@ == samples_of(
                    outcomes@,
                    warmed as int,
                    if i < warmed {
                        warmed as int
                    } else {
                        i as int
                    },
                ),
            decreases count - i,
        {
            match &outcomes[i] {
                RunOutcome::NotStarted(why) => {
                    proof {
                        assert(outcomes@[i as int] is NotStarted);
                        lemma_first_not_started(outcomes@, count as int);
                        lemma_first_not_started(outcomes@, i as int);
                        let k = first_not_started(outcomes@, count as int);
                        if k < i {
                            assert(outcomes@[k] is NotStarted);
                        }
                        assert(k == i);
                    }
                    return Err(CrabScoreError::MeasurementError(why.clone()));
                },
                RunOutcome::Completed { success, elapsed_ms } => {
                    if i >= warmed && *success {
                        samples.push(*elapsed_ms);
                    }
                },
            }
            i = i + 1;
        }
        Ok(summarize(&samples))
    }
}

impl Default for BenchmarkRunner {
    fn default() -> (r: Self)
        ensures
            r.options().warmup == 1,
            r.options().iterations == 5,
            r.options().args@.len() == 0,
    {
        BenchmarkRunner { opts: BenchmarkOptions::default() }
    }
}

/// With a single sample the nearest rank of every percentile is the sample
/// itself.
pub proof fn lemma_single_sample_rank(p: nat)
    ensures
        percentile_rank(p, 1) == 0,
{
}

/// The nearest rank lies among the samples and does not fall as the
/// percentile grows.
pub proof fn lemma_rank_in_range_and_monotone(p: nat, q: nat, n: nat)
    requires
        n >= 1,
        p <= q,
    ensures
        percentile_rank(p, n) <= percentile_rank(q, n) < n,
{
    let a = 2 * p * (n - 1) + UNIT;
    let b = 2 * q * (n - 1) + UNIT;
    assert(a <= b) by (nonlinear_arith)
        requires
            a == 2 * p * (n - 1) + UNIT,
            b == 2 * q * (n - 1) + UNIT,
            p <= q,
            n >= 1,
    ;
    assert(a / (2 * UNIT as int) <= b / (2 * UNIT as int)) by (nonlinear_arith)
        requires
            a <= b,
            UNIT == 1_000_000_000,
    ;
}

/// The summary of a single sample: every percentile and the cold start are
/// that sample.
pub proof fn lemma_single_sample_summary(x: Decimal, m: PerformanceMetrics)
    requires
        summary_of(seq![x], m),
    ensures
        m.latency.p50_ms == x,
        m.latency.p95_ms == x,
        m.latency.p99_ms == x,
        m.latency.cold_start_ms == x,
{
    let s = seq![x];
    lemma_by_value_total();
    s.lemma_sort_by_ensures(by_value());
    assert(sorted_by(s, by_value()));
    lemma_sorted_unique(ascending(s), s, by_value());
}

/// Measured runs of which none exited successfully give no sample.
pub proof fn lemma_no_success_no_sample(outcomes: Seq<RunOutcome>, from: int, to: int)
    requires
        0 <= from,
        to <= outcomes.len(),
        forall|i: int|
            from <= i < to ==> !(#[trigger] outcomes[i] matches RunOutcome::Completed {
                success: true,
                ..
            }),
    ensures
        samples_of(outcomes, from, to).len() == 0,
    decreases to - from,
{
    if to > from {
        lemma_no_success_no_sample(outcomes, from, to - 1);
        assert(!(outcomes[to - 1] matches RunOutcome::Completed { success: true, .. }));
    }
}

/// A benchmark without a successful measured run yields performance metrics
/// that are all zero: `m` is any summary of its samples.
pub proof fn lemma_no_success_is_zero(
    outcomes: Seq<RunOutcome>,
    from: int,
    to: int,
    m: PerformanceMetrics,
)
    requires
        0 <= from,
        to <= outcomes.len(),
        forall|i: int|
            from <= i < to ==> !(#[trigger] outcomes[i] matches RunOutcome::Completed {
                success: true,
                ..
            }),
        summary_of(samples_of(outcomes, from, to), m),
    ensures
        m.is_zero(),
{
    lemma_no_success_no_sample(outcomes, from, to);
}


/// The order in which the samples were taken does not change their summary:
/// two lists that hold the same samples, each as often, are the same once
/// sorted.
pub proof fn lemma_ascending_ignores_order(a: Seq<Decimal>, b: Seq<Decimal>)
    requires
        a.to_multiset() == b.to_multiset(),
    ensures
        ascending(a) == ascending(b),
{
    lemma_by_value_total();
    a.lemma_sort_by_ensures(by_value());
    b.lemma_sort_by_ensures(by_value());
    lemma_sorted_unique(ascending(a), ascending(b), by_value());
}

} // verus!
