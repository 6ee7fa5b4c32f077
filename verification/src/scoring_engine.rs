//! Scoring that rewards small, documented, tested and self-contained
//! projects.
//!
//! The engine adds a complexity bonus of up to ten points to the score of
//! the base engine. The bonus has four parts, for size, documentation, tests
//! and dependencies, each decided by exact comparison of the project's
//! counters.

use vstd::prelude::*;
use vstd::string::StringExecFns;
use crate::complexity::ProjectComplexity;
use crate::decimal::{Decimal, UNIT};
use crate::metrics::{CostMetrics, EnergyMetrics, PerformanceMetrics, SafetyMetrics};
use crate::profiles::IndustryProfile;
use crate::score::{tier_of, Certification, CrabScore, Timestamp};
use crate::scoring::{
    cost_score, energy_score, overall_score, performance_score, safety_points, ScoringEngine,
};

verus! {

/// Points for size: 2 below 100 lines, 1 below 500.
pub open spec fn size_points(total_lines: nat) -> nat {
    if total_lines < 100 {
        2
    } else if total_lines < 500 {
        1
    } else {
        0
    }
}

/// Points for documentation: 2 where more than a fifth of the lines are
/// documentation, 1 where more than a tenth are. A project without lines
/// has no documentation coverage.
pub open spec fn doc_points(doc_lines: nat, total_lines: nat) -> nat {
    if total_lines == 0 {
        0
    } else if 5 * doc_lines > total_lines {
        2
    } else if 10 * doc_lines > total_lines {
        1
    } else {
        0
    }
}

/// Points for tests: 3 where there are more than 0.8 test markers per
/// function, 2 above 0.5, 1 above 0.2. A project without functions has no
/// test coverage.
pub open spec fn test_points(test_count: nat, function_count: nat) -> nat {
    if function_count == 0 {
        0
    } else if 5 * test_count > 4 * function_count {
        3
    } else if 2 * test_count > function_count {
        2
    } else if 5 * test_count > function_count {
        1
    } else {
        0
    }
}

/// Points for few dependencies: 3 for none, 2 below five, 1 below ten.
pub open spec fn dependency_points(dependency_count: nat) -> nat {
    if dependency_count == 0 {
        3
    } else if dependency_count < 5 {
        2
    } else if dependency_count < 10 {
        1
    } else {
        0
    }
}

/// The complexity bonus in points: the four parts summed, and ten at most.
pub open spec fn bonus_points(c: ProjectComplexity) -> nat {
    let sum = size_points(c.total_lines as nat) + doc_points(
        c.doc_lines as nat,
        c.total_lines as nat,
    ) + test_points(c.test_count as nat, c.function_count as nat) + dependency_points(
        c.dependency_count as nat,
    );
    if sum > 10 {
        10
    } else {
        sum
    }
}

/// The entry of the breakdown for size.
pub open spec fn size_entry(total_lines: nat) -> Seq<(Seq<char>, nat)> {
    if total_lines < 100 {
        seq![("Small Project Bonus"@, 2nat)]
    } else if total_lines < 500 {
        seq![("Compact Project Bonus"@, 1nat)]
    } else {
        seq![]
    }
}

/// The entry of the breakdown for documentation.
pub open spec fn doc_entry(doc_lines: nat, total_lines: nat) -> Seq<(Seq<char>, nat)> {
    if doc_points(doc_lines, total_lines) == 2 {
        seq![("Excellent Documentation"@, 2nat)]
    } else if doc_points(doc_lines, total_lines) == 1 {
        seq![("Good Documentation"@, 1nat)]
    } else {
        seq![]
    }
}

/// The entry of the breakdown for tests.
pub open spec fn test_entry(test_count: nat, function_count: nat) -> Seq<(Seq<char>, nat)> {
    if test_points(test_count, function_count) == 3 {
        seq![("Excellent Tests"@, 3nat)]
    } else if test_points(test_count, function_count) == 2 {
        seq![("Good Test Coverage"@, 2nat)]
    } else if test_points(test_count, function_count) == 1 {
        seq![("Basic Test Coverage"@, 1nat)]
    } else {
        seq![]
    }
}

/// The entry of the breakdown for dependencies.
pub open spec fn dependency_entry(dependency_count: nat) -> Seq<(Seq<char>, nat)> {
    if dependency_count == 0 {
        seq![("Zero Dependencies"@, 3nat)]
    } else if dependency_count < 5 {
        seq![("Minimal Dependencies"@, 2nat)]
    } else if dependency_count < 10 {
        seq![("Reasonable Dependencies"@, 1nat)]
    } else {
        seq![]
    }
}

/// The bonuses that a project earns, each with its name and its points, in
/// the order size, documentation, tests, dependencies.
pub open spec fn breakdown_of(c: ProjectComplexity) -> Seq<(Seq<char>, nat)> {
    size_entry(c.total_lines as nat) + doc_entry(c.doc_lines as nat, c.total_lines as nat)
        + test_entry(c.test_count as nat, c.function_count as nat) + dependency_entry(
        c.dependency_count as nat,
    )
}

/// The names and points held in `entries`, points as whole numbers.
pub open spec fn entries_view(entries: Seq<(String, Decimal)>) -> Seq<(Seq<char>, nat)> {
    entries.map_values(|e: (String, Decimal)| (e.0@, (e.1@ / (UNIT as nat)) as nat))
}

/// The sum of the points of `entries`.
pub open spec fn points_sum(entries: Seq<(Seq<char>, nat)>) -> nat
    decreases entries.len(),
{
    if entries.len() == 0 {
        0
    } else {
        points_sum(entries.drop_last()) + entries.last().1
    }
}

fn points_for_size(total_lines: usize) -> (p: u64)
    ensures
        p == size_points(total_lines as nat),
{
    if total_lines < 100 {
        2
    } else if total_lines < 500 {
        1
    } else {
        0
    }
}

fn points_for_docs(doc_lines: usize, total_lines: usize) -> (p: u64)
    ensures
        p == doc_points(doc_lines as nat, total_lines as nat),
{
    let docs: u128 = doc_lines as u128;
    let lines: u128 = total_lines as u128;
    if lines == 0 {
        0
    } else if 5 * docs > lines {
        2
    } else if 10 * docs > lines {
        1
    } else {
        0
    }
}

fn points_for_tests(test_count: usize, function_count: usize) -> (p: u64)
    ensures
        p == test_points(test_count as nat, function_count as nat),
{
    let tests: u128 = test_count as u128;
    let functions: u128 = function_count as u128;
    if functions == 0 {
        0
    } else if 5 * tests > 4 * functions {
        3
    } else if 2 * tests > functions {
        2
    } else if 5 * tests > functions {
        1
    } else {
        0
    }
}

fn points_for_dependencies(dependency_count: usize) -> (p: u64)
    ensures
        p == dependency_points(dependency_count as nat),
{
    if dependency_count == 0 {
        3
    } else if dependency_count < 5 {
        2
    } else if dependency_count < 10 {
        1
    } else {
        0
    }
}

/// The complexity bonus of a project: up to 2 points for small size, 2 for
/// documentation, 3 for tests and 3 for few dependencies, ten in all at
/// most.
pub fn calculate_complexity_bonus(c: &ProjectComplexity) -> (bonus: Decimal)
    ensures
        bonus@ == bonus_points(*c) * UNIT,
        bonus@ <= 10 * UNIT,
{
    let sum: u64 = points_for_size(c.total_lines) + points_for_docs(c.doc_lines, c.total_lines)
        + points_for_tests(c.test_count, c.function_count) + points_for_dependencies(
        c.dependency_count,
    );
    Decimal::from_units(if sum > 10 {
        10
    } else {
        sum
    })
}

/// `s` is the score that the complexity-aware engine gives: the scores of
/// the three axes as the base engine gives them; the safety bonus and the
/// complexity bonus as bonuses; both bonuses in the overall score; the tier
/// that this overall score earns; and the host's operating system and the
/// compiler's version in the metadata.
pub open spec fn scored_with_bonus(
    profile: IndustryProfile,
    complexity: ProjectComplexity,
    performance: PerformanceMetrics,
    energy: EnergyMetrics,
    cost: CostMetrics,
    safety: SafetyMetrics,
    os: Seq<char>,
    s: CrabScore,
) -> bool {
    &&& s.performance@ == performance_score(performance)
    &&& s.energy@ == energy_score(energy)
    &&& s.cost@ == cost_score(cost)
    &&& s.bonuses@ == safety_points(safety) * UNIT + bonus_points(complexity) * UNIT
    &&& s.overall@ == overall_score(profile, performance, energy, cost, safety) + bonus_points(
        complexity,
    ) * UNIT
    &&& s.certification == tier_of(s.overall@)
    &&& s.metadata.profile == profile
    &&& s.metadata.project_name@.len() == 0
    &&& s.metadata.version@.len() == 0
    &&& s.metadata.measurements.duration_secs == 0
    &&& s.metadata.measurements.iterations == 0
    &&& s.metadata.measurements.environment.os@ == os
    &&& s.metadata.measurements.environment.cpu@.len() == 0
    &&& s.metadata.measurements.environment.memory_gb@ == 0
    &&& s.metadata.measurements.environment.rust_version@ == "1.88.0"@
}

/// A scoring engine that adds the complexity bonus of one project.
pub struct ComplexityAwareScoringEngine {
    base_engine: ScoringEngine,
    complexity: ProjectComplexity,
}

impl ComplexityAwareScoringEngine {
    /// The profile of the engine.
    pub closed spec fn profile_of(&self) -> IndustryProfile {
        self.base_engine.profile_of()
    }

    /// The counters of the project.
    pub closed spec fn complexity_of(&self) -> ProjectComplexity {
        self.complexity
    }

    /// An engine that scores the project with the counters `complexity`
    /// under `profile`, whose weights must sum to one within the tolerance.
    pub fn new(profile: IndustryProfile, complexity: ProjectComplexity) -> (e: Self)
        requires
            profile.well_formed(),
        ensures
            e.profile_of() == profile,
            e.complexity_of() == complexity,
    {
        ComplexityAwareScoringEngine { base_engine: ScoringEngine::new(profile), complexity }
    }

    /// The score of the measurements with the complexity bonus applied,
    /// stamped with `timestamp`, the time at which the caller's clock says
    /// the score is calculated. `os` names the host's operating system.
    pub fn calculate_score(
        &self,
        performance: &PerformanceMetrics,
        energy: &EnergyMetrics,
        cost: &CostMetrics,
        safety: &SafetyMetrics,
        os: &str,
        timestamp: Timestamp,
    ) -> (s: CrabScore)
        ensures
            scored_with_bonus(
                self.profile_of(),
                self.complexity_of(),
                *performance,
                *energy,
                *cost,
                *safety,
                os@,
                s,
            ),
            s.timestamp == timestamp,
    {
        let mut score = self.base_engine.calculate_score(
            performance,
            energy,
            cost,
            safety,
            timestamp,
        );
        let bonus = calculate_complexity_bonus(&self.complexity);
        score.bonuses = Decimal::from_nanos(score.bonuses.nanos + bonus.nanos);
        score.overall = Decimal::from_nanos(score.overall.nanos + bonus.nanos);
        score.certification = Certification::for_score(score.overall);
        score.metadata.measurements.environment.os = String::from_str(os);
        score.metadata.measurements.environment.rust_version = String::from_str("1.88.0");
        score
    }

    /// The bonuses that the project earns, each with its name and its
    /// points, in the order size, documentation, tests, dependencies.
    pub fn get_bonus_breakdown(&self) -> (entries: Vec<(String, Decimal)>)
        ensures
            entries_view(entries@) == breakdown_of(self.complexity_of()),
            forall|i: int| 0 <= i < entries@.len() ==> (#[trigger] entries@[i]).1@ % (UNIT as nat) == 0,
    {
        let c = &self.complexity;
        let mut entries: Vec<(String, Decimal)> = Vec::new();
        assert(entries_view(entries@) =~= Seq::<(Seq<char>, nat)>::empty());
        let size = points_for_size(c.total_lines);
        if size == 2 {
            entries.push((String::from_str("Small Project Bonus"), Decimal::from_units(2)));
        } else if size == 1 {
            entries.push((String::from_str("Compact Project Bonus"), Decimal::from_units(1)));
        }
        assert(entries_view(entries@) =~= size_entry(c.total_lines as nat));
        let ghost after_size = entries@;
        let docs = points_for_docs(c.doc_lines, c.total_lines);
        if docs == 2 {
            entries.push((String::from_str("Excellent Documentation"), Decimal::from_units(2)));
        } else if docs == 1 {
            entries.push((String::from_str("Good Documentation"), Decimal::from_units(1)));
        }
        assert(entries_view(entries@) =~= entries_view(after_size) + doc_entry(
            c.doc_lines as nat,
            c.total_lines as nat,
        ));
        let ghost after_docs = entries@;
        let tests = points_for_tests(c.test_count, c.function_count);
        if tests == 3 {
            entries.push((String::from_str("Excellent Tests"), Decimal::from_units(3)));
        } else if tests == 2 {
            entries.push((String::from_str("Good Test Coverage"), Decimal::from_units(2)));
        } else if tests == 1 {
            entries.push((String::from_str("Basic Test Coverage"), Decimal::from_units(1)));
        }
        assert(entries_view(entries@) =~= entries_view(after_docs) + test_entry(
            c.test_count as nat,
            c.function_count as nat,
        ));
        let ghost after_tests = entries@;
        let deps = points_for_dependencies(c.dependency_count);
        if deps == 3 {
            entries.push((String::from_str("Zero Dependencies"), Decimal::from_units(3)));
        } else if deps == 2 {
            entries.push((String::from_str("Minimal Dependencies"), Decimal::from_units(2)));
        } else if deps == 1 {
            entries.push((String::from_str("Reasonable Dependencies"), Decimal::from_units(1)));
        }
        assert(entries_view(entries@) =~= entries_view(after_tests) + dependency_entry(
            c.dependency_count as nat,
        ));
        entries
    }
}

/// The complexity bonus never grows with the number of lines, all other
/// counters being equal, and never exceeds ten points. One kind of pair is
/// left out: a project without lines has no documentation coverage,
/// whatever its count of documentation lines, so where `a` has no line but
/// has documentation lines, `b` must not earn more than two points for size
/// and documentation together.
pub proof fn lemma_bonus_falls_with_lines(a: ProjectComplexity, b: ProjectComplexity)
    requires
        a.total_lines <= b.total_lines,
        a.file_count == b.file_count,
        a.function_count == b.function_count,
        a.module_count == b.module_count,
        a.test_count == b.test_count,
        a.doc_lines == b.doc_lines,
        a.dependency_count == b.dependency_count,
        a.total_lines == 0 && a.doc_lines > 0 ==> size_points(b.total_lines as nat) + doc_points(
            b.doc_lines as nat,
            b.total_lines as nat,
        ) <= 2,
    ensures
        bonus_points(b) <= bonus_points(a),
        bonus_points(a) <= 10,
{
}

/// The four parts of the bonus never sum to more than ten points, so the
/// bonus is the sum of the points in the breakdown.
pub proof fn lemma_bonus_is_breakdown_sum(c: ProjectComplexity)
    ensures
        bonus_points(c) == points_sum(breakdown_of(c)),
        bonus_points(c) == size_points(c.total_lines as nat) + doc_points(
            c.doc_lines as nat,
            c.total_lines as nat,
        ) + test_points(c.test_count as nat, c.function_count as nat) + dependency_points(
            c.dependency_count as nat,
        ),
{
    let a = size_entry(c.total_lines as nat);
    let d = doc_entry(c.doc_lines as nat, c.total_lines as nat);
    let t = test_entry(c.test_count as nat, c.function_count as nat);
    let p = dependency_entry(c.dependency_count as nat);
    lemma_points_sum_short(a);
    lemma_points_sum_short(d);
    lemma_points_sum_short(t);
    lemma_points_sum_short(p);
    lemma_points_sum_concat(a, d);
    lemma_points_sum_concat(a + d, t);
    lemma_points_sum_concat(a + d + t, p);
}

/// The points of an entry list of at most one entry.
proof fn lemma_points_sum_short(entries: Seq<(Seq<char>, nat)>)
    requires
        entries.len() <= 1,
    ensures
        points_sum(entries) == if entries.len() == 0 {
            0
        } else {
            entries[0].1
        },
{
    if entries.len() == 1 {
        assert(entries.drop_last().len() == 0);
        assert(points_sum(entries.drop_last()) == 0);
    }
}

/// The points of two entry lists joined, where the second holds at most one
/// entry.
proof fn lemma_points_sum_concat(xs: Seq<(Seq<char>, nat)>, ys: Seq<(Seq<char>, nat)>)
    requires
        ys.len() <= 1,
    ensures
        points_sum(xs + ys) == points_sum(xs) + points_sum(ys),
{
    lemma_points_sum_short(ys);
    if ys.len() == 0 {
        assert(xs + ys =~= xs);
    } else {
        assert((xs + ys).drop_last() =~= xs);
        assert((xs + ys).last() == ys[0]);
    }
}

} // verus!
