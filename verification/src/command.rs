//! The scoring run: which measurements are taken, and what stands in for
//! those that fail.
//!
//! A failure while measurements are acquired degrades to zero: a benchmark
//! that fails, an energy monitor without data, and cost figures that cannot
//! be had all give figures that are all zero. A failure of the
//! static analysis ends the run: its counts decide the safety bonus, and
//! nothing can stand in for them.

use vstd::prelude::*;
use vstd::string::StringExecFns;
use crate::analysis::{analysis_text, AnalysisError};
use crate::cli::Commands;
use crate::complexity::{complexity_factor_nanos, ProjectComplexity};
use crate::error::CrabScoreError;
use crate::estimation::{
    estimate_cost_from_complexity, estimate_energy_from_complexity,
    estimate_performance_from_complexity, estimated_cost, estimated_energy, estimated_performance,
};
use crate::metrics::{CostMetrics, EnergyMetrics, PerformanceMetrics, SafetyMetrics};
use crate::profiles::IndustryProfile;
use crate::score::{CrabScore, Timestamp};
use crate::scoring_engine::{scored_with_bonus, ComplexityAwareScoringEngine};

verus! {

/// The four groups of measurements that a score is made of.
#[derive(Clone, Debug, PartialEq, Eq)]
pub struct Measurements {
    /// Performance measurements.
    pub performance: PerformanceMetrics,
    /// Energy measurements.
    pub energy: EnergyMetrics,
    /// Safety signals.
    pub safety: SafetyMetrics,
    /// Cost measurements.
    pub cost: CostMetrics,
}

/// Whether the input belongs to a project that can be built: a manifest
/// stands at the input path, or beside it. `beside` is `None` where the
/// path has no parent.
pub fn is_cargo_project(at_path: bool, beside: Option<bool>) -> (r: bool)
    ensures
        r == (at_path || beside == Some(true)),
{
    at_path || match beside {
        Some(found) => found,
        None => false,
    }
}

/// `r` is what the measurements of a project with a runnable artifact come
/// to: the failure of the static analysis, or else each group as it was
/// collected, and all zero where collecting it failed.
pub open spec fn full_outcome(
    performance: Result<PerformanceMetrics, CrabScoreError>,
    energy: Result<EnergyMetrics, CrabScoreError>,
    safety: Result<SafetyMetrics, AnalysisError>,
    cost: Result<CostMetrics, CrabScoreError>,
    r: Result<Measurements, CrabScoreError>,
) -> bool {
    match safety {
        Err(e) => r matches Err(CrabScoreError::AnalysisError(text)) && text@ == analysis_text(e),
        Ok(signals) => {
            &&& r is Ok
            &&& r.unwrap().safety == signals
            &&& match performance {
                Ok(p) => r.unwrap().performance == p,
                Err(_) => r.unwrap().performance.is_zero(),
            }
            &&& match energy {
                Ok(e) => r.unwrap().energy == e,
                Err(_) => r.unwrap().energy.is_default(),
            }
            &&& match cost {
                Ok(c) => r.unwrap().cost == c,
                Err(_) => r.unwrap().cost.is_default(),
            }
        },
    }
}

/// The measurements of a project with a runnable artifact, from what the
/// benchmark, the energy monitor, the static analysis and the cost provider
/// gave.
pub fn collect_full_metrics(
    performance: Result<PerformanceMetrics, CrabScoreError>,
    energy: Result<EnergyMetrics, CrabScoreError>,
    safety: Result<SafetyMetrics, AnalysisError>,
    cost: Result<CostMetrics, CrabScoreError>,
) -> (r: Result<Measurements, CrabScoreError>)
    ensures
        full_outcome(performance, energy, safety, cost, r),
{
    let signals = match safety {
        Ok(signals) => signals,
        Err(e) => {
            return Err(CrabScoreError::AnalysisError(e.message()));
        },
    };
    Ok(
        Measurements {
            performance: match performance {
                Ok(p) => p,
                Err(_) => PerformanceMetrics::zeroed(),
            },
            energy: match energy {
                Ok(e) => e,
                Err(_) => EnergyMetrics::default(),
            },
            safety: signals,
            cost: match cost {
                Ok(c) => c,
                Err(_) => CostMetrics::default(),
            },
        },
    )
}

/// `r` is what the measurements of a project without a runnable artifact
/// come to: the failure of the static analysis, or else its signals beside
/// the performance, energy and cost estimated from the project's counters.
pub open spec fn static_outcome(
    complexity: ProjectComplexity,
    safety: Result<SafetyMetrics, AnalysisError>,
    r: Result<Measurements, CrabScoreError>,
) -> bool {
    let f = complexity_factor_nanos(complexity.total_lines as nat) as int;
    match safety {
        Err(e) => r matches Err(CrabScoreError::AnalysisError(text)) && text@ == analysis_text(e),
        Ok(signals) => {
            &&& r is Ok
            &&& r.unwrap().safety == signals
            &&& estimated_performance(f, r.unwrap().performance)
            &&& estimated_energy(f, r.unwrap().energy)
            &&& estimated_cost(
                f,
                complexity.total_lines as int,
                complexity.function_count as int,
                r.unwrap().cost,
            )
        },
    }
}

/// The measurements of a project without a runnable artifact, from its
/// counters and from what the static analysis gave.
pub fn collect_static_metrics(
    complexity: &ProjectComplexity,
    safety: Result<SafetyMetrics, AnalysisError>,
) -> (r: Result<Measurements, CrabScoreError>)
    ensures
        static_outcome(*complexity, safety, r),
{
    let signals = match safety {
        Ok(signals) => signals,
        Err(e) => {
            return Err(CrabScoreError::AnalysisError(e.message()));
        },
    };
    Ok(
        Measurements {
            performance: estimate_performance_from_complexity(complexity),
            energy: estimate_energy_from_complexity(complexity),
            safety: signals,
            cost: estimate_cost_from_complexity(complexity),
        },
    )
}

/// The score of a project under the default profile, from its counters and
/// its measurements, stamped with `timestamp`, the time at which the
/// caller's clock says the score is calculated. `os` names the host's
/// operating system.
pub fn score_project(
    complexity: ProjectComplexity,
    measurements: &Measurements,
    os: &str,
    timestamp: Timestamp,
) -> (s: CrabScore)
    ensures
        scored_with_bonus(
            IndustryProfile::WebServices,
            complexity,
            measurements.performance,
            measurements.energy,
            measurements.cost,
            measurements.safety,
            os@,
            s,
        ),
        s.timestamp == timestamp,
{
    let engine = ComplexityAwareScoringEngine::new(IndustryProfile::default(), complexity);
    engine.calculate_score(
        &measurements.performance,
        &measurements.energy,
        &measurements.cost,
        &measurements.safety,
        os,
        timestamp,
    )
}

/// Where the score of a run goes.
#[derive(Clone, Copy, Debug, PartialEq, Eq, Structural)]
pub enum Output {
    /// It is shown on the console.
    Console,
    /// It is served by the web dashboard on this port.
    Dashboard {
        /// The port of the dashboard.
        port: u16,
    },
    /// It is written to the report files.
    Files,
}

/// Whether the input of a run is the root of a project that can be built.
#[derive(Clone, Copy, Debug, PartialEq, Eq, Structural)]
pub enum ProjectKind {
    /// It is where a manifest stands at the path or beside it.
    Detected,
    /// It is taken to be one.
    Assumed,
}

/// What the program does for a command.
#[derive(Clone, Debug, PartialEq, Eq)]
pub enum Plan {
    /// Score the project at `path`.
    Run {
        /// The path of the project or binary.
        path: String,
        /// The binary to benchmark, if the caller named one.
        bin: Option<String>,
        /// Whether the path is a project root.
        project: ProjectKind,
        /// Where the score goes.
        output: Output,
    },
    /// Print the version.
    Version,
}

/// The file that holds the JSON report.
pub const JSON_REPORT_FILE: &'static str = "crabscore_report.json";

/// The file that holds the HTML report.
pub const HTML_REPORT_FILE: &'static str = "crabscore_report.html";

/// The file that holds the sustainability export.
pub const CSRD_REPORT_FILE: &'static str = "report_csrd.json";

/// `plan` is what the program does for `cmd`. A score goes to the console,
/// for the path and the binary that the caller gave. A report is made of
/// the current directory, taken as a project root, without a named binary,
/// and goes to the dashboard or to the report files.
pub open spec fn planned(cmd: Commands, plan: Plan) -> bool {
    match cmd {
        Commands::Score { path, bin } => {
            &&& plan matches Plan::Run { path: p, bin: b, project, output }
            &&& p@ == path@
            &&& match (bin, b) {
                (Some(want), Some(got)) => want@ == got@,
                (None, None) => true,
                _ => false,
            }
            &&& project == ProjectKind::Detected
            &&& output == Output::Console
        },
        Commands::Report { serve, port } => {
            &&& plan matches Plan::Run { path: p, bin: b, project, output }
            &&& p@ == "."@
            &&& b is None
            &&& project == ProjectKind::Assumed
            &&& output == if serve {
                Output::Dashboard { port }
            } else {
                Output::Files
            }
        },
        Commands::Version => plan is Version,
    }
}

/// What the program does for a command.
pub fn plan(cmd: &Commands) -> (plan: Plan)
    ensures
        planned(*cmd, plan),
{
    match cmd {
        Commands::Score { path, bin } => Plan::Run {
            path: path.clone(),
            bin: match bin {
                Some(name) => Some(name.clone()),
                None => None,
            },
            project: ProjectKind::Detected,
            output: Output::Console,
        },
        Commands::Report { serve, port } => Plan::Run {
            path: String::from_str("."),
            bin: None,
            project: ProjectKind::Assumed,
            output: if *serve {
                Output::Dashboard { port: *port }
            } else {
                Output::Files
            },
        },
        Commands::Version => Plan::Version,
    }
}

/// How the measurements of a run are acquired.
#[derive(Clone, Copy, Debug, PartialEq, Eq, Structural)]
pub enum Acquisition {
    /// The artifact is benchmarked, and energy and cost are collected.
    Measured,
    /// Performance, energy and cost are estimated from the project's
    /// counters.
    Estimated,
}

/// How the measurements of a run are acquired: measured where a runnable
/// artifact was found, estimated where none was.
pub fn acquisition(artifact_found: bool) -> (a: Acquisition)
    ensures
        a == if artifact_found {
            Acquisition::Measured
        } else {
            Acquisition::Estimated
        },
{
    if artifact_found {
        Acquisition::Measured
    } else {
        Acquisition::Estimated
    }
}

} // verus!
