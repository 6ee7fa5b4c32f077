//! What goes into the reports of a score.
//!
//! Rendering a score as JSON is the caller's work. This module wraps the
//! score for the JSON report, builds the HTML page around the rendered JSON,
//! and decides the labels that the exports and the console show.

use vstd::prelude::*;
use vstd::string::StringExecFns;
use crate::decimal::{Decimal, UNIT};
use crate::score::{CrabScore, VERIFIED_FROM};

verus! {

/// The value that is rendered as the JSON report: the score, under the key
/// `score`.
#[derive(Clone, Debug, PartialEq, Eq)]
pub struct JsonReport {
    /// The score that is reported.
    pub score: CrabScore,
}

/// Wraps a score for the JSON report.
pub fn generate_json(score: &CrabScore) -> (report: JsonReport)
    ensures
        report.score == *score,
{
    JsonReport { score: score.duplicate() }
}

/// The HTML page up to the report.
pub open spec fn page_head() -> Seq<char> {
    "<!DOCTYPE html><html><head><meta charset='utf-8'><title>CrabScore Report</title><style>body{background:#18191c;color:#f7f7f7;font-family:'JetBrains Mono',monospace;padding:2rem}</style></head><body><h1 style='color:#ff5522;text-align:center'>CRABSCORE REPORT</h1><pre style='background:#111;color:#aaa;padding:1rem;border-radius:0.5rem;overflow-x:auto'>"@
}

/// The HTML page after the report.
pub open spec fn page_tail() -> Seq<char> {
    "</pre></body></html>"@
}

/// A self-contained HTML page that shows `json_pretty`, the rendered JSON
/// report, in a preformatted block. The report is embedded as it is.
pub fn generate_html(json_pretty: &str) -> (page: String)
    ensures
        page@ == page_head() + json_pretty@ + page_tail(),
{
    let head = String::from_str(
        "<!DOCTYPE html><html><head><meta charset='utf-8'><title>CrabScore Report</title><style>body{background:#18191c;color:#f7f7f7;font-family:'JetBrains Mono',monospace;padding:2rem}</style></head><body><h1 style='color:#ff5522;text-align:center'>CRABSCORE REPORT</h1><pre style='background:#111;color:#aaa;padding:1rem;border-radius:0.5rem;overflow-x:auto'>",
    );
    head.concat(json_pretty).concat("</pre></body></html>")
}

/// Whether an overall score passes the resilience export: from 70 on.
pub open spec fn passes(overall: nat) -> bool {
    overall >= VERIFIED_FROM
}

/// The compliance label of the resilience export: `PASS` for an overall
/// score of 70 or more, `FAIL` below.
pub fn compliance(overall: Decimal) -> (label: &'static str)
    ensures
        label@ == if passes(overall@) {
            "PASS"@
        } else {
            "FAIL"@
        },
{
    if overall.nanos >= VERIFIED_FROM {
        "PASS"
    } else {
        "FAIL"
    }
}

/// The width of a score bar, in cells.
pub const BAR_WIDTH: usize = 20;

/// How a score bar is coloured.
#[derive(Clone, Copy, Debug, PartialEq, Eq, Structural)]
pub enum Band {
    /// A score of 80 or more.
    High,
    /// A score of 60 or more.
    Medium,
    /// A score below 60.
    Low,
}

/// A score as a bar of `BAR_WIDTH` cells.
#[derive(Clone, Copy, Debug, PartialEq, Eq, Structural)]
pub struct ScoreBar {
    /// Number of filled cells.
    pub filled: usize,
    /// Number of empty cells.
    pub empty: usize,
    /// How the bar is coloured.
    pub band: Band,
}

/// The number of filled cells of the bar for a score of `score` billionths:
/// a cell for every five points, and the whole bar at most.
pub open spec fn filled_cells(score: nat) -> nat {
    if score / (5 * UNIT as nat) > BAR_WIDTH {
        BAR_WIDTH as nat
    } else {
        score / (5 * UNIT as nat)
    }
}

/// The band of a score of `score` billionths.
pub open spec fn band_of(score: nat) -> Band {
    if score >= 80 * UNIT {
        Band::High
    } else if score >= 60 * UNIT {
        Band::Medium
    } else {
        Band::Low
    }
}

/// The bar that shows a score between 0 and 100.
pub fn score_bar(score: Decimal) -> (bar: ScoreBar)
    ensures
        bar.filled == filled_cells(score@),
        bar.filled + bar.empty == BAR_WIDTH,
        bar.band == band_of(score@),
{
    let cells: u128 = score.nanos / (5 * UNIT);
    let filled: usize = if cells > 20 {
        BAR_WIDTH
    } else {
        cells as usize
    };
    let band = if score.nanos >= 80 * UNIT {
        Band::High
    } else if score.nanos >= 60 * UNIT {
        Band::Medium
    } else {
        Band::Low
    };
    ScoreBar { filled, empty: BAR_WIDTH - filled, band }
}

} // verus!
