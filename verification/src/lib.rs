//! Efficiency scoring for software projects.
//!
//! A project is scored along three weighted axes (performance, energy and
//! cost), a safety bonus and a complexity bonus are added, and the total is
//! mapped to a certification tier. Every quantity is a fixed-point number
//! held in billionths, so that every score is reproducible bit for bit: a
//! [`decimal::Decimal`], which never lies below zero, or, for the cost
//! figures that a user states, a [`decimal::SignedDecimal`].
//!
//! The library computes; it touches neither the file system nor processes.
//! What has been read, run or parsed is handed in as plain values:
//!
//! - [`complexity`] counts lines, functions, tests and dependencies;
//! - [`binary_discovery`] decides how a runnable artifact is looked for;
//! - [`safety`] walks syntax trees for unsafe regions and decision points;
//! - [`benchmark`] turns the outcomes of runs into latency statistics;
//! - [`estimation`] stands in for measurements that cannot be taken;
//! - [`cost`] and [`energy`] supply the remaining measurements;
//! - [`scoring`] and [`scoring_engine`] combine everything into a
//!   [`score::CrabScore`];
//! - [`command`] and [`report`] hold the decisions of a scoring run and of
//!   its reports.

pub mod analysis;
pub mod benchmark;
pub mod binary_discovery;
pub mod cli;
pub mod command;
pub mod complexity;
pub mod cost;
pub mod decimal;
pub mod energy;
pub mod error;
pub mod estimation;
pub mod metrics;
pub mod profiles;
pub mod report;
pub mod safety;
pub mod score;
pub mod scoring;
pub mod scoring_engine;
pub mod text;
