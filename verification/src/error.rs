//! The library's error type.

use vstd::prelude::*;
use vstd::std_specs::convert::FromSpecImpl;
use vstd::string::StringExecFns;
use crate::text::{has_prefix, number_text, numeral};

verus! {

/// Declares `serde_json::Error`, the error of a JSON document that cannot
/// be read. It is carried through as it is.
#[verifier::external_type_specification]
#[verifier::external_body]
pub struct ExJsonError(serde_json::Error);

/// Declares `std::io::Error`, the error of reading and writing. It is
/// carried through as it is.
#[verifier::external_type_specification]
#[verifier::external_body]
pub struct ExIoError(std::io::Error);

/// What can go wrong while a project is measured and scored.
#[derive(Debug)]
pub enum CrabScoreError {
    /// A measurement could not be collected.
    MeasurementError(String),
    /// The source tree could not be analysed.
    AnalysisError(String),
    /// The configuration is invalid.
    ConfigError(String),
    /// Reading or writing failed.
    IoError(std::io::Error),
    /// A JSON document is malformed.
    JsonError(serde_json::Error),
    /// The environment could not be detected.
    EnvironmentError(String),
    /// The platform or feature is not supported.
    UnsupportedError(String),
    /// An external command failed.
    CommandError {
        /// The command that was run.
        command: String,
        /// Its exit status, if it had one.
        status: Option<i32>,
        /// What it wrote to standard error.
        stderr: String,
    },
    /// The input data is invalid.
    ValidationError(String),
}

impl CrabScoreError {
    /// A measurement error with the message `msg`.
    pub fn measurement(msg: &str) -> (e: Self)
        ensures
            e matches CrabScoreError::MeasurementError(m) && m@ == msg@,
    {
        CrabScoreError::MeasurementError(String::from_str(msg))
    }

    /// An analysis error with the message `msg`.
    pub fn analysis(msg: &str) -> (e: Self)
        ensures
            e matches CrabScoreError::AnalysisError(m) && m@ == msg@,
    {
        CrabScoreError::AnalysisError(String::from_str(msg))
    }

    /// A configuration error with the message `msg`.
    pub fn config(msg: &str) -> (e: Self)
        ensures
            e matches CrabScoreError::ConfigError(m) && m@ == msg@,
    {
        CrabScoreError::ConfigError(String::from_str(msg))
    }

    /// An error for the unsupported feature `feature`.
    pub fn unsupported(feature: &str) -> (e: Self)
        ensures
            e matches CrabScoreError::UnsupportedError(m) && m@ == feature@,
    {
        CrabScoreError::UnsupportedError(String::from_str(feature))
    }

    /// A validation error with the message `msg`.
    pub fn validation(msg: &str) -> (e: Self)
        ensures
            e matches CrabScoreError::ValidationError(m) && m@ == msg@,
    {
        CrabScoreError::ValidationError(String::from_str(msg))
    }
}

impl From<serde_json::Error> for CrabScoreError {
    fn from(err: serde_json::Error) -> (e: Self) {
        CrabScoreError::JsonError(err)
    }
}

impl FromSpecImpl<serde_json::Error> for CrabScoreError {
    open spec fn obeys_from_spec() -> bool {
        true
    }

    open spec fn from_spec(err: serde_json::Error) -> Self {
        CrabScoreError::JsonError(err)
    }
}

impl From<std::io::Error> for CrabScoreError {
    fn from(err: std::io::Error) -> (e: Self) {
        CrabScoreError::IoError(err)
    }
}

impl FromSpecImpl<std::io::Error> for CrabScoreError {
    open spec fn obeys_from_spec() -> bool {
        true
    }

    open spec fn from_spec(err: std::io::Error) -> Self {
        CrabScoreError::IoError(err)
    }
}


/// An exit status as text: `None`, or the number inside `Some(..)`.
pub open spec fn status_text(status: Option<i32>) -> Seq<char> {
    match status {
        None => "None"@,
        Some(n) => if n < 0 {
            "Some(-"@ + numeral((-n) as nat) + ")"@
        } else {
            "Some("@ + numeral(n as nat) + ")"@
        },
    }
}

/// `text` is the message of `e`: what went wrong, and the detail. For an
/// error from outside the library the detail is the outside error's own
/// text, of which nothing is said here.
pub open spec fn is_message(e: CrabScoreError, text: Seq<char>) -> bool {
    match e {
        CrabScoreError::MeasurementError(m) => text == "Measurement failed: "@ + m@,
        CrabScoreError::AnalysisError(m) => text == "Analysis failed: "@ + m@,
        CrabScoreError::ConfigError(m) => text == "Invalid configuration: "@ + m@,
        CrabScoreError::IoError(_) => has_prefix(text, "I/O error: "@),
        CrabScoreError::JsonError(_) => has_prefix(text, "JSON error: "@),
        CrabScoreError::EnvironmentError(m) => text == "Failed to detect environment: "@ + m@,
        CrabScoreError::UnsupportedError(m) => text == "Unsupported: "@ + m@,
        CrabScoreError::CommandError { command, status, stderr } => text == "Command '"@
            + command@ + "' failed with status "@ + status_text(status) + ": "@ + stderr@,
        CrabScoreError::ValidationError(m) => text == "Invalid input: "@ + m@,
    }
}

fn status_as_text(status: Option<i32>) -> (text: String)
    ensures
        text@ == status_text(status),
{
    match status {
        None => String::from_str("None"),
        Some(n) => {
            if n < 0 {
                let magnitude: u128 = (-(n as i64)) as u128;
                String::from_str("Some(-").concat(number_text(magnitude).as_str()).concat(")")
            } else {
                String::from_str("Some(").concat(number_text(n as u128).as_str()).concat(")")
            }
        },
    }
}

fn with_prefix(prefix: &str, detail: &str) -> (text: String)
    ensures
        text@ == prefix@ + detail@,
        has_prefix(text@, prefix@),
{
    let text = String::from_str(prefix).concat(detail);
    assert(text@.subrange(0, prefix@.len() as int) =~= prefix@);
    text
}

impl CrabScoreError {
    /// The message of the error.
    pub fn message(&self) -> (text: String)
        ensures
            is_message(*self, text@),
    {
        match self {
            CrabScoreError::MeasurementError(m) => with_prefix("Measurement failed: ", m.as_str()),
            CrabScoreError::AnalysisError(m) => with_prefix("Analysis failed: ", m.as_str()),
            CrabScoreError::ConfigError(m) => with_prefix("Invalid configuration: ", m.as_str()),
            CrabScoreError::IoError(e) => with_prefix("I/O error: ", e.to_string().as_str()),
            CrabScoreError::JsonError(e) => with_prefix("JSON error: ", e.to_string().as_str()),
            CrabScoreError::EnvironmentError(m) => with_prefix(
                "Failed to detect environment: ",
                m.as_str(),
            ),
            CrabScoreError::UnsupportedError(m) => with_prefix("Unsupported: ", m.as_str()),
            CrabScoreError::CommandError { command, status, stderr } => String::from_str(
                "Command '",
            ).concat(command.as_str()).concat("' failed with status ").concat(
                status_as_text(*status).as_str(),
            ).concat(": ").concat(stderr.as_str()),
            CrabScoreError::ValidationError(m) => with_prefix("Invalid input: ", m.as_str()),
        }
    }
}

} // verus!
