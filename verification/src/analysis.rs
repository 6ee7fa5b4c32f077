//! Code analysis: the analyzer's handle and its results.

use vstd::prelude::*;
use vstd::string::StringExecFns;
use crate::decimal::Decimal;
use crate::metrics::SafetyMetrics;
use crate::safety::{analyse_project, analysed, ParsedFile};

verus! {

/// Errors of code analysis.
#[derive(Debug)]
pub enum AnalysisError {
    /// A file could not be read.
    IoError(String),
    /// A file is no well-formed source text.
    SyntaxError(String),
    /// Anything else.
    Other(String),
}

/// The text of an analysis error: what went wrong, and the detail.
pub open spec fn analysis_text(e: AnalysisError) -> Seq<char> {
    match e {
        AnalysisError::IoError(detail) => "I/O error: "@ + detail@,
        AnalysisError::SyntaxError(detail) => "Syntax error: "@ + detail@,
        AnalysisError::Other(detail) => "Analysis error: "@ + detail@,
    }
}

impl AnalysisError {
    /// The text of the error.
    pub fn message(&self) -> (text: String)
        ensures
            text@ == analysis_text(*self),
    {
        match self {
            AnalysisError::IoError(detail) => String::from_str("I/O error: ").concat(
                detail.as_str(),
            ),
            AnalysisError::SyntaxError(detail) => String::from_str("Syntax error: ").concat(
                detail.as_str(),
            ),
            AnalysisError::Other(detail) => String::from_str("Analysis error: ").concat(
                detail.as_str(),
            ),
        }
    }
}

/// Figures extracted from a code base.
#[derive(Clone, Copy, Debug, PartialEq, Eq, Structural)]
pub struct CodeMetrics {
    /// Number of lines of code.
    pub lines_of_code: usize,
    /// Number of unsafe blocks.
    pub unsafe_blocks: usize,
    /// Number of functions.
    pub functions: usize,
    /// Number of tests.
    pub tests: usize,
    /// Code coverage in percent, between 0 and 100.
    pub coverage: Decimal,
    /// Number of dependencies.
    pub dependencies: usize,
    /// Number of documentation comments.
    pub doc_comments: usize,
}

impl CodeMetrics {
    /// Every figure is zero.
    pub open spec fn is_default(&self) -> bool {
        &&& self.lines_of_code == 0
        &&& self.unsafe_blocks == 0
        &&& self.functions == 0
        &&& self.tests == 0
        &&& self.coverage@ == 0
        &&& self.dependencies == 0
        &&& self.doc_comments == 0
    }
}

impl Default for CodeMetrics {
    fn default() -> (m: Self)
        ensures
            m.is_default(),
    {
        CodeMetrics {
            lines_of_code: 0,
            unsafe_blocks: 0,
            functions: 0,
            tests: 0,
            coverage: Decimal::zero(),
            dependencies: 0,
            doc_comments: 0,
        }
    }
}

/// Analyses the code of one project.
pub struct CodeAnalyzer {
    root_path: String,
}

impl CodeAnalyzer {
    /// The root of the project, as a sequence of characters.
    pub closed spec fn root(&self) -> Seq<char> {
        self.root_path@
    }

    /// An analyzer for the project rooted at `path`.
    pub fn new(path: &str) -> (a: Self)
        ensures
            a.root() == path@,
    {
        CodeAnalyzer { root_path: path.to_owned() }
    }

    /// The root of the project.
    pub fn root_path(&self) -> (p: &str)
        ensures
            p@ == self.root(),
    {
        self.root_path.as_str()
    }

    /// The figures of the code base. No figure is extracted yet: all are
    /// zero.
    pub fn analyze(&self) -> (r: Result<CodeMetrics, AnalysisError>)
        ensures
            r is Ok,
            r.unwrap().is_default(),
    {
        Ok(CodeMetrics::default())
    }
}

/// The full static analysis of a project, from the outcome of parsing each
/// of its source files.
pub fn run(files: &Vec<ParsedFile>) -> (r: Result<SafetyMetrics, AnalysisError>)
    ensures
        analysed(files@, r),
{
    analyse_project(files)
}

} // verus!
