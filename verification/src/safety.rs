//! Safety signals from the syntax trees of a project's source files.
//!
//! Parsing is the caller's work: each source file is handed in as an
//! abstract syntax tree that keeps only what the analysis reads, the kinds
//! of the nodes that matter and how they nest. Two read-only walks go over
//! each tree: one counts the unsafe regions, one counts the decision points
//! of each top-level function.

use vstd::prelude::*;
use crate::decimal::{ratio_nanos, Decimal, UNIT};
use crate::analysis::AnalysisError;
use crate::metrics::SafetyMetrics;

verus! {

/// The kinds of syntax node that the analysis tells apart.
#[derive(Clone, Copy, Debug, PartialEq, Eq, Structural)]
pub enum NodeKind {
    /// An unsafe block or expression.
    Unsafe,
    /// A conditional branch.
    If,
    /// A pattern-match expression.
    Match,
    /// A `for` loop.
    ForLoop,
    /// A `while` loop.
    While,
    /// Anything else.
    Other,
}

/// A node of an abstract syntax tree, with the nodes nested in it.
#[derive(Debug)]
pub struct SyntaxNode {
    /// What the node is.
    pub kind: NodeKind,
    /// The nodes directly inside it, in source order.
    pub children: Vec<SyntaxNode>,
}

/// What a walk counts.
#[derive(Clone, Copy, Debug, PartialEq, Eq, Structural)]
pub enum Walk {
    /// Unsafe regions.
    UnsafeRegions,
    /// Decision points: conditional branches, pattern matches, `for` and
    /// `while` loops.
    Decisions,
}

/// A node of kind `kind` counts in the walk `walk`.
pub open spec fn counts_in(walk: Walk, kind: NodeKind) -> bool {
    match walk {
        Walk::UnsafeRegions => kind == NodeKind::Unsafe,
        Walk::Decisions => kind == NodeKind::If || kind == NodeKind::Match || kind
            == NodeKind::ForLoop || kind == NodeKind::While,
    }
}

/// The number of nodes in the tree under `node`, itself included, that
/// count in `walk`. Nested nodes count each on its own.
pub open spec fn occurrences(walk: Walk, node: SyntaxNode) -> nat
    decreases node, 0nat,
{
    (if counts_in(walk, node.kind) {
        1nat
    } else {
        0nat
    }) + occurrences_among(walk, node.children@, node.children@.len())
}

/// The number of nodes that count in `walk` in the trees under the first
/// `n` of `nodes`.
pub open spec fn occurrences_among(walk: Walk, nodes: Seq<SyntaxNode>, n: nat) -> nat
    decreases nodes, n,
{
    if n == 0 || n > nodes.len() {
        0
    } else {
        occurrences_among(walk, nodes, (n - 1) as nat) + occurrences(walk, nodes[n - 1])
    }
}

/// `n`, held at the largest 64-bit count.
pub open spec fn capped(n: nat) -> u64 {
    if n > u64::MAX {
        u64::MAX
    } else {
        n as u64
    }
}

fn add_capped(a: u64, b: u64) -> (r: u64)
    ensures
        r == capped((a + b) as nat),
{
    if a > u64::MAX - b {
        u64::MAX
    } else {
        a + b
    }
}

/// Counts the nodes in the tree under `node` that count in `walk`.
pub fn count_nodes(walk: Walk, node: &SyntaxNode) -> (r: u64)
    ensures
        r == capped(occurrences(walk, *node)),
    decreases node,
{
    let own: bool = match walk {
        Walk::UnsafeRegions => matches!(node.kind, NodeKind::Unsafe),
        Walk::Decisions => matches!(
            node.kind,
            NodeKind::If | NodeKind::Match | NodeKind::ForLoop | NodeKind::While
        ),
    };
    let mut total: u64 = if own {
        1
    } else {
        0
    };
    let mut i: usize = 0;
    while i < node.children.len()
        invariant
            i <= node.children.len(),
            total == capped(
                (if counts_in(walk, node.kind) {
                    1nat
                } else {
                    0nat
                }) + occurrences_among(walk, node.children@, i as nat),
            ),
        decreases node.children.len() - i,
    {
        let inner = count_nodes(walk, &node.children[i]);
        total = add_capped(total, inner);
        i = i + 1;
    }
    total
}

/// A top-level item of a source file.
#[derive(Debug)]
pub enum Item {
    /// A function, with the tree of its body.
    Function {
        /// The body of the function.
        body: SyntaxNode,
    },
    /// Any other item, with its tree.
    Other(SyntaxNode),
}

/// The syntax tree of one source file: its top-level items, in source order.
#[derive(Debug)]
pub struct SourceTree {
    /// The top-level items.
    pub items: Vec<Item>,
}

/// What reading and parsing one source file gave.
#[derive(Debug)]
pub enum ParsedFile {
    /// The syntax tree of the file.
    Parsed(SourceTree),
    /// The file could not be read; the text says why.
    Unreadable(String),
    /// The file is no well-formed source text; the text says why.
    Malformed(String),
}

/// What is summed over the items of a project.
#[derive(Clone, Copy, Debug, PartialEq, Eq, Structural)]
pub enum Measure {
    /// The unsafe regions, anywhere in an item.
    UnsafeRegions,
    /// The cyclomatic complexity of the top-level functions: the decision
    /// points in a function's body, and one.
    Complexity,
    /// The top-level functions.
    Functions,
}

/// The measure `m` of one item.
pub open spec fn item_measure(m: Measure, item: Item) -> nat {
    match item {
        Item::Function { body } => match m {
            Measure::UnsafeRegions => occurrences(Walk::UnsafeRegions, body),
            Measure::Complexity => occurrences(Walk::Decisions, body) + 1,
            Measure::Functions => 1,
        },
        Item::Other(node) => match m {
            Measure::UnsafeRegions => occurrences(Walk::UnsafeRegions, node),
            Measure::Complexity => 0,
            Measure::Functions => 0,
        },
    }
}

/// The measure `m` summed over the first `n` of `items`.
pub open spec fn items_measure(m: Measure, items: Seq<Item>, n: nat) -> nat
    decreases n,
{
    if n == 0 || n > items.len() {
        0
    } else {
        items_measure(m, items, (n - 1) as nat) + item_measure(m, items[n - 1])
    }
}

/// The measure `m` of one file: that of its items, and zero for a file
/// without a tree.
pub open spec fn file_measure(m: Measure, file: ParsedFile) -> nat {
    match file {
        ParsedFile::Parsed(tree) => items_measure(m, tree.items@, tree.items@.len()),
        _ => 0,
    }
}

/// The measure `m` summed over the first `n` of `files`.
pub open spec fn files_measure(m: Measure, files: Seq<ParsedFile>, n: nat) -> nat
    decreases n,
{
    if n == 0 || n > files.len() {
        0
    } else {
        files_measure(m, files, (n - 1) as nat) + file_measure(m, files[n - 1])
    }
}

/// The index of the first of `files[..n]` that has no tree, or `n` where
/// all of them have one.
pub open spec fn first_failed(files: Seq<ParsedFile>, n: int) -> int
    decreases n,
{
    if n <= 0 {
        0
    } else {
        let before = first_failed(files, n - 1);
        if before < n - 1 {
            before
        } else if files[n - 1] is Parsed {
            n
        } else {
            n - 1
        }
    }
}

/// `first_failed` is the least index of a file without a tree.
pub proof fn lemma_first_failed(files: Seq<ParsedFile>, n: int)
    requires
        0 <= n <= files.len(),
    ensures
        0 <= first_failed(files, n) <= n,
        first_failed(files, n) < n ==> !(files[first_failed(files, n)] is Parsed),
        forall|j: int| 0 <= j < first_failed(files, n) ==> #[trigger] files[j] is Parsed,
    decreases n,
{
    if n > 0 {
        lemma_first_failed(files, n - 1);
    }
}

/// The average cyclomatic complexity, in billionths, of `functions`
/// functions whose complexities sum to `complexity`: the quotient, rounded
/// down, and one where there is no function. Both counts are held at the
/// largest 64-bit count.
pub open spec fn average_complexity(complexity: nat, functions: nat) -> nat {
    if functions == 0 {
        UNIT as nat
    } else {
        ratio_nanos(capped(complexity) as nat, capped(functions) as nat)
    }
}

/// `m` holds the safety signals of `files`: the unsafe regions of all
/// trees, held at the largest 32-bit count; no lint warning; and the
/// average cyclomatic complexity of the top-level functions.
pub open spec fn signals_of(files: Seq<ParsedFile>, m: SafetyMetrics) -> bool {
    let n = files.len();
    let regions = files_measure(Measure::UnsafeRegions, files, n);
    &&& m.unsafe_blocks == if regions > u32::MAX {
        u32::MAX as nat
    } else {
        regions
    }
    &&& m.clippy_warnings == 0
    &&& m.avg_cyclomatic@ == average_complexity(
        files_measure(Measure::Complexity, files, n),
        files_measure(Measure::Functions, files, n),
    )
}

/// `r` is the outcome of analysing `files`: the safety signals where every
/// file has a tree, and else the failure of the first file that has none,
/// with its text.
pub open spec fn analysed(files: Seq<ParsedFile>, r: Result<SafetyMetrics, AnalysisError>) -> bool {
    let failed = first_failed(files, files.len() as int);
    match r {
        Ok(m) => failed == files.len() && signals_of(files, m),
        Err(e) => {
            &&& failed < files.len()
            &&& match files[failed] {
                ParsedFile::Parsed(_) => false,
                ParsedFile::Unreadable(why) => e matches AnalysisError::IoError(msg) && msg@
                    == why@,
                ParsedFile::Malformed(why) => e matches AnalysisError::SyntaxError(msg) && msg@
                    == why@,
            }
        },
    }
}

fn measure_item(m: Measure, item: &Item) -> (r: u64)
    ensures
        r == capped(item_measure(m, *item)),
{
    match item {
        Item::Function { body } => match m {
            Measure::UnsafeRegions => count_nodes(Walk::UnsafeRegions, body),
            Measure::Complexity => add_capped(count_nodes(Walk::Decisions, body), 1),
            Measure::Functions => 1,
        },
        Item::Other(node) => match m {
            Measure::UnsafeRegions => count_nodes(Walk::UnsafeRegions, node),
            Measure::Complexity => 0,
            Measure::Functions => 0,
        },
    }
}

/// The measure `m` of one syntax tree.
pub fn measure_tree(m: Measure, tree: &SourceTree) -> (r: u64)
    ensures
        r == capped(items_measure(m, tree.items@, tree.items@.len())),
{
    let mut total: u64 = 0;
    let mut i: usize = 0;
    while i < tree.items.len()
        invariant
            i <= tree.items.len(),
            total == capped(items_measure(m, tree.items@, i as nat)),
        decreases tree.items.len() - i,
    {
        total = add_capped(total, measure_item(m, &tree.items[i]));
        i = i + 1;
    }
    total
}

/// The safety signals of a project, from the outcome of parsing each of its
/// source files. A file that could not be read or parsed fails the whole
/// analysis, with the error of the first such file; the counts of a tree
/// that is malformed would mean nothing.
pub fn analyse_project(files: &Vec<ParsedFile>) -> (r: Result<SafetyMetrics, AnalysisError>)
    ensures
        analysed(files@, r),
{
    let mut regions: u64 = 0;
    let mut complexity: u64 = 0;
    let mut functions: u64 = 0;
    let mut i: usize = 0;
    while i < files.len()
        invariant
            i <= files.len(),
            first_failed(files@, i as int) == i,
            regions == capped(files_measure(Measure::UnsafeRegions, files@, i as nat)),
            complexity == capped(files_measure(Measure::Complexity, files@, i as nat)),
            functions == capped(files_measure(Measure::Functions, files@, i as nat)),
        decreases files.len() - i,
    {
        match &files[i] {
            ParsedFile::Parsed(tree) => {
                regions = add_capped(regions, measure_tree(Measure::UnsafeRegions, tree));
                complexity = add_capped(complexity, measure_tree(Measure::Complexity, tree));
                functions = add_capped(functions, measure_tree(Measure::Functions, tree));
            },
            ParsedFile::Unreadable(why) => {
                proof {
                    lemma_failed_at(files@, i as int);
                }
                return Err(AnalysisError::IoError(why.clone()));
            },
            ParsedFile::Malformed(why) => {
                proof {
                    lemma_failed_at(files@, i as int);
                }
                return Err(AnalysisError::SyntaxError(why.clone()));
            },
        }
        i = i + 1;
    }
    let avg = if functions == 0 {
        Decimal::from_units(1)
    } else {
        Decimal::ratio(complexity, functions)
    };
    Ok(
        SafetyMetrics {
            unsafe_blocks: if regions > 0xffff_ffff {
                0xffff_ffff
            } else {
                regions as u32
            },
            clippy_warnings: 0,
            avg_cyclomatic: avg,
        },
    )
}

proof fn lemma_failed_at(files: Seq<ParsedFile>, i: int)
    requires
        0 <= i < files.len(),
        first_failed(files, i) == i,
        !(files[i] is Parsed),
    ensures
        first_failed(files, files.len() as int) == i,
{
    lemma_first_failed(files, files.len() as int);
    lemma_first_failed(files, i);
    let k = first_failed(files, files.len() as int);
    if k < i {
        assert(files[k] is Parsed);
    }
    if k > i {
        assert(files[i] is Parsed);
    }
}

} // verus!
