use crabscore::analysis::{run, AnalysisError, CodeAnalyzer, CodeMetrics};
use crabscore::decimal::Decimal;
use crabscore::metrics::SafetyMetrics;
use crabscore::safety::{
    analyse_project, count_nodes, measure_tree, Item, Measure, NodeKind, ParsedFile, SourceTree,
    SyntaxNode, Walk,
};

fn node(kind: NodeKind, children: Vec<SyntaxNode>) -> SyntaxNode {
    SyntaxNode { kind, children }
}

fn leaf(kind: NodeKind) -> SyntaxNode {
    node(kind, Vec::new())
}

fn block(children: Vec<SyntaxNode>) -> SyntaxNode {
    node(NodeKind::Other, children)
}

fn function(children: Vec<SyntaxNode>) -> Item {
    Item::Function { body: block(children) }
}

fn parsed(items: Vec<Item>) -> ParsedFile {
    ParsedFile::Parsed(SourceTree { items })
}

#[test]
fn nested_unsafe_regions_count_each_on_its_own() {
    let tree = node(
        NodeKind::Unsafe,
        vec![
            block(vec![leaf(NodeKind::Unsafe), leaf(NodeKind::If)]),
            node(NodeKind::Unsafe, vec![leaf(NodeKind::Unsafe)]),
        ],
    );
    assert_eq!(count_nodes(Walk::UnsafeRegions, &tree), 4);
    assert_eq!(count_nodes(Walk::Decisions, &tree), 1);
    assert_eq!(count_nodes(Walk::UnsafeRegions, &leaf(NodeKind::Other)), 0);
}

#[test]
fn decision_points_are_branches_matches_and_loops() {
    let tree = block(vec![
        node(NodeKind::If, vec![leaf(NodeKind::Match), node(NodeKind::While, vec![leaf(NodeKind::If)])]),
        leaf(NodeKind::ForLoop),
        leaf(NodeKind::Unsafe),
        leaf(NodeKind::Other),
    ]);
    assert_eq!(count_nodes(Walk::Decisions, &tree), 5);
    assert_eq!(count_nodes(Walk::UnsafeRegions, &tree), 1);
}

#[test]
fn deep_tree_is_counted_to_the_bottom() {
    let mut tree = leaf(NodeKind::If);
    for _ in 0..200 {
        tree = node(NodeKind::If, vec![tree]);
    }
    assert_eq!(count_nodes(Walk::Decisions, &tree), 201);
}

#[test]
fn tree_measures_sum_over_the_items() {
    let tree = SourceTree {
        items: vec![
            function(vec![leaf(NodeKind::If), leaf(NodeKind::Unsafe)]),
            Item::Other(block(vec![leaf(NodeKind::Unsafe), leaf(NodeKind::Match)])),
            function(Vec::new()),
        ],
    };
    assert_eq!(measure_tree(Measure::UnsafeRegions, &tree), 2);
    assert_eq!(measure_tree(Measure::Complexity, &tree), 3);
    assert_eq!(measure_tree(Measure::Functions, &tree), 2);
}

#[test]
fn project_without_functions_has_average_complexity_one() {
    let m = analyse_project(&Vec::new()).unwrap();
    assert_eq!(m, SafetyMetrics::default());
    let m = analyse_project(&vec![parsed(vec![Item::Other(leaf(NodeKind::If))])]).unwrap();
    assert_eq!(m.avg_cyclomatic, Decimal::from_units(1));
    assert_eq!(m.unsafe_blocks, 0);
    assert_eq!(m.clippy_warnings, 0);
}

#[test]
fn average_complexity_is_taken_over_all_files() {
    let files = vec![
        parsed(vec![
            function(vec![leaf(NodeKind::If), leaf(NodeKind::ForLoop)]), // 3
            function(Vec::new()),                                           // 1
        ]),
        parsed(vec![
            function(vec![node(NodeKind::Match, vec![leaf(NodeKind::While)])]), // 3
            Item::Other(node(NodeKind::Unsafe, vec![leaf(NodeKind::Unsafe)])),
        ]),
        parsed(Vec::new()),
    ];
    let m = analyse_project(&files).unwrap();
    assert_eq!(m.unsafe_blocks, 2);
    assert_eq!(m.clippy_warnings, 0);
    // 7 / 3, rounded down to a billionth
    assert_eq!(m.avg_cyclomatic, Decimal::from_nanos(2_333_333_333));
}

#[test]
fn unsafe_regions_inside_functions_are_counted() {
    let files = vec![parsed(vec![function(vec![node(
        NodeKind::If,
        vec![leaf(NodeKind::Unsafe)],
    )])])];
    let m = analyse_project(&files).unwrap();
    assert_eq!(m.unsafe_blocks, 1);
    assert_eq!(m.avg_cyclomatic, Decimal::from_units(2));
}

#[test]
fn malformed_file_fails_the_whole_analysis() {
    let files = vec![
        parsed(vec![function(Vec::new())]),
        ParsedFile::Malformed("expected `;`".to_string()),
        ParsedFile::Unreadable("permission denied".to_string()),
    ];
    match analyse_project(&files) {
        Err(AnalysisError::SyntaxError(msg)) => assert_eq!(msg, "expected `;`"),
        other => panic!("{:?}", other),
    }
}

#[test]
fn unreadable_file_fails_the_whole_analysis() {
    let files = vec![
        ParsedFile::Unreadable("permission denied".to_string()),
        ParsedFile::Malformed("expected `;`".to_string()),
        parsed(Vec::new()),
    ];
    match analyse_project(&files) {
        Err(AnalysisError::IoError(msg)) => assert_eq!(msg, "permission denied"),
        other => panic!("{:?}", other),
    }
}

#[test]
fn run_is_the_project_analysis() {
    let files = vec![parsed(vec![function(vec![leaf(NodeKind::If)])])];
    assert_eq!(run(&files).unwrap(), analyse_project(&files).unwrap());
    assert!(run(&vec![ParsedFile::Malformed(String::new())]).is_err());
}

#[test]
fn code_analyzer_keeps_its_root_and_reports_defaults() {
    let a = CodeAnalyzer::new("some/project");
    assert_eq!(a.root_path(), "some/project");
    assert_eq!(a.analyze().unwrap(), CodeMetrics::default());
    assert_eq!(CodeMetrics::default().lines_of_code, 0);
    assert_eq!(CodeMetrics::default().coverage, Decimal::zero());
}
