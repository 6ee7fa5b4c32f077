use crabscore::complexity::{
    analyze_project_complexity, dependencies_of, dependency_count, ProjectComplexity, SourceFile,
};
use crabscore::decimal::Decimal;

fn file(text: &str) -> SourceFile {
    SourceFile { content: Some(text.to_string()) }
}

fn unreadable() -> SourceFile {
    SourceFile { content: None }
}

const MANIFEST: &str = "[package]\nname = \"demo\"\nversion = \"0.1.0\"\n\n[dependencies]\nserde = \"1\"\nlog = { version = \"0.4\" }\n\n[dev-dependencies]\nrand = \"0.8\"\n";

#[test]
fn dependencies_are_counted_from_the_manifest() {
    assert_eq!(dependency_count(Some(MANIFEST)), 2);
    assert_eq!(dependency_count(Some("[dependencies]\n")), 0);
    assert_eq!(dependency_count(Some("[dependencies]\na = \"1\"\nb = \"1\"\nc = \"1\"\n")), 3);
}

#[test]
fn missing_or_broken_manifest_counts_no_dependency() {
    assert_eq!(dependency_count(None), 0);
    assert_eq!(dependency_count(Some("")), 0);
    assert_eq!(dependency_count(Some("[package]\nname = \"x\"\n")), 0);
    assert_eq!(dependency_count(Some("this is [not toml")), 0);
    assert_eq!(dependency_count(Some("dependencies = 3\n")), 0);
}

#[test]
fn counters_are_summed_over_the_files() {
    let files = vec![
        file("/// doc\nfn a() {}\nmod x;\n"),
        file("#[test]\nfn t() {}\n"),
        unreadable(),
        file(""),
    ];
    let c = analyze_project_complexity(Some(MANIFEST), &files, None);
    assert_eq!(
        c,
        ProjectComplexity {
            file_count: 3,
            total_lines: 5,
            function_count: 2,
            module_count: 1,
            test_count: 1,
            doc_lines: 1,
            dependency_count: 2,
        }
    );
}

#[test]
fn order_of_files_does_not_change_the_counters() {
    let a = vec![file("fn a() {}\n/// d\n"), file("mod m;\n#[test]\n"), unreadable()];
    let b = vec![unreadable(), file("mod m;\n#[test]\n"), file("fn a() {}\n/// d\n")];
    assert_eq!(
        analyze_project_complexity(None, &a, None),
        analyze_project_complexity(None, &b, None)
    );
}

#[test]
fn project_without_files_is_all_zero() {
    let c = analyze_project_complexity(None, &Vec::new(), None);
    assert_eq!(c, ProjectComplexity::default());
    assert_eq!(c.file_count, 0);
}

#[test]
fn single_file_project_counts_lines_functions_and_docs_only() {
    let root = file("/// doc\nfn a() {}\nmod x;\n#[test]\nfn t() {}\n");
    let c = analyze_project_complexity(None, &Vec::new(), Some(&root));
    assert_eq!(
        c,
        ProjectComplexity {
            file_count: 1,
            total_lines: 5,
            function_count: 2,
            module_count: 0,
            test_count: 0,
            doc_lines: 1,
            dependency_count: 0,
        }
    );
}

#[test]
fn single_file_that_cannot_be_read_is_one_empty_file() {
    let c = analyze_project_complexity(None, &Vec::new(), Some(&unreadable()));
    assert_eq!(c.file_count, 1);
    assert_eq!(c.total_lines, 0);
}

#[test]
fn root_file_is_not_looked_at_when_files_were_found() {
    let root = file("fn only_in_root() {}\n");
    let files = vec![file("mod a;\n")];
    let c = analyze_project_complexity(None, &files, Some(&root));
    assert_eq!(c.file_count, 1);
    assert_eq!(c.function_count, 0);
    assert_eq!(c.module_count, 1);
}

#[test]
fn coverage_ratios_round_down_and_are_zero_without_a_base() {
    let mut c = ProjectComplexity::default();
    assert_eq!(c.doc_coverage(), Decimal::zero());
    assert_eq!(c.test_coverage(), Decimal::zero());
    c.total_lines = 50;
    c.doc_lines = 1;
    c.function_count = 3;
    c.test_count = 2;
    assert_eq!(c.doc_coverage(), Decimal::from_nanos(20_000_000));
    assert_eq!(c.test_coverage(), Decimal::from_nanos(666_666_666));
}

#[test]
fn complexity_factor_is_a_thousandth_of_the_lines_up_to_ten() {
    let mut c = ProjectComplexity::default();
    assert_eq!(c.complexity_factor(), Decimal::zero());
    c.total_lines = 50;
    assert_eq!(c.complexity_factor(), Decimal::from_nanos(50_000_000));
    c.total_lines = 9_999;
    assert_eq!(c.complexity_factor(), Decimal::from_nanos(9_999_000_000));
    c.total_lines = 10_000;
    assert_eq!(c.complexity_factor(), Decimal::from_units(10));
    c.total_lines = usize::MAX;
    assert_eq!(c.complexity_factor(), Decimal::from_units(10));
}

#[test]
fn files_that_cannot_be_read_change_no_counter() {
    let readable = vec![file("/// doc\nfn a() {}\nmod x;\n"), file("#[test]\nfn t() {}\n")];
    let mixed = vec![
        unreadable(),
        file("/// doc\nfn a() {}\nmod x;\n"),
        unreadable(),
        file("#[test]\nfn t() {}\n"),
        unreadable(),
    ];
    let wanted = analyze_project_complexity(Some(MANIFEST), &readable, None);
    assert_eq!(wanted.file_count, 2);
    assert_eq!(analyze_project_complexity(Some(MANIFEST), &mixed, None), wanted);
    let none = analyze_project_complexity(None, &vec![unreadable(), unreadable()], None);
    assert_eq!(none, ProjectComplexity::default());
}

#[test]
fn root_file_stands_in_when_no_file_could_be_read() {
    let root = file("fn only() {}\n");
    let with = analyze_project_complexity(None, &vec![unreadable()], Some(&root));
    let without = analyze_project_complexity(None, &Vec::new(), Some(&root));
    assert_eq!(with, without);
    assert_eq!(with.file_count, 1);
    assert_eq!(with.function_count, 1);
}

#[test]
fn dependencies_are_counted_in_a_parsed_manifest() {
    let doc: toml::Value = MANIFEST.parse().unwrap();
    assert_eq!(dependencies_of(&doc), 2);
    let doc: toml::Value = "[dev-dependencies]\na = \"1\"\n".parse().unwrap();
    assert_eq!(dependencies_of(&doc), 0);
    let doc: toml::Value = "dependencies = [1, 2, 3]\n".parse().unwrap();
    assert_eq!(dependencies_of(&doc), 0);
}
