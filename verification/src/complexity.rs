//! Size, documentation, test and dependency counters of a project.
//!
//! The counters come from a line-by-line reading of the source files. The
//! reading is a heuristic, not a parse: a line is judged by the keywords and
//! markers that stand in it, and one line may count for several counters.

use vstd::prelude::*;
use crate::decimal::{ratio_nanos, Decimal, UNIT};
use crate::text::{
    chars_of, contains, has_infix, has_prefix, lines_of, split_lines, starts_with, trim, trimmed,
    views,
};

verus! {

/// What a source line can be counted as.
#[derive(Clone, Copy, Debug, PartialEq, Eq, Structural)]
pub enum Mark {
    /// A documentation comment.
    Doc,
    /// A function definition.
    Function,
    /// A module declaration.
    Module,
    /// A test marker.
    Test,
}

/// The marker of an outer documentation comment.
pub open spec fn outer_doc() -> Seq<char> {
    seq!['/', '/', '/']
}

/// The marker of an inner documentation comment.
pub open spec fn inner_doc() -> Seq<char> {
    seq!['/', '/', '!']
}

/// The keyword that declares a function, with the space after it.
pub open spec fn fn_keyword() -> Seq<char> {
    seq!['f', 'n', ' ']
}

/// The keyword that declares a module, with the space after it.
pub open spec fn mod_keyword() -> Seq<char> {
    seq!['m', 'o', 'd', ' ']
}

/// The attribute that marks a test function.
pub open spec fn test_attribute() -> Seq<char> {
    seq!['#', '[', 't', 'e', 's', 't', ']']
}

/// The attribute that marks code compiled for tests only.
pub open spec fn test_config() -> Seq<char> {
    seq!['#', '[', 'c', 'f', 'g', '(', 't', 'e', 's', 't', ')', ']']
}

/// The line counts as `mark`. With the white space at both ends taken off,
/// a documentation line begins with a documentation marker, a function line
/// holds the function keyword, a module line begins with the module keyword,
/// and a test line holds one of the two test attributes.
pub open spec fn line_has(mark: Mark, line: Seq<char>) -> bool {
    let t = trimmed(line);
    match mark {
        Mark::Doc => has_prefix(t, outer_doc()) || has_prefix(t, inner_doc()),
        Mark::Function => has_infix(t, fn_keyword()),
        Mark::Module => has_prefix(t, mod_keyword()),
        Mark::Test => has_infix(t, test_attribute()) || has_infix(t, test_config()),
    }
}

/// How many of `lines` count as `mark`.
pub open spec fn marked_lines(lines: Seq<Seq<char>>, mark: Mark) -> nat
    decreases lines.len(),
{
    if lines.len() == 0 {
        0
    } else {
        marked_lines(lines.drop_last(), mark) + if line_has(mark, lines.last()) {
            1nat
        } else {
            0nat
        }
    }
}

/// No more lines are marked than there are lines.
pub proof fn lemma_marked_lines_bound(lines: Seq<Seq<char>>, mark: Mark)
    ensures
        marked_lines(lines, mark) <= lines.len(),
    decreases lines.len(),
{
    if lines.len() > 0 {
        lemma_marked_lines_bound(lines.drop_last(), mark);
    }
}

/// What one line counts as.
#[derive(Clone, Copy, Debug, PartialEq, Eq, Structural)]
pub struct LineMarks {
    /// It is a documentation comment.
    pub doc: bool,
    /// It holds a function definition.
    pub function: bool,
    /// It is a module declaration.
    pub module: bool,
    /// It holds a test marker.
    pub test: bool,
}

/// Judges one line.
pub fn classify_line(line: &Vec<char>) -> (m: LineMarks)
    ensures
        m.doc == line_has(Mark::Doc, line@),
        m.function == line_has(Mark::Function, line@),
        m.module == line_has(Mark::Module, line@),
        m.test == line_has(Mark::Test, line@),
{
    let t = trim(line);
    let outer: Vec<char> = vec!['/', '/', '/'];
    let inner: Vec<char> = vec!['/', '/', '!'];
    let function: Vec<char> = vec!['f', 'n', ' '];
    let module: Vec<char> = vec!['m', 'o', 'd', ' '];
    let test: Vec<char> = vec!['#', '[', 't', 'e', 's', 't', ']'];
    let config: Vec<char> = vec!['#', '[', 'c', 'f', 'g', '(', 't', 'e', 's', 't', ')', ']'];
    assert(outer@ =~= outer_doc());
    assert(inner@ =~= inner_doc());
    assert(function@ =~= fn_keyword());
    assert(module@ =~= mod_keyword());
    assert(test@ =~= test_attribute());
    assert(config@ =~= test_config());
    LineMarks {
        doc: starts_with(&t, &outer) || starts_with(&t, &inner),
        function: contains(&t, &function),
        module: starts_with(&t, &module),
        test: contains(&t, &test) || contains(&t, &config),
    }
}

/// The counters of one source text.
#[derive(Clone, Copy, Debug, PartialEq, Eq, Structural)]
pub struct SourceCounts {
    /// Number of lines.
    pub lines: usize,
    /// Number of documentation lines.
    pub doc_lines: usize,
    /// Number of lines with a function definition.
    pub functions: usize,
    /// Number of module declarations.
    pub modules: usize,
    /// Number of lines with a test marker.
    pub tests: usize,
}

/// `counts` holds the counters of the text `content`.
pub open spec fn counts_of(content: Seq<char>, counts: SourceCounts) -> bool {
    let lines = lines_of(content);
    &&& counts.lines == lines.len()
    &&& counts.doc_lines == marked_lines(lines, Mark::Doc)
    &&& counts.functions == marked_lines(lines, Mark::Function)
    &&& counts.modules == marked_lines(lines, Mark::Module)
    &&& counts.tests == marked_lines(lines, Mark::Test)
}

/// Counts the lines of a source text, and those among them that count as
/// documentation, function, module and test lines.
pub fn scan_source(content: &str) -> (counts: SourceCounts)
    ensures
        counts_of(content@, counts),
{
    let chars = chars_of(content);
    let lines = split_lines(&chars);
    let mut counts = SourceCounts { lines: 0, doc_lines: 0, functions: 0, modules: 0, tests: 0 };
    let mut i: usize = 0;
    while i < lines.len()
        invariant
            i <= lines.len(),
            views(lines@) == lines_of(content@),
            counts.lines == i,
            counts.doc_lines == marked_lines(views(lines@).take(i as int), Mark::Doc),
            counts.functions == marked_lines(views(lines@).take(i as int), Mark::Function),
            counts.modules == marked_lines(views(lines@).take(i as int), Mark::Module),
            counts.tests == marked_lines(views(lines@).take(i as int), Mark::Test),
        decreases lines.len() - i,
    {
        let m = classify_line(&lines[i]);
        proof {
            let ghost all = views(lines@);
            let ghost next = all.take(i + 1);
            assert(next.drop_last() =~= all.take(i as int));
            assert(next.last() == lines@[i as int]@);
            lemma_marked_lines_bound(next, Mark::Doc);
            lemma_marked_lines_bound(next, Mark::Function);
            lemma_marked_lines_bound(next, Mark::Module);
            lemma_marked_lines_bound(next, Mark::Test);
        }
        counts.lines = counts.lines + 1;
        if m.doc {
            counts.doc_lines = counts.doc_lines + 1;
        }
        if m.function {
            counts.functions = counts.functions + 1;
        }
        if m.module {
            counts.modules = counts.modules + 1;
        }
        if m.test {
            counts.tests = counts.tests + 1;
        }
        i = i + 1;
    }
    assert(views(lines@).take(i as int) =~= views(lines@));
    counts
}

/// The counters of a project.
#[derive(Clone, Copy, Debug, PartialEq, Eq, Structural)]
pub struct ProjectComplexity {
    /// Number of source files.
    pub file_count: usize,
    /// Total number of lines.
    pub total_lines: usize,
    /// Number of function definitions.
    pub function_count: usize,
    /// Number of module declarations.
    pub module_count: usize,
    /// Number of test markers.
    pub test_count: usize,
    /// Number of documentation lines.
    pub doc_lines: usize,
    /// Number of dependencies that the manifest declares.
    pub dependency_count: usize,
}

/// The complexity factor of a project of `total_lines` lines, in
/// billionths: a thousandth of the line count, and ten at most.
pub open spec fn complexity_factor_nanos(total_lines: nat) -> nat {
    if total_lines * 1_000_000 <= 10 * UNIT {
        total_lines * 1_000_000
    } else {
        (10 * UNIT) as nat
    }
}

impl ProjectComplexity {
    /// Every counter is zero.
    pub open spec fn is_default(&self) -> bool {
        &&& self.file_count == 0
        &&& self.total_lines == 0
        &&& self.function_count == 0
        &&& self.module_count == 0
        &&& self.test_count == 0
        &&& self.doc_lines == 0
        &&& self.dependency_count == 0
    }

    /// Documentation lines per line, rounded down to a billionth; zero for a
    /// project without lines.
    pub fn doc_coverage(&self) -> (d: Decimal)
        ensures
            d@ == ratio_nanos(self.doc_lines as nat, self.total_lines as nat),
    {
        Decimal::ratio(self.doc_lines as u64, self.total_lines as u64)
    }

    /// Test markers per function, rounded down to a billionth; zero for a
    /// project without functions.
    pub fn test_coverage(&self) -> (d: Decimal)
        ensures
            d@ == ratio_nanos(self.test_count as nat, self.function_count as nat),
    {
        Decimal::ratio(self.test_count as u64, self.function_count as u64)
    }

    /// A thousandth of the line count, and ten at most.
    pub fn complexity_factor(&self) -> (d: Decimal)
        ensures
            d@ == complexity_factor_nanos(self.total_lines as nat),
            d@ <= 10 * UNIT,
    {
        if self.total_lines >= 10_000 {
            Decimal::from_units(10)
        } else {
            Decimal::from_nanos((self.total_lines as u128) * 1_000_000)
        }
    }
}

impl Default for ProjectComplexity {
    fn default() -> (c: Self)
        ensures
            c.is_default(),
    {
        ProjectComplexity {
            file_count: 0,
            total_lines: 0,
            function_count: 0,
            module_count: 0,
            test_count: 0,
            doc_lines: 0,
            dependency_count: 0,
        }
    }
}

/// Declares `toml::Value`, a parsed TOML value. Nothing inside it is visible
/// here: it is read through the functions below.
#[verifier::external_type_specification]
#[verifier::external_body]
pub struct ExTomlValue(toml::Value);

/// The value that `str::parse` for a `toml::Value` reads from `text`; `None`
/// where it reports an error.
pub uninterp spec fn toml_document(text: Seq<char>) -> Option<toml::Value>;

/// The member that `toml::Value::get` finds in `value` under the string key
/// `key`.
pub uninterp spec fn toml_member(value: toml::Value, key: Seq<char>) -> Option<toml::Value>;

/// The number of entries of the table that `toml::Value::as_table` gives for
/// `value`; `None` where `value` is no table.
pub uninterp spec fn toml_table_len(value: toml::Value) -> Option<usize>;

/// Calls `str::parse` for a `toml::Value`, and drops the error. The contract
/// names the outcome `toml_document`: the same text always reads as the same
/// value, or always fails.
#[verifier::external_body]
fn parse_toml(text: &str) -> (r: Option<toml::Value>)
    ensures
        r == toml_document(text@),
{
    text.parse::<toml::Value>().ok()
}

/// Calls `toml::Value::get` with a string key. The contract names the
/// outcome `toml_member`.
#[verifier::external_body]
fn toml_get<'a>(value: &'a toml::Value, key: &str) -> (r: Option<&'a toml::Value>)
    ensures
        r is Some <==> toml_member(*value, key@) is Some,
        r is Some ==> *r.unwrap() == toml_member(*value, key@).unwrap(),
{
    value.get(key)
}

/// Calls `toml::Value::as_table` and, on the table, `len`. The contract
/// names the outcome `toml_table_len`.
#[verifier::external_body]
fn table_len(value: &toml::Value) -> (r: Option<usize>)
    ensures
        r == toml_table_len(*value),
{
    value.as_table().map(|table| table.len())
}

/// The number of dependencies that the manifest document `doc` declares:
/// the size of its `dependencies` table, and zero where it has no such
/// member or the member is no table.
pub open spec fn dependencies_in(doc: toml::Value) -> usize {
    match toml_member(doc, "dependencies"@) {
        None => 0,
        Some(table) => match toml_table_len(table) {
            None => 0,
            Some(n) => n,
        },
    }
}

/// The number of dependencies that a manifest with the text `text`
/// declares: zero where the text is no TOML document.
pub open spec fn manifest_dependencies(text: Seq<char>) -> usize {
    match toml_document(text) {
        None => 0,
        Some(doc) => dependencies_in(doc),
    }
}

/// The number of dependencies that a parsed manifest declares.
pub fn dependencies_of(doc: &toml::Value) -> (n: usize)
    ensures
        n == dependencies_in(*doc),
{
    match toml_get(doc, "dependencies") {
        None => 0,
        Some(table) => match table_len(table) {
            None => 0,
            Some(n) => n,
        },
    }
}

/// The number of dependencies that the manifest declares; zero where there
/// is no manifest, or it cannot be read as one with a dependency table.
pub fn dependency_count(manifest: Option<&str>) -> (n: usize)
    ensures
        n == match manifest {
            Some(text) => manifest_dependencies(text@),
            None => 0,
        },
{
    match manifest {
        Some(text) => match parse_toml(text) {
            Some(doc) => dependencies_of(&doc),
            None => 0,
        },
        None => 0,
    }
}

/// A source file that was found: its text, or `None` where it could not be
/// read. A file that could not be read is skipped: it changes no counter.
#[derive(Clone, Debug, PartialEq, Eq)]
pub struct SourceFile {
    /// The text of the file.
    pub content: Option<String>,
}

/// Which counter of a source text is meant.
#[derive(Clone, Copy, Debug, PartialEq, Eq, Structural)]
pub enum Counter {
    /// The files themselves.
    Files,
    /// The lines.
    Lines,
    /// The lines that count as a mark.
    Marked(Mark),
}

/// The counter `which` of one file: zero for a file that cannot be read.
pub open spec fn file_count_of(file: SourceFile, which: Counter) -> nat {
    match file.content {
        None => 0,
        Some(text) => match which {
            Counter::Files => 1,
            Counter::Lines => lines_of(text@).len(),
            Counter::Marked(mark) => marked_lines(lines_of(text@), mark),
        },
    }
}

/// The counter `which` summed over `files`.
pub open spec fn total_of(files: Seq<SourceFile>, which: Counter) -> nat
    decreases files.len(),
{
    if files.len() == 0 {
        0
    } else {
        total_of(files.drop_last(), which) + file_count_of(files.last(), which)
    }
}

/// `n`, held at the largest `usize`.
pub open spec fn capped(n: nat) -> usize {
    if n > usize::MAX {
        usize::MAX
    } else {
        n as usize
    }
}

/// The counters of a project whose root holds the source files `files`, in
/// any order, and whose root is itself the source file `root_file` if it is
/// one. Every counter, the file count too, is summed over the files that
/// could be read. Where none could be read and the root is a source file,
/// the project is that one file, and only its lines, functions and
/// documentation lines are counted. A sum beyond the largest `usize` is
/// held there.
pub open spec fn complexity_of(
    dependencies: usize,
    files: Seq<SourceFile>,
    root_file: Option<SourceFile>,
    c: ProjectComplexity,
) -> bool {
    if total_of(files, Counter::Files) == 0 && root_file is Some {
        let root = root_file.unwrap();
        &&& c.file_count == 1
        &&& c.total_lines == file_count_of(root, Counter::Lines)
        &&& c.function_count == file_count_of(root, Counter::Marked(Mark::Function))
        &&& c.module_count == 0
        &&& c.test_count == 0
        &&& c.doc_lines == file_count_of(root, Counter::Marked(Mark::Doc))
        &&& c.dependency_count == dependencies
    } else {
        &&& c.file_count == capped(total_of(files, Counter::Files))
        &&& c.total_lines == capped(total_of(files, Counter::Lines))
        &&& c.function_count == capped(total_of(files, Counter::Marked(Mark::Function)))
        &&& c.module_count == capped(total_of(files, Counter::Marked(Mark::Module)))
        &&& c.test_count == capped(total_of(files, Counter::Marked(Mark::Test)))
        &&& c.doc_lines == capped(total_of(files, Counter::Marked(Mark::Doc)))
        &&& c.dependency_count == dependencies
    }
}

fn add_capped(a: usize, b: usize) -> (r: usize)
    ensures
        r == capped((a + b) as nat),
{
    if a > usize::MAX - b {
        usize::MAX
    } else {
        a + b
    }
}

/// The counters of `files`, with the dependency count left at zero.
fn sum_files(files: &Vec<SourceFile>) -> (c: ProjectComplexity)
    ensures
        c.file_count == total_of(files@, Counter::Files),
        c.dependency_count == 0,
        c.total_lines == capped(total_of(files@, Counter::Lines)),
        c.function_count == capped(total_of(files@, Counter::Marked(Mark::Function))),
        c.module_count == capped(total_of(files@, Counter::Marked(Mark::Module))),
        c.test_count == capped(total_of(files@, Counter::Marked(Mark::Test))),
        c.doc_lines == capped(total_of(files@, Counter::Marked(Mark::Doc))),
{
    let mut c = ProjectComplexity::default();
    let mut i: usize = 0;
    while i < files.len()
        invariant
            i <= files.len(),
            c.file_count == total_of(files@.take(i as int), Counter::Files),
            c.file_count <= i,
            c.dependency_count == 0,
            c.total_lines == capped(total_of(files@.take(i as int), Counter::Lines)),
            c.function_count == capped(
                total_of(files@.take(i as int), Counter::Marked(Mark::Function)),
            ),
            c.module_count == capped(
                total_of(files@.take(i as int), Counter::Marked(Mark::Module)),
            ),
            c.test_count == capped(total_of(files@.take(i as int), Counter::Marked(Mark::Test))),
            c.doc_lines == capped(total_of(files@.take(i as int), Counter::Marked(Mark::Doc))),
        decreases files.len() - i,
    {
        proof {
            let ghost next = files@.take(i + 1);
            assert(next.drop_last() =~= files@.take(i as int));
            assert(next.last() == files@[i as int]);
        }
        match &files[i].content {
            None => {},
            Some(text) => {
                let counts = scan_source(text.as_str());
                c.file_count = c.file_count + 1;
                c.total_lines = add_capped(c.total_lines, counts.lines);
                c.function_count = add_capped(c.function_count, counts.functions);
                c.module_count = add_capped(c.module_count, counts.modules);
                c.test_count = add_capped(c.test_count, counts.tests);
                c.doc_lines = add_capped(c.doc_lines, counts.doc_lines);
            },
        }
        i = i + 1;
    }
    assert(files@.take(i as int) =~= files@);
    c
}

/// The counters of a project, from what was read of it: the text of its
/// manifest, if it has one that can be read; the source files found under
/// its root, in any order; and the root itself, if it is a source file.
pub fn analyze_project_complexity(
    manifest: Option<&str>,
    files: &Vec<SourceFile>,
    root_file: Option<&SourceFile>,
) -> (c: ProjectComplexity)
    ensures
        complexity_of(
            match manifest {
                Some(text) => manifest_dependencies(text@),
                None => 0,
            },
            files@,
            match root_file {
                Some(f) => Some(*f),
                None => None,
            },
            c,
        ),
{
    let dependencies = dependency_count(manifest);
    let sums = sum_files(files);
    if sums.file_count == 0 {
        match root_file {
            Some(root) => {
                let counts = match &root.content {
                    Some(text) => scan_source(text.as_str()),
                    None => SourceCounts {
                        lines: 0,
                        doc_lines: 0,
                        functions: 0,
                        modules: 0,
                        tests: 0,
                    },
                };
                return ProjectComplexity {
                    file_count: 1,
                    total_lines: counts.lines,
                    function_count: counts.functions,
                    module_count: 0,
                    test_count: 0,
                    doc_lines: counts.doc_lines,
                    dependency_count: dependencies,
                };
            },
            None => {},
        }
    }
    ProjectComplexity {
        file_count: sums.file_count,
        total_lines: sums.total_lines,
        function_count: sums.function_count,
        module_count: sums.module_count,
        test_count: sums.test_count,
        doc_lines: sums.doc_lines,
        dependency_count: dependencies,
    }
}

/// Taking one file out of a list takes its count out of the total.
pub proof fn lemma_total_without(files: Seq<SourceFile>, j: int, which: Counter)
    requires
        0 <= j < files.len(),
    ensures
        total_of(files, which) == total_of(files.remove(j), which) + file_count_of(
            files[j],
            which,
        ),
    decreases files.len(),
{
    if j == files.len() - 1 {
        assert(files.remove(j) =~= files.drop_last());
    } else {
        lemma_total_without(files.drop_last(), j, which);
        assert(files.remove(j).drop_last() =~= files.drop_last().remove(j));
        assert(files.remove(j).last() == files.last());
    }
}

/// The order in which the files of a project are found does not change its
/// totals: two lists that hold the same files, each as often, have the same
/// total of every counter.
pub proof fn lemma_total_ignores_order(a: Seq<SourceFile>, b: Seq<SourceFile>, which: Counter)
    requires
        a.to_multiset() == b.to_multiset(),
    ensures
        total_of(a, which) == total_of(b, which),
    decreases a.len(),
{
    broadcast use vstd::seq_lib::group_to_multiset_ensures;

    a.to_multiset_ensures();
    b.to_multiset_ensures();
    if a.len() == 0 {
        assert(b.len() == 0);
    } else {
        let x = a.last();
        assert(a.to_multiset().count(x) > 0) by {
            assert(a.contains(x));
        }
        assert(b.contains(x));
        let j = choose|j: int| 0 <= j < b.len() && b[j] == x;
        vstd::seq_lib::to_multiset_remove(a, a.len() - 1);
        vstd::seq_lib::to_multiset_remove(b, j);
        assert(a.remove(a.len() - 1) =~= a.drop_last());
        lemma_total_ignores_order(a.drop_last(), b.remove(j), which);
        lemma_total_without(b, j, which);
    }
}


/// A file that could not be read changes nothing: with it or without it, a
/// project has the same counters.
pub proof fn lemma_unreadable_file_is_skipped(
    dependencies: usize,
    files: Seq<SourceFile>,
    j: int,
    root_file: Option<SourceFile>,
    c: ProjectComplexity,
)
    requires
        0 <= j < files.len(),
        files[j].content is None,
    ensures
        complexity_of(dependencies, files, root_file, c) == complexity_of(
            dependencies,
            files.remove(j),
            root_file,
            c,
        ),
{
    lemma_total_without(files, j, Counter::Files);
    lemma_total_without(files, j, Counter::Lines);
    lemma_total_without(files, j, Counter::Marked(Mark::Doc));
    lemma_total_without(files, j, Counter::Marked(Mark::Function));
    lemma_total_without(files, j, Counter::Marked(Mark::Module));
    lemma_total_without(files, j, Counter::Marked(Mark::Test));
}

} // verus!
