//! Finding a runnable artifact for a project.
//!
//! Resolution is an ordered fallback of four attempts: the binary that the
//! caller named, the input path itself, a release build of the project, and
//! a build of its examples. The first attempt that yields an executable file
//! ends it. Probing paths and running builds is the caller's work: what has
//! been observed so far is handed in as an [`Observations`] record, and
//! [`find_or_build_binary`] says what to observe next, or how resolution ended. When
//! every attempt has failed the answer is "no artifact", which is no error.

use vstd::prelude::*;
use crate::text::same_text;

verus! {

/// How the host marks a file as executable.
#[derive(Clone, Copy, Debug, PartialEq, Eq, Structural)]
pub enum Platform {
    /// By permission bits.
    Unix,
    /// By the file name's extension.
    Other,
}

/// What the file system says of one path.
#[derive(Clone, Debug, PartialEq, Eq)]
pub struct PathFacts {
    /// The path.
    pub path: String,
    /// Something exists at the path.
    pub exists: bool,
    /// It is a regular file.
    pub is_file: bool,
    /// It is a directory.
    pub is_dir: bool,
    /// Its permission bits, where they could be read.
    pub mode: Option<u32>,
    /// The extension of its file name, if it has one.
    pub extension: Option<String>,
}

/// The facts mark an executable: on Unix any execute bit is set, elsewhere
/// the extension is `exe`.
pub open spec fn executable(platform: Platform, facts: PathFacts) -> bool {
    match platform {
        Platform::Unix => match facts.mode {
            Some(m) => m & 0o111 != 0,
            None => false,
        },
        Platform::Other => match facts.extension {
            Some(e) => e@ == "exe"@,
            None => false,
        },
    }
}

/// The facts describe a regular file that is executable.
pub open spec fn runnable(platform: Platform, facts: PathFacts) -> bool {
    facts.is_file && executable(platform, facts)
}

/// Whether the facts mark an executable.
pub fn is_executable(platform: Platform, facts: &PathFacts) -> (r: bool)
    ensures
        r == executable(platform, *facts),
{
    match platform {
        Platform::Unix => match facts.mode {
            Some(m) => m & 0o111 != 0,
            None => false,
        },
        Platform::Other => match &facts.extension {
            Some(e) => same_text(e.as_str(), "exe"),
            None => false,
        },
    }
}

/// The index of the first runnable entry among the first `n` of `entries`,
/// or `n` if none of them is runnable.
pub open spec fn first_runnable(platform: Platform, entries: Seq<PathFacts>, n: nat) -> nat
    decreases n,
{
    if n == 0 {
        0
    } else {
        let before = first_runnable(platform, entries, (n - 1) as nat);
        if before < n - 1 {
            before
        } else if runnable(platform, entries[n - 1]) {
            (n - 1) as nat
        } else {
            n
        }
    }
}

/// `first_runnable` is the least index of a runnable entry: the entry at it
/// is runnable, and none before it is.
pub proof fn lemma_first_runnable(platform: Platform, entries: Seq<PathFacts>, n: nat)
    requires
        n <= entries.len(),
    ensures
        first_runnable(platform, entries, n) <= n,
        first_runnable(platform, entries, n) < n ==> runnable(
            platform,
            entries[first_runnable(platform, entries, n) as int],
        ),
        forall|j: int|
            0 <= j < first_runnable(platform, entries, n) ==> !runnable(
                platform,
                #[trigger] entries[j],
            ),
    decreases n,
{
    if n > 0 {
        lemma_first_runnable(platform, entries, (n - 1) as nat);
    }
}

/// The first runnable entry of a directory listing, in the order listed.
pub fn find_runnable(platform: Platform, entries: &Vec<PathFacts>) -> (r: Option<usize>)
    ensures
        r is Some <==> first_runnable(platform, entries@, entries@.len()) < entries@.len(),
        r is Some ==> r.unwrap() == first_runnable(platform, entries@, entries@.len()),
{
    let mut i: usize = 0;
    while i < entries.len()
        invariant
            i <= entries.len(),
            forall|j: int| 0 <= j < i ==> !runnable(platform, #[trigger] entries[j]),
        decreases entries.len() - i,
    {
        if entries[i].is_file && is_executable(platform, &entries[i]) {
            proof {
                lemma_first_runnable(platform, entries@, entries@.len());
            }
            return Some(i);
        }
        i = i + 1;
    }
    proof {
        lemma_first_runnable(platform, entries@, entries@.len());
    }
    None
}

/// What the caller asks for.
#[derive(Clone, Debug, PartialEq, Eq)]
pub struct Request {
    /// How the host marks executables.
    pub platform: Platform,
    /// The binary that the caller named: a path, or the name of a build
    /// target.
    pub bin: Option<String>,
    /// The input path is the root of a project that can be built.
    pub is_cargo_project: bool,
}

/// What has been observed so far. A field is `None` until the observation
/// has been made.
#[derive(Clone, Debug, PartialEq, Eq)]
pub struct Observations {
    /// The facts of the path that the caller named as binary.
    pub given: Option<PathFacts>,
    /// The facts of the input path.
    pub input: Option<PathFacts>,
    /// Whether the release build of the project succeeded.
    pub project_build: Option<bool>,
    /// The facts of the named binary in the release directory.
    pub named_artifact: Option<PathFacts>,
    /// The entries of the release directory, in the order listed; empty
    /// where it cannot be read.
    pub release_dir: Option<Vec<PathFacts>>,
    /// The facts of the project's examples directory.
    pub examples_dir: Option<PathFacts>,
    /// Whether the build of the examples succeeded.
    pub examples_build: Option<bool>,
    /// The entries of the examples' output directory, in the order listed;
    /// empty where it cannot be read.
    pub examples_out_dir: Option<Vec<PathFacts>>,
}

/// What to do next, or how resolution ended.
#[derive(Clone, Debug, PartialEq, Eq)]
pub enum Step {
    /// Observe the path that the caller named as binary.
    ProbeGivenBinary,
    /// Observe the input path.
    ProbeInput,
    /// Run a release build of the project; `named` says whether to build
    /// only the target that the caller named.
    BuildProject {
        /// Build only the named target.
        named: bool,
    },
    /// Observe the named binary in the release directory.
    ProbeNamedArtifact,
    /// List the release directory.
    ListReleaseDir,
    /// Observe the project's examples directory.
    ProbeExamplesDir,
    /// Run a release build of the examples.
    BuildExamples,
    /// List the examples' output directory.
    ListExamplesDir,
    /// Resolution ended with the artifact at this path.
    Found(String),
    /// Resolution ended without an artifact.
    NoArtifact,
}

/// The mathematical form of a [`Step`].
pub enum Decision {
    /// Observe the path that the caller named as binary.
    ProbeGivenBinary,
    /// Observe the input path.
    ProbeInput,
    /// Run a release build of the project.
    BuildProject {
        /// Build only the named target.
        named: bool,
    },
    /// Observe the named binary in the release directory.
    ProbeNamedArtifact,
    /// List the release directory.
    ListReleaseDir,
    /// Observe the project's examples directory.
    ProbeExamplesDir,
    /// Run a release build of the examples.
    BuildExamples,
    /// List the examples' output directory.
    ListExamplesDir,
    /// Resolution ended with the artifact at this path.
    Found(Seq<char>),
    /// Resolution ended without an artifact.
    NoArtifact,
}

impl View for Step {
    type V = Decision;

    open spec fn view(&self) -> Decision {
        match self {
            Step::ProbeGivenBinary => Decision::ProbeGivenBinary,
            Step::ProbeInput => Decision::ProbeInput,
            Step::BuildProject { named } => Decision::BuildProject { named: *named },
            Step::ProbeNamedArtifact => Decision::ProbeNamedArtifact,
            Step::ListReleaseDir => Decision::ListReleaseDir,
            Step::ProbeExamplesDir => Decision::ProbeExamplesDir,
            Step::BuildExamples => Decision::BuildExamples,
            Step::ListExamplesDir => Decision::ListExamplesDir,
            Step::Found(path) => Decision::Found(path@),
            Step::NoArtifact => Decision::NoArtifact,
        }
    }
}

/// The outcome of scanning a directory listing: the first runnable entry,
/// or `otherwise` if there is none.
pub open spec fn scan(platform: Platform, entries: Seq<PathFacts>, otherwise: Decision) -> Decision {
    let k = first_runnable(platform, entries, entries.len());
    if k < entries.len() {
        Decision::Found(entries[k as int].path@)
    } else {
        otherwise
    }
}

/// The fourth attempt: build the project's examples and take the first
/// runnable file of their output directory.
pub open spec fn decide_examples(req: Request, obs: Observations) -> Decision {
    match obs.examples_dir {
        None => Decision::ProbeExamplesDir,
        Some(dir) => if !dir.exists {
            Decision::NoArtifact
        } else {
            match obs.examples_build {
                None => Decision::BuildExamples,
                Some(built) => if !built {
                    Decision::NoArtifact
                } else {
                    match obs.examples_out_dir {
                        None => Decision::ListExamplesDir,
                        Some(entries) => scan(req.platform, entries@, Decision::NoArtifact),
                    }
                },
            }
        },
    }
}

/// After a release build that succeeded: the named binary if it is there
/// and executable, else the first runnable file of the release directory,
/// else the fourth attempt.
pub open spec fn decide_release(req: Request, obs: Observations) -> Decision {
    if req.bin is Some && obs.named_artifact is None {
        Decision::ProbeNamedArtifact
    } else if req.bin is Some && obs.named_artifact.unwrap().exists && executable(
        req.platform,
        obs.named_artifact.unwrap(),
    ) {
        Decision::Found(obs.named_artifact.unwrap().path@)
    } else {
        match obs.release_dir {
            None => Decision::ListReleaseDir,
            Some(entries) => scan(req.platform, entries@, decide_examples(req, obs)),
        }
    }
}

/// The third attempt, for a project root that can be built: a release
/// build, of the named target alone where the caller named one that is no
/// existing path.
pub open spec fn decide_build(req: Request, obs: Observations) -> Decision {
    match obs.project_build {
        None => Decision::BuildProject {
            named: req.bin is Some && !obs.given.unwrap().exists,
        },
        Some(built) => if built {
            decide_release(req, obs)
        } else {
            decide_examples(req, obs)
        },
    }
}

/// The ordered fallback as a whole: what follows from the request and from
/// what has been observed so far.
pub open spec fn decide(req: Request, obs: Observations) -> Decision {
    if req.bin is Some && obs.given is None {
        Decision::ProbeGivenBinary
    } else if req.bin is Some && runnable(req.platform, obs.given.unwrap()) {
        Decision::Found(obs.given.unwrap().path@)
    } else {
        match obs.input {
            None => Decision::ProbeInput,
            Some(input) => if runnable(req.platform, input) {
                Decision::Found(input.path@)
            } else if req.is_cargo_project && input.is_dir {
                decide_build(req, obs)
            } else {
                Decision::NoArtifact
            },
        }
    }
}

fn scan_entries(platform: Platform, entries: &Vec<PathFacts>) -> (r: Option<String>)
    ensures
        match r {
            Some(path) => scan(platform, entries@, Decision::NoArtifact) == Decision::Found(path@)
                && first_runnable(platform, entries@, entries@.len()) < entries@.len(),
            None => first_runnable(platform, entries@, entries@.len()) >= entries@.len(),
        },
{
    match find_runnable(platform, entries) {
        Some(i) => Some(entries[i].path.clone()),
        None => None,
    }
}

fn next_example_step(req: &Request, obs: &Observations) -> (step: Step)
    ensures
        step@ == decide_examples(*req, *obs),
{
    match &obs.examples_dir {
        None => Step::ProbeExamplesDir,
        Some(dir) => {
            if !dir.exists {
                return Step::NoArtifact;
            }
            match obs.examples_build {
                None => Step::BuildExamples,
                Some(built) => {
                    if !built {
                        return Step::NoArtifact;
                    }
                    match &obs.examples_out_dir {
                        None => Step::ListExamplesDir,
                        Some(entries) => match scan_entries(req.platform, entries) {
                            Some(path) => Step::Found(path),
                            None => Step::NoArtifact,
                        },
                    }
                },
            }
        },
    }
}

fn next_release_step(req: &Request, obs: &Observations) -> (step: Step)
    ensures
        step@ == decide_release(*req, *obs),
{
    if req.bin.is_some() {
        match &obs.named_artifact {
            None => {
                return Step::ProbeNamedArtifact;
            },
            Some(named) => {
                if named.exists && is_executable(req.platform, named) {
                    return Step::Found(named.path.clone());
                }
            },
        }
    }
    match &obs.release_dir {
        None => Step::ListReleaseDir,
        Some(entries) => match scan_entries(req.platform, entries) {
            Some(path) => Step::Found(path),
            None => next_example_step(req, obs),
        },
    }
}

/// What to do next for the request `req` when `obs` has been observed, or
/// how resolution ended.
pub fn find_or_build_binary(req: &Request, obs: &Observations) -> (step: Step)
    ensures
        step@ == decide(*req, *obs),
{
    if req.bin.is_some() {
        match &obs.given {
            None => {
                return Step::ProbeGivenBinary;
            },
            Some(given) => {
                if given.is_file && is_executable(req.platform, given) {
                    return Step::Found(given.path.clone());
                }
            },
        }
    }
    match &obs.input {
        None => Step::ProbeInput,
        Some(input) => {
            if input.is_file && is_executable(req.platform, input) {
                return Step::Found(input.path.clone());
            }
            if !(req.is_cargo_project && input.is_dir) {
                return Step::NoArtifact;
            }
            match obs.project_build {
                None => {
                    let named: bool = match &obs.given {
                        Some(given) => req.bin.is_some() && !given.exists,
                        None => false,
                    };
                    Step::BuildProject { named }
                },
                Some(built) => {
                    if built {
                        next_release_step(req, obs)
                    } else {
                        next_example_step(req, obs)
                    }
                },
            }
        },
    }
}

/// Resolution asks only for what has not been observed yet: each
/// observation is asked for once at most, so resolution ends after eight
/// steps at most.
pub proof fn lemma_asks_for_missing(req: Request, obs: Observations)
    ensures
        match decide(req, obs) {
            Decision::ProbeGivenBinary => obs.given is None,
            Decision::ProbeInput => obs.input is None,
            Decision::BuildProject { .. } => obs.project_build is None,
            Decision::ProbeNamedArtifact => obs.named_artifact is None,
            Decision::ListReleaseDir => obs.release_dir is None,
            Decision::ProbeExamplesDir => obs.examples_dir is None,
            Decision::BuildExamples => obs.examples_build is None,
            Decision::ListExamplesDir => obs.examples_out_dir is None,
            Decision::Found(_) => true,
            Decision::NoArtifact => true,
        },
{
}

/// The binary that the caller named wins: where it is an executable file,
/// resolution ends with it, whatever else has been observed.
pub proof fn lemma_given_binary_wins(req: Request, obs: Observations)
    requires
        req.bin is Some,
        obs.given is Some,
        runnable(req.platform, obs.given.unwrap()),
    ensures
        decide(req, obs) == Decision::Found(obs.given.unwrap().path@),
{
}

/// Nothing is built for an input that is no project root: once the named
/// binary and the input are observed and neither is runnable, resolution
/// ends without an artifact.
pub proof fn lemma_no_build_outside_projects(req: Request, obs: Observations)
    requires
        req.bin is Some ==> obs.given is Some && !runnable(req.platform, obs.given.unwrap()),
        obs.input is Some,
        !runnable(req.platform, obs.input.unwrap()),
        !(req.is_cargo_project && obs.input.unwrap().is_dir),
    ensures
        decide(req, obs) == Decision::NoArtifact,
{
}

} // verus!
