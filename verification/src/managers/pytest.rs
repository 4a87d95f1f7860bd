//! The pytest manager: `python3 -m pytest` over a project.

use vstd::prelude::*;

use crate::api::{custom_prefix, TestManager};
use crate::managers::{
    args_of, malformed_message, malformed_outcome, run_dir, run_dir_of, single_test, Invocation,
    Test, TestOutcome, TestPayload,
};
use crate::managers::{
    check_pair, first_existing, first_existing_of, gate_pair, opt_view, ToolOutput,
};
use crate::text::{chars_of, concat, owned, strs, trim, trim_chars, trim_str};
use crate::version::{major_minor, major_minor_chars, strip_prefix_chars};

verus! {

/// Why the tool cannot be used here.
#[derive(Debug, Clone, PartialEq, Eq)]
pub enum PytestError {
    PythonNotFound,
    PythonTooOld { minimum: String, found: String },
    PytestNotFound,
    PyprojectNotFound { path: String },
}

impl PytestError {
    pub open spec fn spec_message(self) -> Seq<char> {
        match self {
            PytestError::PythonNotFound => "python3 not found on PATH"@,
            PytestError::PythonTooOld { minimum, found } => "python3 version "@ + found@ + " is too old (minimum "@ + minimum@ + ")"@,
            PytestError::PytestNotFound => "pytest not importable by python3"@,
            PytestError::PyprojectNotFound { path } => "no Python project config found at "@ + path@,
        }
    }

    /// The error as the runner reports it.
    pub fn message(&self) -> (r: String)
        ensures
            r@ == self.spec_message(),
    {
        match self {
            PytestError::PythonNotFound => owned("python3 not found on PATH"),
            PytestError::PythonTooOld { minimum, found } => {
                let s0 = owned("python3 version ");
                let s1 = concat(s0.as_str(), found.as_str());
                let s2 = concat(s1.as_str(), " is too old (minimum ");
                let s3 = concat(s2.as_str(), minimum.as_str());
                let s4 = concat(s3.as_str(), ")");
                s4
            },
            PytestError::PytestNotFound => owned("pytest not importable by python3"),
            PytestError::PyprojectNotFound { path } => {
                let s0 = owned("no Python project config found at ");
                let s1 = concat(s0.as_str(), path.as_str());
                s1
            },
        }
    }
}

/// The `major.minor` version in `python3 --version` output (`"Python 3.11.2"` is 3.11).
pub open spec fn spec_parse_version(output: Seq<char>) -> Option<(u32, u32)> {
    match crate::text::strip_prefix(trim(output), "Python "@) {
        Some(v) => major_minor(v),
        None => None,
    }
}

/// Reads the `major.minor` version from `python3 --version` output.
pub fn parse_version(output: &str) -> (r: Option<(u32, u32)>)
    ensures
        r == spec_parse_version(output@),
{
    let c = chars_of(output);
    let t = trim_chars(c.as_slice());
    let pre = chars_of("Python ");
    match strip_prefix_chars(t.as_slice(), pre.as_slice()) {
        Some(v) => major_minor_chars(v.as_slice()),
        None => None,
    }
}

/// The version text: stdout, or stderr when stdout is blank (older pythons print there).
pub open spec fn version_text(o: ToolOutput) -> Seq<char> {
    if trim(o.stdout@).len() == 0 {
        o.stderr@
    } else {
        o.stdout@
    }
}

/// The project files a detection looks for: the configured one, else
/// `pyproject.toml`, `setup.py`, `setup.cfg`, in that order.
pub open spec fn spec_candidates(configured: Option<Seq<char>>) -> Seq<Seq<char>> {
    match configured {
        Some(p) => seq![p],
        None => seq!["pyproject.toml"@, "setup.py"@, "setup.cfg"@],
    }
}

pub fn candidates(configured: Option<&str>) -> (r: Vec<String>)
    ensures
        strs(r@) == spec_candidates(opt_view(configured)),
{
    let mut v: Vec<String> = Vec::new();
    match configured {
        Some(p) => {
            v.push(owned(p));
        },
        None => {
            v.push(owned("pyproject.toml"));
            v.push(owned("setup.py"));
            v.push(owned("setup.cfg"));
        },
    }
    assert(strs(v@) =~= spec_candidates(opt_view(configured)));
    v
}

/// The outcome of detection: `python3` answering its version query
/// (`version`), at least 3.8, `pytest` importable (`importable`), then the
/// first candidate that exists (`exists[i]` for candidate `i`).
pub open spec fn spec_detect(version: Option<ToolOutput>, importable: bool, configured: Option<Seq<char>>, exists: Seq<bool>) -> Result<Seq<char>, Seq<char>> {
    match version {
        None => Err("python3 not found on PATH"@),
        Some(o) => match gate_pair(spec_parse_version(version_text(o)), (3, 8), trim(version_text(o))) {
            Err((minimum, found)) => Err("python3 version "@ + found + " is too old (minimum "@ + minimum + ")"@),
            Ok(_) => if !importable {
                Err("pytest not importable by python3"@)
            } else {
                match first_existing(spec_candidates(configured), exists) {
                    Some(f) => Ok(f),
                    None => Err("no Python project config found at "@ + match configured {
                        Some(p) => p,
                        None => "pyproject.toml / setup.py / setup.cfg"@,
                    }),
                }
            },
        },
    }
}

/// Checks that pytest can run the project's tests, and finds its config.
pub fn detect_pytest(version: Option<ToolOutput>, importable: bool, configured: Option<&str>, exists: &[bool]) -> (r: Result<String, PytestError>)
    requires
        exists@.len() == spec_candidates(opt_view(configured)).len(),
    ensures
        match r {
            Ok(p) => spec_detect(version, importable, opt_view(configured), exists@) == Ok::<Seq<char>, Seq<char>>(p@),
            Err(e) => spec_detect(version, importable, opt_view(configured), exists@) == Err::<Seq<char>, Seq<char>>(e.spec_message()),
        },
{
    let o = match version {
        Some(o) => o,
        None => return Err(PytestError::PythonNotFound),
    };
    let t = trim_str(o.stdout.as_str());
    let text = if t.as_str().is_empty() {
        owned(o.stderr.as_str())
    } else {
        owned(o.stdout.as_str())
    };
    let parsed = parse_version(text.as_str());
    match check_pair(parsed, (3, 8), trim_str(text.as_str())) {
        Err(t) => return Err(PytestError::PythonTooOld { minimum: t.minimum, found: t.found }),
        Ok(_) => {},
    }
    if !importable {
        return Err(PytestError::PytestNotFound);
    }
    let cands = candidates(configured);
    match first_existing_of(&cands, exists) {
        Some(f) => Ok(f),
        None => Err(PytestError::PyprojectNotFound {
            path: match configured {
                Some(p) => owned(p),
                None => owned("pyproject.toml / setup.py / setup.cfg"),
            },
        }),
    }
}

/// This manager's wire identity, `custom:pytest`.
pub open spec fn spec_identity(m: TestManager) -> bool {
    m is CustomTestManager && m.spec_wire() == custom_prefix() + "pytest"@
}

/// The identity of the pytest manager.
pub fn manager_identity() -> (r: TestManager)
    ensures
        spec_identity(r),
{
    proof {
        reveal_strlit("pytest");
    }
    match TestManager::custom("pytest") {
        Ok(m) => m,
        Err(_) => {
            proof {
                assert(false);
            }
            TestManager::well_known(crate::api::WellKnownTestManager::Cargo)
        },
    }
}

/// Runs `python3 -m pytest` in the project directory.
pub struct PytestManager {
    config_path: String,
}

impl PytestManager {
    /// The configured path this manager works from.
    pub closed spec fn config_path(&self) -> Seq<char> {
        self.config_path@
    }

    pub fn new(config_path: String) -> (r: PytestManager)
        ensures
            r.config_path() == config_path@,
    {
        PytestManager { config_path }
    }

    pub fn identity(&self) -> (r: TestManager)
        ensures
            spec_identity(r),
    {
        manager_identity()
    }

    /// The single test `pytest`, which runs the whole suite.
    pub fn discover(&self) -> (r: Vec<Test>)
        ensures
            r@.len() == 1,
            r@[0].name@ == "pytest"@,
            spec_identity(r@[0].manager),
            r@[0].payload matches TestPayload::Pytest { config_path: p } && p@ == self.config_path(),
    {
        let payload = TestPayload::Pytest { config_path: owned(self.config_path.as_str()) };
        single_test("pytest", manager_identity(), payload)
    }
}

/// The commands that run a test of this manager, or the failed outcome of a
/// test whose payload belongs to another manager.
pub fn invocations(test: &Test) -> (r: Result<Vec<Invocation>, TestOutcome>)
    ensures
        match test.payload {
            TestPayload::Pytest { config_path: p } => r matches Ok(v) && (v@.len() == 1 && v@[0].program@ == "python3"@ && strs(v@[0].args@) == seq!["-m"@, "pytest"@] && v@[0].dir is Some && v@[0].dir->0@ == run_dir(p@) && !v@[0].keep_output_on_spawn_error),
            _ => r matches Err(o) && (!o.passed && o.duration_ms == 0 && o.stderr@ == malformed_message("pytest"@, "config_path"@)),
        },
{
    match &test.payload {
        TestPayload::Pytest { config_path: p } => {
            let args = args_of(&["-m", "pytest"]);
            assert(strs(args@) =~= seq!["-m"@, "pytest"@]);
            Ok(crate::managers::single_invocation("python3", args, Some(run_dir_of(p.as_str()))))
        },
        _ => Err(malformed_outcome("pytest", "config_path")),
    }
}

} // verus!
