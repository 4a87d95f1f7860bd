//! The CMake manager: configure, build, then `ctest`.

use vstd::prelude::*;

use crate::api::{custom_prefix, TestManager};
use crate::managers::{
    parent_or_dot, parent_or_dot_of, args_of, single_test, invocation, Invocation, Test,
    TestPayload, TestOutcome, malformed_message, malformed_outcome,
};
use crate::managers::{
    check_pair, first_line_found, first_line_found_of, gate_pair, opt_view, or_default,
    or_default_str, ToolOutput,
};
use crate::text::{chars_of, concat, owned};
use crate::version::{version_after, version_after_chars};

verus! {

/// Why the tool cannot be used here.
#[derive(Debug, Clone, PartialEq, Eq)]
pub enum CmakeError {
    NotFound,
    TooOld { minimum: String, found: String },
    CmakeListsNotFound { path: String },
}

impl CmakeError {
    pub open spec fn spec_message(self) -> Seq<char> {
        match self {
            CmakeError::NotFound => "cmake not found on PATH"@,
            CmakeError::TooOld { minimum, found } => "cmake version "@ + found@ + " is too old (minimum "@ + minimum@ + ")"@,
            CmakeError::CmakeListsNotFound { path } => "CMakeLists.txt not found at "@ + path@,
        }
    }

    /// The error as the runner reports it.
    pub fn message(&self) -> (r: String)
        ensures
            r@ == self.spec_message(),
    {
        match self {
            CmakeError::NotFound => owned("cmake not found on PATH"),
            CmakeError::TooOld { minimum, found } => {
                let s0 = owned("cmake version ");
                let s1 = concat(s0.as_str(), found.as_str());
                let s2 = concat(s1.as_str(), " is too old (minimum ");
                let s3 = concat(s2.as_str(), minimum.as_str());
                let s4 = concat(s3.as_str(), ")");
                s4
            },
            CmakeError::CmakeListsNotFound { path } => {
                let s0 = owned("CMakeLists.txt not found at ");
                let s1 = concat(s0.as_str(), path.as_str());
                s1
            },
        }
    }
}

/// The `major.minor` version in the output of `cmake --version`.
pub open spec fn spec_parse_version(output: Seq<char>) -> Option<(u32, u32)> {
    version_after(output, "cmake version "@)
}

/// Reads the `major.minor` version from the output of `cmake --version`.
pub fn parse_version(output: &str) -> (r: Option<(u32, u32)>)
    ensures
        r == spec_parse_version(output@),
{
    let c = chars_of(output);
    let m = chars_of("cmake version ");
    version_after_chars(c.as_slice(), m.as_slice())
}

/// The text the version is read from.
pub open spec fn version_text(o: ToolOutput) -> Seq<char> {
    o.stdout@ + o.stderr@
}

/// What is reported as found when no version can be read.
pub open spec fn unparsed_found(text: Seq<char>) -> Seq<char> {
    first_line_found(text)
}

/// The oldest supported version.
pub open spec fn minimum() -> (u32, u32) {
    (3, 13)
}

/// Where the `CMakeLists.txt` is looked for unless one is configured.
pub open spec fn default_path() -> Seq<char> {
    "CMakeLists.txt"@
}

/// The `CMakeLists.txt` a detection checks: the configured one, else `CMakeLists.txt`.
pub fn cmake_lists_location(configured: Option<&str>) -> (r: String)
    ensures
        r@ == or_default(opt_view(configured), default_path()),
{
    or_default_str(configured, "CMakeLists.txt")
}

/// The outcome of detection: the tool must be on `PATH` and answer its
/// version query (`version` is its output, `None` when it could not be
/// found or run), the version must be at least the minimum, and the
/// `CMakeLists.txt` must exist (`exists` tells whether it does).
pub open spec fn spec_detect(version: Option<ToolOutput>, configured: Option<Seq<char>>, exists: bool) -> Result<Seq<char>, Seq<char>> {
    match version {
        None => Err("cmake not found on PATH"@),
        Some(o) => match gate_pair(spec_parse_version(version_text(o)), minimum(), unparsed_found(version_text(o))) {
            Err((minimum, found)) => Err("cmake version "@ + found + " is too old (minimum "@ + minimum + ")"@),
            Ok(_) => {
                let path = or_default(configured, default_path());
                if exists {
                    Ok(path)
                } else {
                    Err("CMakeLists.txt not found at "@ + path)
                }
            },
        },
    }
}

/// Checks that cmake can run the project's tests.
pub fn detect_cmake(version: Option<ToolOutput>, configured: Option<&str>, exists: bool) -> (r: Result<String, CmakeError>)
    ensures
        match r {
            Ok(p) => spec_detect(version, opt_view(configured), exists) == Ok::<Seq<char>, Seq<char>>(p@),
            Err(e) => spec_detect(version, opt_view(configured), exists) == Err::<Seq<char>, Seq<char>>(e.spec_message()),
        },
{
    let o = match version {
        Some(o) => o,
        None => return Err(CmakeError::NotFound),
    };
    let text = concat(o.stdout.as_str(), o.stderr.as_str());
    let parsed = parse_version(text.as_str());
    let found = first_line_found_of(text.as_str());
    match check_pair(parsed, (3, 13), found) {
        Err(t) => return Err(CmakeError::TooOld { minimum: t.minimum, found: t.found }),
        Ok(_) => {},
    }
    let path = cmake_lists_location(configured);
    if !exists {
        return Err(CmakeError::CmakeListsNotFound { path });
    }
    Ok(path)
}

/// This manager's wire identity, `custom:cmake`.
pub open spec fn spec_identity(m: TestManager) -> bool {
    m is CustomTestManager && m.spec_wire() == custom_prefix() + "cmake"@
}

/// The identity of the cmake manager.
pub fn manager_identity() -> (r: TestManager)
    ensures
        spec_identity(r),
{
    proof {
        reveal_strlit("cmake");
    }
    match TestManager::custom("cmake") {
        Ok(m) => m,
        Err(_) => {
            proof {
                assert(false);
            }
            TestManager::well_known(crate::api::WellKnownTestManager::Cargo)
        },
    }
}

/// Runs a CMake configure, build and `ctest`.
pub struct CmakeManager {
    cmake_lists_path: String,
}

impl CmakeManager {
    /// The configured path this manager works from.
    pub closed spec fn config_path(&self) -> Seq<char> {
        self.cmake_lists_path@
    }

    pub fn new(cmake_lists_path: String) -> (r: CmakeManager)
        ensures
            r.config_path() == cmake_lists_path@,
    {
        CmakeManager { cmake_lists_path }
    }

    pub fn identity(&self) -> (r: TestManager)
        ensures
            spec_identity(r),
    {
        manager_identity()
    }

    /// The single test `ctest`, which runs the whole suite.
    pub fn discover(&self) -> (r: Vec<Test>)
        ensures
            r@.len() == 1,
            r@[0].name@ == "ctest"@,
            spec_identity(r@[0].manager),
            r@[0].payload matches TestPayload::Cmake { cmake_lists_path: p } && p@ == self.config_path(),
    {
        let payload = TestPayload::Cmake { cmake_lists_path: owned(self.cmake_lists_path.as_str()) };
        single_test("ctest", manager_identity(), payload)
    }
}

/// The commands that run a test of this manager, or the failed outcome of a
/// test whose payload belongs to another manager.
pub fn invocations(test: &Test) -> (r: Result<Vec<Invocation>, TestOutcome>)
    ensures
        match test.payload {
            TestPayload::Cmake { cmake_lists_path: p } => r matches Ok(v) && ({
                let src = parent_or_dot(p@);
                let build = src + "/build"@;
                &&& v@.len() == 3
                &&& v@[0].program@ == "cmake"@ && crate::text::strs(v@[0].args@) == seq!["-B"@, build, src] && v@[0].dir is None && !v@[0].keep_output_on_spawn_error
                &&& v@[1].program@ == "cmake"@ && crate::text::strs(v@[1].args@) == seq!["--build"@, build] && v@[1].dir is None && !v@[1].keep_output_on_spawn_error
                &&& v@[2].program@ == "ctest"@ && crate::text::strs(v@[2].args@) == seq!["--output-on-failure"@] && v@[2].dir is Some && v@[2].dir->0@ == build && !v@[2].keep_output_on_spawn_error
            }),
            _ => r matches Err(o) && (!o.passed && o.duration_ms == 0 && o.stderr@ == malformed_message("cmake"@, "cmake_lists_path"@)),
        },
{
    match &test.payload {
        TestPayload::Cmake { cmake_lists_path: p } => {
            let src = parent_or_dot_of(p.as_str());
            let build = concat(src.as_str(), "/build");
            let mut a0: Vec<String> = Vec::new();
            a0.push(owned("-B"));
            a0.push(owned(build.as_str()));
            a0.push(owned(src.as_str()));
            let mut a1: Vec<String> = Vec::new();
            a1.push(owned("--build"));
            a1.push(owned(build.as_str()));
            let a2 = args_of(&["--output-on-failure"]);
            assert(crate::text::strs(a0@) =~= seq!["-B"@, build@, src@]);
            assert(crate::text::strs(a1@) =~= seq!["--build"@, build@]);
            assert(crate::text::strs(a2@) =~= seq!["--output-on-failure"@]);
            let mut v: Vec<Invocation> = Vec::new();
            v.push(invocation("cmake", a0, None, false));
            v.push(invocation("cmake", a1, None, false));
            v.push(invocation("ctest", a2, Some(build), false));
            Ok(v)
        },
        _ => Err(malformed_outcome("cmake", "cmake_lists_path")),
    }
}

} // verus!
