//! The sbt manager: `sbt test`.

use vstd::prelude::*;

use crate::api::{custom_prefix, TestManager};
use crate::managers::{
    run_dir, run_dir_of, args_of, single_test, Invocation, Test, TestPayload, TestOutcome,
    malformed_message, malformed_outcome,
};
use crate::managers::{
    check_pair, first_line_found, first_line_found_of, gate_pair, opt_view, or_default,
    or_default_str, ToolOutput,
};
use crate::text::{chars_of, concat, owned, trim, trim_str};
use crate::version::{first_line_version, first_line_version_chars};

verus! {

/// Why the tool cannot be used here.
#[derive(Debug, Clone, PartialEq, Eq)]
pub enum SbtError {
    NotFound,
    TooOld { minimum: String, found: String },
    BuildFileNotFound { path: String },
}

impl SbtError {
    pub open spec fn spec_message(self) -> Seq<char> {
        match self {
            SbtError::NotFound => "sbt not found on PATH"@,
            SbtError::TooOld { minimum, found } => "sbt version "@ + found@ + " is too old (minimum "@ + minimum@ + ")"@,
            SbtError::BuildFileNotFound { path } => "build.sbt not found at "@ + path@,
        }
    }

    /// The error as the runner reports it.
    pub fn message(&self) -> (r: String)
        ensures
            r@ == self.spec_message(),
    {
        match self {
            SbtError::NotFound => owned("sbt not found on PATH"),
            SbtError::TooOld { minimum, found } => {
                let s0 = owned("sbt version ");
                let s1 = concat(s0.as_str(), found.as_str());
                let s2 = concat(s1.as_str(), " is too old (minimum ");
                let s3 = concat(s2.as_str(), minimum.as_str());
                let s4 = concat(s3.as_str(), ")");
                s4
            },
            SbtError::BuildFileNotFound { path } => {
                let s0 = owned("build.sbt not found at ");
                let s1 = concat(s0.as_str(), path.as_str());
                s1
            },
        }
    }
}

/// The `major.minor` version in the output of `sbt --numeric-version`.
pub open spec fn spec_parse_version(output: Seq<char>) -> Option<(u32, u32)> {
    first_line_version(output)
}

/// Reads the `major.minor` version from the output of `sbt --numeric-version`.
pub fn parse_version(output: &str) -> (r: Option<(u32, u32)>)
    ensures
        r == spec_parse_version(output@),
{
    let c = chars_of(output);
    first_line_version_chars(c.as_slice())
}

/// The text the version is read from.
pub open spec fn version_text(o: ToolOutput) -> Seq<char> {
    o.stdout@ + o.stderr@
}

/// What is reported as found when no version can be read.
pub open spec fn unparsed_found(text: Seq<char>) -> Seq<char> {
    first_line_found(trim(text))
}

/// The oldest supported version.
pub open spec fn minimum() -> (u32, u32) {
    (1, 0)
}

/// Where the `build.sbt` is looked for unless one is configured.
pub open spec fn default_path() -> Seq<char> {
    "build.sbt"@
}

/// The `build.sbt` a detection checks: the configured one, else `build.sbt`.
pub fn build_sbt_location(configured: Option<&str>) -> (r: String)
    ensures
        r@ == or_default(opt_view(configured), default_path()),
{
    or_default_str(configured, "build.sbt")
}

/// The outcome of detection: the tool must be on `PATH` and answer its
/// version query (`version` is its output, `None` when it could not be
/// found or run), the version must be at least the minimum, and the
/// `build.sbt` must exist (`exists` tells whether it does).
pub open spec fn spec_detect(version: Option<ToolOutput>, configured: Option<Seq<char>>, exists: bool) -> Result<Seq<char>, Seq<char>> {
    match version {
        None => Err("sbt not found on PATH"@),
        Some(o) => match gate_pair(spec_parse_version(version_text(o)), minimum(), unparsed_found(version_text(o))) {
            Err((minimum, found)) => Err("sbt version "@ + found + " is too old (minimum "@ + minimum + ")"@),
            Ok(_) => {
                let path = or_default(configured, default_path());
                if exists {
                    Ok(path)
                } else {
                    Err("build.sbt not found at "@ + path)
                }
            },
        },
    }
}

/// Checks that sbt can run the project's tests.
pub fn detect_sbt(version: Option<ToolOutput>, configured: Option<&str>, exists: bool) -> (r: Result<String, SbtError>)
    ensures
        match r {
            Ok(p) => spec_detect(version, opt_view(configured), exists) == Ok::<Seq<char>, Seq<char>>(p@),
            Err(e) => spec_detect(version, opt_view(configured), exists) == Err::<Seq<char>, Seq<char>>(e.spec_message()),
        },
{
    let o = match version {
        Some(o) => o,
        None => return Err(SbtError::NotFound),
    };
    let text = concat(o.stdout.as_str(), o.stderr.as_str());
    let parsed = parse_version(text.as_str());
    let found = { let t = trim_str(text.as_str()); first_line_found_of(t.as_str()) };
    match check_pair(parsed, (1, 0), found) {
        Err(t) => return Err(SbtError::TooOld { minimum: t.minimum, found: t.found }),
        Ok(_) => {},
    }
    let path = build_sbt_location(configured);
    if !exists {
        return Err(SbtError::BuildFileNotFound { path });
    }
    Ok(path)
}

/// This manager's wire identity, `custom:sbt`.
pub open spec fn spec_identity(m: TestManager) -> bool {
    m is CustomTestManager && m.spec_wire() == custom_prefix() + "sbt"@
}

/// The identity of the sbt manager.
pub fn manager_identity() -> (r: TestManager)
    ensures
        spec_identity(r),
{
    proof {
        reveal_strlit("sbt");
    }
    match TestManager::custom("sbt") {
        Ok(m) => m,
        Err(_) => {
            proof {
                assert(false);
            }
            TestManager::well_known(crate::api::WellKnownTestManager::Cargo)
        },
    }
}

/// Runs `sbt test` in the build directory.
pub struct SbtManager {
    build_sbt_path: String,
}

impl SbtManager {
    /// The configured path this manager works from.
    pub closed spec fn config_path(&self) -> Seq<char> {
        self.build_sbt_path@
    }

    pub fn new(build_sbt_path: String) -> (r: SbtManager)
        ensures
            r.config_path() == build_sbt_path@,
    {
        SbtManager { build_sbt_path }
    }

    pub fn identity(&self) -> (r: TestManager)
        ensures
            spec_identity(r),
    {
        manager_identity()
    }

    /// The single test `sbt test`, which runs the whole suite.
    pub fn discover(&self) -> (r: Vec<Test>)
        ensures
            r@.len() == 1,
            r@[0].name@ == "sbt test"@,
            spec_identity(r@[0].manager),
            r@[0].payload matches TestPayload::Sbt { build_sbt_path: p } && p@ == self.config_path(),
    {
        let payload = TestPayload::Sbt { build_sbt_path: owned(self.build_sbt_path.as_str()) };
        single_test("sbt test", manager_identity(), payload)
    }
}

/// The commands that run a test of this manager, or the failed outcome of a
/// test whose payload belongs to another manager.
pub fn invocations(test: &Test) -> (r: Result<Vec<Invocation>, TestOutcome>)
    ensures
        match test.payload {
            TestPayload::Sbt { build_sbt_path: p } => r matches Ok(v) && (v@.len() == 1 && v@[0].program@ == "sbt"@ && crate::text::strs(v@[0].args@) == seq!["test"@] && v@[0].dir is Some && v@[0].dir->0@ == run_dir(p@) && !v@[0].keep_output_on_spawn_error),
            _ => r matches Err(o) && (!o.passed && o.duration_ms == 0 && o.stderr@ == malformed_message("sbt"@, "build_sbt_path"@)),
        },
{
    match &test.payload {
        TestPayload::Sbt { build_sbt_path: p } => {
            let args = args_of(&["test"]);
            assert(crate::text::strs(args@) =~= seq!["test"@]);
            Ok(crate::managers::single_invocation("sbt", args, Some(run_dir_of(p.as_str()))))
        },
        _ => Err(malformed_outcome("sbt", "build_sbt_path")),
    }
}

} // verus!
