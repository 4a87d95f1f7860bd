//! The R manager: `testthat` over `tests/testthat`.

use vstd::prelude::*;

use crate::api::{custom_prefix, TestManager};
use crate::managers::{
    run_dir, run_dir_of, args_of, single_test, Invocation, Test, TestPayload, TestOutcome,
    malformed_message, malformed_outcome,
};
use crate::managers::{
    check_pair, first_line_found, first_line_found_of, gate_pair, opt_view, or_default,
    or_default_str, ToolOutput,
};
use crate::text::{chars_of, concat, owned, trim, trim_str};
use crate::version::{version_after, version_after_chars};

verus! {

/// Why the tool cannot be used here.
#[derive(Debug, Clone, PartialEq, Eq)]
pub enum RError {
    NotFound,
    TooOld { minimum: String, found: String },
    DescriptionNotFound { path: String },
}

impl RError {
    pub open spec fn spec_message(self) -> Seq<char> {
        match self {
            RError::NotFound => "Rscript not found on PATH"@,
            RError::TooOld { minimum, found } => "R version "@ + found@ + " is too old (minimum "@ + minimum@ + ")"@,
            RError::DescriptionNotFound { path } => "DESCRIPTION file not found at "@ + path@,
        }
    }

    /// The error as the runner reports it.
    pub fn message(&self) -> (r: String)
        ensures
            r@ == self.spec_message(),
    {
        match self {
            RError::NotFound => owned("Rscript not found on PATH"),
            RError::TooOld { minimum, found } => {
                let s0 = owned("R version ");
                let s1 = concat(s0.as_str(), found.as_str());
                let s2 = concat(s1.as_str(), " is too old (minimum ");
                let s3 = concat(s2.as_str(), minimum.as_str());
                let s4 = concat(s3.as_str(), ")");
                s4
            },
            RError::DescriptionNotFound { path } => {
                let s0 = owned("DESCRIPTION file not found at ");
                let s1 = concat(s0.as_str(), path.as_str());
                s1
            },
        }
    }
}

/// The `major.minor` version in the output of `Rscript --version`.
pub open spec fn spec_parse_version(output: Seq<char>) -> Option<(u32, u32)> {
    version_after(output, "R scripting front-end version "@)
}

/// Reads the `major.minor` version from the output of `Rscript --version`.
pub fn parse_version(output: &str) -> (r: Option<(u32, u32)>)
    ensures
        r == spec_parse_version(output@),
{
    let c = chars_of(output);
    let m = chars_of("R scripting front-end version ");
    version_after_chars(c.as_slice(), m.as_slice())
}

/// The text the version is read from.
pub open spec fn version_text(o: ToolOutput) -> Seq<char> {
    o.stderr@ + o.stdout@
}

/// What is reported as found when no version can be read.
pub open spec fn unparsed_found(text: Seq<char>) -> Seq<char> {
    first_line_found(trim(text))
}

/// The oldest supported version.
pub open spec fn minimum() -> (u32, u32) {
    (4, 0)
}

/// Where the `DESCRIPTION` file is looked for unless one is configured.
pub open spec fn default_path() -> Seq<char> {
    "DESCRIPTION"@
}

/// The `DESCRIPTION` file a detection checks: the configured one, else `DESCRIPTION`.
pub fn description_location(configured: Option<&str>) -> (r: String)
    ensures
        r@ == or_default(opt_view(configured), default_path()),
{
    or_default_str(configured, "DESCRIPTION")
}

/// The outcome of detection: the tool must be on `PATH` and answer its
/// version query (`version` is its output, `None` when it could not be
/// found or run), the version must be at least the minimum, and the
/// `DESCRIPTION` file must exist (`exists` tells whether it does).
pub open spec fn spec_detect(version: Option<ToolOutput>, configured: Option<Seq<char>>, exists: bool) -> Result<Seq<char>, Seq<char>> {
    match version {
        None => Err("Rscript not found on PATH"@),
        Some(o) => match gate_pair(spec_parse_version(version_text(o)), minimum(), unparsed_found(version_text(o))) {
            Err((minimum, found)) => Err("R version "@ + found + " is too old (minimum "@ + minimum + ")"@),
            Ok(_) => {
                let path = or_default(configured, default_path());
                if exists {
                    Ok(path)
                } else {
                    Err("DESCRIPTION file not found at "@ + path)
                }
            },
        },
    }
}

/// Checks that Rscript can run the project's tests.
pub fn detect_r(version: Option<ToolOutput>, configured: Option<&str>, exists: bool) -> (r: Result<String, RError>)
    ensures
        match r {
            Ok(p) => spec_detect(version, opt_view(configured), exists) == Ok::<Seq<char>, Seq<char>>(p@),
            Err(e) => spec_detect(version, opt_view(configured), exists) == Err::<Seq<char>, Seq<char>>(e.spec_message()),
        },
{
    let o = match version {
        Some(o) => o,
        None => return Err(RError::NotFound),
    };
    let text = concat(o.stderr.as_str(), o.stdout.as_str());
    let parsed = parse_version(text.as_str());
    let found = { let t = trim_str(text.as_str()); first_line_found_of(t.as_str()) };
    match check_pair(parsed, (4, 0), found) {
        Err(t) => return Err(RError::TooOld { minimum: t.minimum, found: t.found }),
        Ok(_) => {},
    }
    let path = description_location(configured);
    if !exists {
        return Err(RError::DescriptionNotFound { path });
    }
    Ok(path)
}

/// This manager's wire identity, `custom:r`.
pub open spec fn spec_identity(m: TestManager) -> bool {
    m is CustomTestManager && m.spec_wire() == custom_prefix() + "r"@
}

/// The identity of the r manager.
pub fn manager_identity() -> (r: TestManager)
    ensures
        spec_identity(r),
{
    proof {
        reveal_strlit("r");
    }
    match TestManager::custom("r") {
        Ok(m) => m,
        Err(_) => {
            proof {
                assert(false);
            }
            TestManager::well_known(crate::api::WellKnownTestManager::Cargo)
        },
    }
}

/// Runs `testthat` in the package directory.
pub struct RManager {
    description_path: String,
}

impl RManager {
    /// The configured path this manager works from.
    pub closed spec fn config_path(&self) -> Seq<char> {
        self.description_path@
    }

    pub fn new(description_path: String) -> (r: RManager)
        ensures
            r.config_path() == description_path@,
    {
        RManager { description_path }
    }

    pub fn identity(&self) -> (r: TestManager)
        ensures
            spec_identity(r),
    {
        manager_identity()
    }

    /// The single test `testthat`, which runs the whole suite.
    pub fn discover(&self) -> (r: Vec<Test>)
        ensures
            r@.len() == 1,
            r@[0].name@ == "testthat"@,
            spec_identity(r@[0].manager),
            r@[0].payload matches TestPayload::R { description_path: p } && p@ == self.config_path(),
    {
        let payload = TestPayload::R { description_path: owned(self.description_path.as_str()) };
        single_test("testthat", manager_identity(), payload)
    }
}

/// The commands that run a test of this manager, or the failed outcome of a
/// test whose payload belongs to another manager.
pub fn invocations(test: &Test) -> (r: Result<Vec<Invocation>, TestOutcome>)
    ensures
        match test.payload {
            TestPayload::R { description_path: p } => r matches Ok(v) && (v@.len() == 1 && v@[0].program@ == "Rscript"@ && crate::text::strs(v@[0].args@) == seq!["-e"@, "testthat::test_dir(\"tests/testthat\")"@] && v@[0].dir is Some && v@[0].dir->0@ == run_dir(p@) && !v@[0].keep_output_on_spawn_error),
            _ => r matches Err(o) && (!o.passed && o.duration_ms == 0 && o.stderr@ == malformed_message("r"@, "description_path"@)),
        },
{
    match &test.payload {
        TestPayload::R { description_path: p } => {
            let args = args_of(&["-e", "testthat::test_dir(\"tests/testthat\")"]);
            assert(crate::text::strs(args@) =~= seq!["-e"@, "testthat::test_dir(\"tests/testthat\")"@]);
            Ok(crate::managers::single_invocation("Rscript", args, Some(run_dir_of(p.as_str()))))
        },
        _ => Err(malformed_outcome("r", "description_path")),
    }
}

} // verus!
