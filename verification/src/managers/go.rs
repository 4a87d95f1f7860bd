//! The Go manager: `go test ./...` over a module.

use vstd::prelude::*;

use crate::api::{custom_prefix, TestManager};
use crate::managers::{
    run_dir, run_dir_of, args_of, single_test, Invocation, Test, TestPayload, TestOutcome,
    malformed_message, malformed_outcome,
};
use crate::managers::{check_pair, gate_pair, opt_view, or_default, or_default_str, ToolOutput};
use crate::text::{chars_of, concat, owned, trim, trim_str};
use crate::version::{strip_prefix_chars, version_of_token, version_of_token_chars};

verus! {

/// Why the tool cannot be used here.
#[derive(Debug, Clone, PartialEq, Eq)]
pub enum GoError {
    NotFound,
    TooOld { minimum: String, found: String },
    ModNotFound { path: String },
}

impl GoError {
    pub open spec fn spec_message(self) -> Seq<char> {
        match self {
            GoError::NotFound => "go not found on PATH"@,
            GoError::TooOld { minimum, found } => "go version "@ + found@ + " is too old (minimum "@ + minimum@ + ")"@,
            GoError::ModNotFound { path } => "go.mod not found at "@ + path@,
        }
    }

    /// The error as the runner reports it.
    pub fn message(&self) -> (r: String)
        ensures
            r@ == self.spec_message(),
    {
        match self {
            GoError::NotFound => owned("go not found on PATH"),
            GoError::TooOld { minimum, found } => {
                let s0 = owned("go version ");
                let s1 = concat(s0.as_str(), found.as_str());
                let s2 = concat(s1.as_str(), " is too old (minimum ");
                let s3 = concat(s2.as_str(), minimum.as_str());
                let s4 = concat(s3.as_str(), ")");
                s4
            },
            GoError::ModNotFound { path } => {
                let s0 = owned("go.mod not found at ");
                let s1 = concat(s0.as_str(), path.as_str());
                s1
            },
        }
    }
}

/// The `major.minor` version in the output of `go version`.
pub open spec fn spec_parse_version(output: Seq<char>) -> Option<(u32, u32)> {
    match crate::text::strip_prefix(trim(output), "go version go"@) {
        Some(rest) => version_of_token(rest, 0),
        None => None,
    }
}

/// Reads the `major.minor` version from the output of `go version`.
pub fn parse_version(output: &str) -> (r: Option<(u32, u32)>)
    ensures
        r == spec_parse_version(output@),
{
    let c = chars_of(output);
    let t = crate::text::trim_chars(c.as_slice());
    let pre = chars_of("go version go");
    match strip_prefix_chars(t.as_slice(), pre.as_slice()) {
        Some(rest) => version_of_token_chars(rest.as_slice(), 0),
        None => None,
    }
}

/// The text the version is read from.
pub open spec fn version_text(o: ToolOutput) -> Seq<char> {
    o.stdout@
}

/// What is reported as found when no version can be read.
pub open spec fn unparsed_found(text: Seq<char>) -> Seq<char> {
    trim(text)
}

/// The oldest supported version.
pub open spec fn minimum() -> (u32, u32) {
    (1, 21)
}

/// Where the module file is looked for unless one is configured.
pub open spec fn default_path() -> Seq<char> {
    "go.mod"@
}

/// The module file a detection checks: the configured one, else `go.mod`.
pub fn go_mod_location(configured: Option<&str>) -> (r: String)
    ensures
        r@ == or_default(opt_view(configured), default_path()),
{
    or_default_str(configured, "go.mod")
}

/// The outcome of detection: the tool must be on `PATH` and answer its
/// version query (`version` is its output, `None` when it could not be
/// found or run), the version must be at least the minimum, and the
/// module file must exist (`exists` tells whether it does).
pub open spec fn spec_detect(version: Option<ToolOutput>, configured: Option<Seq<char>>, exists: bool) -> Result<Seq<char>, Seq<char>> {
    match version {
        None => Err("go not found on PATH"@),
        Some(o) => match gate_pair(spec_parse_version(version_text(o)), minimum(), unparsed_found(version_text(o))) {
            Err((minimum, found)) => Err("go version "@ + found + " is too old (minimum "@ + minimum + ")"@),
            Ok(_) => {
                let path = or_default(configured, default_path());
                if exists {
                    Ok(path)
                } else {
                    Err("go.mod not found at "@ + path)
                }
            },
        },
    }
}

/// Checks that go can run the project's tests.
pub fn detect_go(version: Option<ToolOutput>, configured: Option<&str>, exists: bool) -> (r: Result<String, GoError>)
    ensures
        match r {
            Ok(p) => spec_detect(version, opt_view(configured), exists) == Ok::<Seq<char>, Seq<char>>(p@),
            Err(e) => spec_detect(version, opt_view(configured), exists) == Err::<Seq<char>, Seq<char>>(e.spec_message()),
        },
{
    let o = match version {
        Some(o) => o,
        None => return Err(GoError::NotFound),
    };
    let text = owned(o.stdout.as_str());
    let parsed = parse_version(text.as_str());
    let found = trim_str(text.as_str());
    match check_pair(parsed, (1, 21), found) {
        Err(t) => return Err(GoError::TooOld { minimum: t.minimum, found: t.found }),
        Ok(_) => {},
    }
    let path = go_mod_location(configured);
    if !exists {
        return Err(GoError::ModNotFound { path });
    }
    Ok(path)
}

/// This manager's wire identity, `custom:go`.
pub open spec fn spec_identity(m: TestManager) -> bool {
    m is CustomTestManager && m.spec_wire() == custom_prefix() + "go"@
}

/// The identity of the go manager.
pub fn manager_identity() -> (r: TestManager)
    ensures
        spec_identity(r),
{
    proof {
        reveal_strlit("go");
    }
    match TestManager::custom("go") {
        Ok(m) => m,
        Err(_) => {
            proof {
                assert(false);
            }
            TestManager::well_known(crate::api::WellKnownTestManager::Cargo)
        },
    }
}

/// Runs `go test ./...` in the module directory.
pub struct GoManager {
    go_mod_path: String,
}

impl GoManager {
    /// The configured path this manager works from.
    pub closed spec fn config_path(&self) -> Seq<char> {
        self.go_mod_path@
    }

    pub fn new(go_mod_path: String) -> (r: GoManager)
        ensures
            r.config_path() == go_mod_path@,
    {
        GoManager { go_mod_path }
    }

    pub fn identity(&self) -> (r: TestManager)
        ensures
            spec_identity(r),
    {
        manager_identity()
    }

    /// The single test `go test`, which runs the whole suite.
    pub fn discover(&self) -> (r: Vec<Test>)
        ensures
            r@.len() == 1,
            r@[0].name@ == "go test"@,
            spec_identity(r@[0].manager),
            r@[0].payload matches TestPayload::Go { go_mod_path: p } && p@ == self.config_path(),
    {
        let payload = TestPayload::Go { go_mod_path: owned(self.go_mod_path.as_str()) };
        single_test("go test", manager_identity(), payload)
    }
}

/// The commands that run a test of this manager, or the failed outcome of a
/// test whose payload belongs to another manager.
pub fn invocations(test: &Test) -> (r: Result<Vec<Invocation>, TestOutcome>)
    ensures
        match test.payload {
            TestPayload::Go { go_mod_path: p } => r matches Ok(v) && (v@.len() == 1 && v@[0].program@ == "go"@ && crate::text::strs(v@[0].args@) == seq!["test"@, "./..."@] && v@[0].dir is Some && v@[0].dir->0@ == run_dir(p@) && !v@[0].keep_output_on_spawn_error),
            _ => r matches Err(o) && (!o.passed && o.duration_ms == 0 && o.stderr@ == malformed_message("go"@, "go_mod_path"@)),
        },
{
    match &test.payload {
        TestPayload::Go { go_mod_path: p } => {
            let args = args_of(&["test", "./..."]);
            assert(crate::text::strs(args@) =~= seq!["test"@, "./..."@]);
            Ok(crate::managers::single_invocation("go", args, Some(run_dir_of(p.as_str()))))
        },
        _ => Err(malformed_outcome("go", "go_mod_path")),
    }
}

} // verus!
