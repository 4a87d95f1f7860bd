//! The Dart manager: `dart pub get`, then `dart test`.

use vstd::prelude::*;

use crate::api::{custom_prefix, TestManager};
use crate::managers::{
    run_dir, run_dir_of, args_of, single_test, invocation, Invocation, Test, TestPayload,
    TestOutcome, malformed_message, malformed_outcome,
};
use crate::managers::{
    check_pair, first_line_found, first_line_found_of, gate_pair, opt_view, or_default,
    or_default_str, ToolOutput,
};
use crate::text::{chars_of, concat, owned, trim, trim_str};
use crate::version::{version_after, version_after_chars};

verus! {

/// Why the tool cannot be used here.
#[derive(Debug, Clone, PartialEq, Eq)]
pub enum DartError {
    NotFound,
    TooOld { minimum: String, found: String },
    PubspecNotFound { path: String },
}

impl DartError {
    pub open spec fn spec_message(self) -> Seq<char> {
        match self {
            DartError::NotFound => "dart not found on PATH"@,
            DartError::TooOld { minimum, found } => "dart version "@ + found@ + " is too old (minimum "@ + minimum@ + ")"@,
            DartError::PubspecNotFound { path } => "pubspec.yaml not found at "@ + path@,
        }
    }

    /// The error as the runner reports it.
    pub fn message(&self) -> (r: String)
        ensures
            r@ == self.spec_message(),
    {
        match self {
            DartError::NotFound => owned("dart not found on PATH"),
            DartError::TooOld { minimum, found } => {
                let s0 = owned("dart version ");
                let s1 = concat(s0.as_str(), found.as_str());
                let s2 = concat(s1.as_str(), " is too old (minimum ");
                let s3 = concat(s2.as_str(), minimum.as_str());
                let s4 = concat(s3.as_str(), ")");
                s4
            },
            DartError::PubspecNotFound { path } => {
                let s0 = owned("pubspec.yaml not found at ");
                let s1 = concat(s0.as_str(), path.as_str());
                s1
            },
        }
    }
}

/// The `major.minor` version in the output of `dart --version`.
pub open spec fn spec_parse_version(output: Seq<char>) -> Option<(u32, u32)> {
    version_after(output, "Dart SDK version: "@)
}

/// Reads the `major.minor` version from the output of `dart --version`.
pub fn parse_version(output: &str) -> (r: Option<(u32, u32)>)
    ensures
        r == spec_parse_version(output@),
{
    let c = chars_of(output);
    let m = chars_of("Dart SDK version: ");
    version_after_chars(c.as_slice(), m.as_slice())
}

/// The text the version is read from.
pub open spec fn version_text(o: ToolOutput) -> Seq<char> {
    o.stdout@ + o.stderr@
}

/// What is reported as found when no version can be read.
pub open spec fn unparsed_found(text: Seq<char>) -> Seq<char> {
    first_line_found(trim(text))
}

/// The oldest supported version.
pub open spec fn minimum() -> (u32, u32) {
    (3, 0)
}

/// Where the `pubspec.yaml` is looked for unless one is configured.
pub open spec fn default_path() -> Seq<char> {
    "pubspec.yaml"@
}

/// The `pubspec.yaml` a detection checks: the configured one, else `pubspec.yaml`.
pub fn pubspec_location(configured: Option<&str>) -> (r: String)
    ensures
        r@ == or_default(opt_view(configured), default_path()),
{
    or_default_str(configured, "pubspec.yaml")
}

/// The outcome of detection: the tool must be on `PATH` and answer its
/// version query (`version` is its output, `None` when it could not be
/// found or run), the version must be at least the minimum, and the
/// `pubspec.yaml` must exist (`exists` tells whether it does).
pub open spec fn spec_detect(version: Option<ToolOutput>, configured: Option<Seq<char>>, exists: bool) -> Result<Seq<char>, Seq<char>> {
    match version {
        None => Err("dart not found on PATH"@),
        Some(o) => match gate_pair(spec_parse_version(version_text(o)), minimum(), unparsed_found(version_text(o))) {
            Err((minimum, found)) => Err("dart version "@ + found + " is too old (minimum "@ + minimum + ")"@),
            Ok(_) => {
                let path = or_default(configured, default_path());
                if exists {
                    Ok(path)
                } else {
                    Err("pubspec.yaml not found at "@ + path)
                }
            },
        },
    }
}

/// Checks that dart can run the project's tests.
pub fn detect_dart(version: Option<ToolOutput>, configured: Option<&str>, exists: bool) -> (r: Result<String, DartError>)
    ensures
        match r {
            Ok(p) => spec_detect(version, opt_view(configured), exists) == Ok::<Seq<char>, Seq<char>>(p@),
            Err(e) => spec_detect(version, opt_view(configured), exists) == Err::<Seq<char>, Seq<char>>(e.spec_message()),
        },
{
    let o = match version {
        Some(o) => o,
        None => return Err(DartError::NotFound),
    };
    let text = concat(o.stdout.as_str(), o.stderr.as_str());
    let parsed = parse_version(text.as_str());
    let found = { let t = trim_str(text.as_str()); first_line_found_of(t.as_str()) };
    match check_pair(parsed, (3, 0), found) {
        Err(t) => return Err(DartError::TooOld { minimum: t.minimum, found: t.found }),
        Ok(_) => {},
    }
    let path = pubspec_location(configured);
    if !exists {
        return Err(DartError::PubspecNotFound { path });
    }
    Ok(path)
}

/// This manager's wire identity, `custom:dart`.
pub open spec fn spec_identity(m: TestManager) -> bool {
    m is CustomTestManager && m.spec_wire() == custom_prefix() + "dart"@
}

/// The identity of the dart manager.
pub fn manager_identity() -> (r: TestManager)
    ensures
        spec_identity(r),
{
    proof {
        reveal_strlit("dart");
    }
    match TestManager::custom("dart") {
        Ok(m) => m,
        Err(_) => {
            proof {
                assert(false);
            }
            TestManager::well_known(crate::api::WellKnownTestManager::Cargo)
        },
    }
}

/// Runs `dart pub get` and `dart test` in the package directory.
pub struct DartManager {
    pubspec_path: String,
}

impl DartManager {
    /// The configured path this manager works from.
    pub closed spec fn config_path(&self) -> Seq<char> {
        self.pubspec_path@
    }

    pub fn new(pubspec_path: String) -> (r: DartManager)
        ensures
            r.config_path() == pubspec_path@,
    {
        DartManager { pubspec_path }
    }

    pub fn identity(&self) -> (r: TestManager)
        ensures
            spec_identity(r),
    {
        manager_identity()
    }

    /// The single test `dart test`, which runs the whole suite.
    pub fn discover(&self) -> (r: Vec<Test>)
        ensures
            r@.len() == 1,
            r@[0].name@ == "dart test"@,
            spec_identity(r@[0].manager),
            r@[0].payload matches TestPayload::Dart { pubspec_path: p } && p@ == self.config_path(),
    {
        let payload = TestPayload::Dart { pubspec_path: owned(self.pubspec_path.as_str()) };
        single_test("dart test", manager_identity(), payload)
    }
}

/// The commands that run a test of this manager, or the failed outcome of a
/// test whose payload belongs to another manager.
pub fn invocations(test: &Test) -> (r: Result<Vec<Invocation>, TestOutcome>)
    ensures
        match test.payload {
            TestPayload::Dart { pubspec_path: p } => r matches Ok(v) && ({
                let dir = run_dir(p@);
                &&& v@.len() == 2
                &&& v@[0].program@ == "dart"@ && crate::text::strs(v@[0].args@) == seq!["pub"@, "get"@] && v@[0].dir is Some && v@[0].dir->0@ == dir && !v@[0].keep_output_on_spawn_error
                &&& v@[1].program@ == "dart"@ && crate::text::strs(v@[1].args@) == seq!["test"@] && v@[1].dir is Some && v@[1].dir->0@ == dir && v@[1].keep_output_on_spawn_error
            }),
            _ => r matches Err(o) && (!o.passed && o.duration_ms == 0 && o.stderr@ == malformed_message("dart"@, "pubspec_path"@)),
        },
{
    match &test.payload {
        TestPayload::Dart { pubspec_path: p } => {
            let dir = run_dir_of(p.as_str());
            let a0 = args_of(&["pub", "get"]);
            let a1 = args_of(&["test"]);
            assert(crate::text::strs(a0@) =~= seq!["pub"@, "get"@]);
            assert(crate::text::strs(a1@) =~= seq!["test"@]);
            let mut v: Vec<Invocation> = Vec::new();
            v.push(invocation("dart", a0, Some(owned(dir.as_str())), false));
            v.push(invocation("dart", a1, Some(dir), true));
            Ok(v)
        },
        _ => Err(malformed_outcome("dart", "pubspec_path")),
    }
}

} // verus!
