//! The npm manager: `npm test` of a package.

use vstd::prelude::*;

use crate::api::{custom_prefix, TestManager};
use crate::managers::{
    malformed_message, malformed_outcome, parent_or_dot, parent_or_dot_of, single_test,
    Invocation, Test, TestOutcome, TestPayload,
};
use crate::managers::{
    check_major, gate_major, has_test_script, declares_test_script, opt_view, or_default,
    or_default_str, ToolOutput,
};
use crate::text::{chars_of, concat, owned, strs, trim, trim_chars, trim_str};
use crate::version::{major_only, major_only_chars, trim_start_char, trim_start_char_chars};

verus! {

/// Why the tool cannot be used here.
#[derive(Debug, Clone, PartialEq, Eq)]
pub enum NpmError {
    NodeNotFound,
    NpmNotFound,
    NodeTooOld { minimum: String, found: String },
    PackageJsonNotFound { path: String },
    NoTestScript,
}

impl NpmError {
    pub open spec fn spec_message(self) -> Seq<char> {
        match self {
            NpmError::NodeNotFound => "node not found on PATH"@,
            NpmError::NpmNotFound => "npm not found on PATH"@,
            NpmError::NodeTooOld { minimum, found } => "node version "@ + found@ + " is too old (minimum "@ + minimum@ + ")"@,
            NpmError::PackageJsonNotFound { path } => "package.json not found at "@ + path@,
            NpmError::NoTestScript => "package.json has no test script"@,
        }
    }

    /// The error as the runner reports it.
    pub fn message(&self) -> (r: String)
        ensures
            r@ == self.spec_message(),
    {
        match self {
            NpmError::NodeNotFound => owned("node not found on PATH"),
            NpmError::NpmNotFound => owned("npm not found on PATH"),
            NpmError::NodeTooOld { minimum, found } => {
                let s0 = owned("node version ");
                let s1 = concat(s0.as_str(), found.as_str());
                let s2 = concat(s1.as_str(), " is too old (minimum ");
                let s3 = concat(s2.as_str(), minimum.as_str());
                let s4 = concat(s3.as_str(), ")");
                s4
            },
            NpmError::PackageJsonNotFound { path } => {
                let s0 = owned("package.json not found at ");
                let s1 = concat(s0.as_str(), path.as_str());
                s1
            },
            NpmError::NoTestScript => owned("package.json has no test script"),
        }
    }
}

/// The major version in `node --version` output (`"v18.19.0"` is 18).
pub open spec fn spec_parse_version(output: Seq<char>) -> Option<u32> {
    major_only(trim_start_char(trim(output), 'v'))
}

/// Reads the major version from `node --version` output.
pub fn parse_version(output: &str) -> (r: Option<u32>)
    ensures
        r == spec_parse_version(output@),
{
    let c = chars_of(output);
    let t = trim_chars(c.as_slice());
    let u = trim_start_char_chars(t.as_slice(), 'v');
    major_only_chars(u.as_slice())
}

/// Where `package.json` is looked for unless one is configured.
pub open spec fn default_path() -> Seq<char> {
    "package.json"@
}

/// The `package.json` a detection checks.
pub fn package_json_location(configured: Option<&str>) -> (r: String)
    ensures
        r@ == or_default(opt_view(configured), default_path()),
{
    or_default_str(configured, "package.json")
}

/// The outcome of detection: `node` and `npm` on `PATH` (`node_found`,
/// `npm_found`), `node --version` answering (`version`) with at least 18,
/// the `package.json` existing (`exists`) and readable (`content`), and it
/// declaring a `test` script.
pub open spec fn spec_detect(node_found: bool, npm_found: bool, version: Option<ToolOutput>, configured: Option<Seq<char>>, exists: bool, content: Option<Seq<char>>) -> Result<Seq<char>, Seq<char>> {
    if !node_found {
        Err("node not found on PATH"@)
    } else if !npm_found {
        Err("npm not found on PATH"@)
    } else {
        match version {
            None => Err("node not found on PATH"@),
            Some(o) => match gate_major(spec_parse_version(o.stdout@), 18, trim(o.stdout@)) {
                Err((minimum, found)) => Err("node version "@ + found + " is too old (minimum "@ + minimum + ")"@),
                Ok(_) => {
                    let path = or_default(configured, default_path());
                    if !exists {
                        Err("package.json not found at "@ + path)
                    } else {
                        match content {
                            None => Err("package.json not found at "@ + path),
                            Some(text) => if declares_test_script(text) {
                                Ok(path)
                            } else {
                                Err("package.json has no test script"@)
                            },
                        }
                    }
                },
            },
        }
    }
}

/// Checks that npm can run the package's tests.
pub fn detect_npm(node_found: bool, npm_found: bool, version: Option<ToolOutput>, configured: Option<&str>, exists: bool, content: Option<String>) -> (r: Result<String, NpmError>)
    ensures
        ({
            let c = match content {
                Some(t) => Some(t@),
                None => None,
            };
            match r {
                Ok(p) => spec_detect(node_found, npm_found, version, opt_view(configured), exists, c) == Ok::<Seq<char>, Seq<char>>(p@),
                Err(e) => spec_detect(node_found, npm_found, version, opt_view(configured), exists, c) == Err::<Seq<char>, Seq<char>>(e.spec_message()),
            }
        }),
{
    if !node_found {
        return Err(NpmError::NodeNotFound);
    }
    if !npm_found {
        return Err(NpmError::NpmNotFound);
    }
    let o = match version {
        Some(o) => o,
        None => return Err(NpmError::NodeNotFound),
    };
    let parsed = parse_version(o.stdout.as_str());
    match check_major(parsed, 18, trim_str(o.stdout.as_str())) {
        Err(t) => return Err(NpmError::NodeTooOld { minimum: t.minimum, found: t.found }),
        Ok(_) => {},
    }
    let path = package_json_location(configured);
    if !exists {
        return Err(NpmError::PackageJsonNotFound { path });
    }
    let text = match content {
        Some(t) => t,
        None => return Err(NpmError::PackageJsonNotFound { path }),
    };
    match has_test_script(text.as_str()) {
        true => Ok(path),
        false => Err(NpmError::NoTestScript),
    }
}

/// This manager's wire identity, `custom:npm`.
pub open spec fn spec_identity(m: TestManager) -> bool {
    m is CustomTestManager && m.spec_wire() == custom_prefix() + "npm"@
}

/// The identity of the npm manager.
pub fn manager_identity() -> (r: TestManager)
    ensures
        spec_identity(r),
{
    proof {
        reveal_strlit("npm");
    }
    match TestManager::custom("npm") {
        Ok(m) => m,
        Err(_) => {
            proof {
                assert(false);
            }
            TestManager::well_known(crate::api::WellKnownTestManager::Cargo)
        },
    }
}

/// Runs `npm test` with the package directory as prefix.
pub struct NpmManager {
    package_json_path: String,
}

impl NpmManager {
    /// The configured path this manager works from.
    pub closed spec fn config_path(&self) -> Seq<char> {
        self.package_json_path@
    }

    pub fn new(package_json_path: String) -> (r: NpmManager)
        ensures
            r.config_path() == package_json_path@,
    {
        NpmManager { package_json_path }
    }

    pub fn identity(&self) -> (r: TestManager)
        ensures
            spec_identity(r),
    {
        manager_identity()
    }

    /// The single test `npm test`, which runs the whole suite.
    pub fn discover(&self) -> (r: Vec<Test>)
        ensures
            r@.len() == 1,
            r@[0].name@ == "npm test"@,
            spec_identity(r@[0].manager),
            r@[0].payload matches TestPayload::Npm { package_json_path: p } && p@ == self.config_path(),
    {
        let payload = TestPayload::Npm { package_json_path: owned(self.package_json_path.as_str()) };
        single_test("npm test", manager_identity(), payload)
    }
}

/// The commands that run a test of this manager, or the failed outcome of a
/// test whose payload belongs to another manager.
pub fn invocations(test: &Test) -> (r: Result<Vec<Invocation>, TestOutcome>)
    ensures
        match test.payload {
            TestPayload::Npm { package_json_path: p } => r matches Ok(v) && (v@.len() == 1 && v@[0].program@ == "npm"@ && strs(v@[0].args@) == seq!["test"@, "--prefix"@, parent_or_dot(p@)] && v@[0].dir is None && !v@[0].keep_output_on_spawn_error),
            _ => r matches Err(o) && (!o.passed && o.duration_ms == 0 && o.stderr@ == malformed_message("npm"@, "package_json_path"@)),
        },
{
    match &test.payload {
        TestPayload::Npm { package_json_path: p } => {
            let prefix = parent_or_dot_of(p.as_str());
            let mut args: Vec<String> = Vec::new();
            args.push(owned("test"));
            args.push(owned("--prefix"));
            args.push(prefix);
            assert(strs(args@) =~= seq!["test"@, "--prefix"@, parent_or_dot(p@)]);
            Ok(crate::managers::single_invocation("npm", args, None))
        },
        _ => Err(malformed_outcome("npm", "package_json_path")),
    }
}

} // verus!
