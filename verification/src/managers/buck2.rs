//! The Buck2 manager: `buck2 test` of a target.

use vstd::prelude::*;

use crate::api::{custom_prefix, TestManager};
use crate::managers::{
    malformed_message, malformed_outcome, single_test, Invocation, Test, TestOutcome,
    TestPayload,
};
use crate::managers::{opt_view, or_default, or_default_str};
use crate::text::{concat, owned, strs};

verus! {

/// Why the tool cannot be used here.
#[derive(Debug, Clone, PartialEq, Eq)]
pub enum Buck2Error {
    NotFound,
    BuckconfigNotFound { path: String },
}

impl Buck2Error {
    pub open spec fn spec_message(self) -> Seq<char> {
        match self {
            Buck2Error::NotFound => "buck2 not found on PATH"@,
            Buck2Error::BuckconfigNotFound { path } => ".buckconfig not found at "@ + path@,
        }
    }

    /// The error as the runner reports it.
    pub fn message(&self) -> (r: String)
        ensures
            r@ == self.spec_message(),
    {
        match self {
            Buck2Error::NotFound => owned("buck2 not found on PATH"),
            Buck2Error::BuckconfigNotFound { path } => {
                let s0 = owned(".buckconfig not found at ");
                let s1 = concat(s0.as_str(), path.as_str());
                s1
            },
        }
    }
}

/// Where `.buckconfig` is looked for unless one is configured.
pub open spec fn default_path() -> Seq<char> {
    ".buckconfig"@
}

/// The outcome of detection: `buck2` on `PATH` (`found`), and the
/// `.buckconfig` (the configured one, else `.buckconfig`) existing.
pub open spec fn spec_detect(found: bool, configured: Option<Seq<char>>, exists: bool) -> Result<Seq<char>, Seq<char>> {
    if !found {
        Err("buck2 not found on PATH"@)
    } else {
        let path = or_default(configured, default_path());
        if exists {
            Ok(path)
        } else {
            Err(".buckconfig not found at "@ + path)
        }
    }
}

/// The `.buckconfig` a detection checks.
pub fn buckconfig_location(configured: Option<&str>) -> (r: String)
    ensures
        r@ == or_default(opt_view(configured), default_path()),
{
    or_default_str(configured, ".buckconfig")
}

/// Checks that `buck2` can run the project's tests.
pub fn detect_buck2(found: bool, configured: Option<&str>, exists: bool) -> (r: Result<String, Buck2Error>)
    ensures
        match r {
            Ok(p) => spec_detect(found, opt_view(configured), exists) == Ok::<Seq<char>, Seq<char>>(p@),
            Err(e) => spec_detect(found, opt_view(configured), exists) == Err::<Seq<char>, Seq<char>>(e.spec_message()),
        },
{
    if !found {
        return Err(Buck2Error::NotFound);
    }
    let path = buckconfig_location(configured);
    if !exists {
        return Err(Buck2Error::BuckconfigNotFound { path });
    }
    Ok(path)
}

/// This manager's wire identity, `custom:buck2`.
pub open spec fn spec_identity(m: TestManager) -> bool {
    m is CustomTestManager && m.spec_wire() == custom_prefix() + "buck2"@
}

/// The identity of the buck2 manager.
pub fn manager_identity() -> (r: TestManager)
    ensures
        spec_identity(r),
{
    proof {
        reveal_strlit("buck2");
    }
    match TestManager::custom("buck2") {
        Ok(m) => m,
        Err(_) => {
            proof {
                assert(false);
            }
            TestManager::well_known(crate::api::WellKnownTestManager::Cargo)
        },
    }
}

/// Runs `buck2 test` of a target.
pub struct Buck2Manager {
    target: String,
}

impl Buck2Manager {
    /// The configured path this manager works from.
    pub closed spec fn config_path(&self) -> Seq<char> {
        self.target@
    }

    pub fn new(target: String) -> (r: Buck2Manager)
        ensures
            r.config_path() == target@,
    {
        Buck2Manager { target }
    }

    pub fn identity(&self) -> (r: TestManager)
        ensures
            spec_identity(r),
    {
        manager_identity()
    }

    /// The single test `buck2 test <target>`, which runs the target's tests.
    pub fn discover(&self) -> (r: Vec<Test>)
        ensures
            r@.len() == 1,
            r@[0].name@ == "buck2 test "@ + self.config_path(),
            spec_identity(r@[0].manager),
            r@[0].payload matches TestPayload::Buck2 { target: p } && p@ == self.config_path(),
    {
        let payload = TestPayload::Buck2 { target: owned(self.target.as_str()) };
        let name = concat("buck2 test ", self.target.as_str());
        single_test(name.as_str(), manager_identity(), payload)
    }
}

/// The commands that run a test of this manager, or the failed outcome of a
/// test whose payload belongs to another manager.
pub fn invocations(test: &Test) -> (r: Result<Vec<Invocation>, TestOutcome>)
    ensures
        match test.payload {
            TestPayload::Buck2 { target: p } => r matches Ok(v) && (v@.len() == 1 && v@[0].program@ == "buck2"@ && strs(v@[0].args@) == seq!["test"@, p@] && v@[0].dir is None && !v@[0].keep_output_on_spawn_error),
            _ => r matches Err(o) && (!o.passed && o.duration_ms == 0 && o.stderr@ == malformed_message("buck2"@, "target"@)),
        },
{
    match &test.payload {
        TestPayload::Buck2 { target: p } => {
            let mut args: Vec<String> = Vec::new();
            args.push(owned("test"));
            args.push(owned(p.as_str()));
            assert(strs(args@) =~= seq!["test"@, p@]);
            Ok(crate::managers::single_invocation("buck2", args, None))
        },
        _ => Err(malformed_outcome("buck2", "target")),
    }
}

} // verus!
