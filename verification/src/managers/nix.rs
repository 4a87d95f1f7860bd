//! The Nix manager: one test per derivation of a flake attribute set on the
//! current system, each built with `nix build`.

use vstd::prelude::*;

use crate::api::{TestManager, WellKnownTestManager};
use crate::managers::{
    check_pair, gate_pair, invocation, malformed_message, malformed_outcome, utf8_lossy, lossy_string,
    Invocation, StepOutcome, Test, TestOutcome, TestPayload, ToolOutput,
};
use crate::text::{chars_eq, chars_of, concat, owned, strs, trim, trim_str};
use crate::version::{last_token, last_token_chars, major_minor, major_minor_chars};

verus! {

/// Why the tool cannot be used here.
#[derive(Debug, Clone, PartialEq, Eq)]
pub enum NixError {
    NixNotFound,
    NixTooOld { minimum: String, found: String },
    EvaluationFailed { stderr: String },
}

impl NixError {
    pub open spec fn spec_message(self) -> Seq<char> {
        match self {
            NixError::NixNotFound => "nix not found on PATH"@,
            NixError::NixTooOld { minimum, found } => "nix version "@ + found@ + " is too old (minimum "@ + minimum@ + ")"@,
            NixError::EvaluationFailed { stderr } => "evaluation failed: "@ + stderr@,
        }
    }

    /// The error as the runner reports it.
    pub fn message(&self) -> (r: String)
        ensures
            r@ == self.spec_message(),
    {
        match self {
            NixError::NixNotFound => owned("nix not found on PATH"),
            NixError::NixTooOld { minimum, found } => {
                let s0 = owned("nix version ");
                let s1 = concat(s0.as_str(), found.as_str());
                let s2 = concat(s1.as_str(), " is too old (minimum ");
                let s3 = concat(s2.as_str(), minimum.as_str());
                let s4 = concat(s3.as_str(), ")");
                s4
            },
            NixError::EvaluationFailed { stderr } => {
                let s0 = owned("evaluation failed: ");
                let s1 = concat(s0.as_str(), stderr.as_str());
                s1
            },
        }
    }
}

/// The `major.minor` version in `nix --version` output: its last token
/// (`"nix (Nix) 2.24.9"` is 2.24).
pub open spec fn spec_parse_version(output: Seq<char>) -> Option<(u32, u32)> {
    match last_token(output) {
        Some(t) => major_minor(t),
        None => None,
    }
}

/// Reads the `major.minor` version from `nix --version` output.
pub fn parse_version(output: &str) -> (r: Option<(u32, u32)>)
    ensures
        r == spec_parse_version(output@),
{
    let c = chars_of(output);
    match last_token_chars(c.as_slice()) {
        Some(t) => major_minor_chars(t.as_slice()),
        None => None,
    }
}

/// The outcome of detection: `nix` answering its version query (`version`)
/// with at least 2.4.
pub open spec fn spec_detect(version: Option<ToolOutput>) -> Result<(), Seq<char>> {
    match version {
        None => Err("nix not found on PATH"@),
        Some(o) => match gate_pair(spec_parse_version(o.stdout@), (2, 4), trim(o.stdout@)) {
            Err((minimum, found)) => Err("nix version "@ + found + " is too old (minimum "@ + minimum + ")"@),
            Ok(_) => Ok(()),
        },
    }
}

/// Checks that a recent enough `nix` is available.
pub fn detect_nix(version: Option<ToolOutput>) -> (r: Result<(), NixError>)
    ensures
        match r {
            Ok(_) => spec_detect(version) == Ok::<(), Seq<char>>(()),
            Err(e) => spec_detect(version) == Err::<(), Seq<char>>(e.spec_message()),
        },
{
    let o = match version {
        Some(o) => o,
        None => return Err(NixError::NixNotFound),
    };
    let parsed = parse_version(o.stdout.as_str());
    match check_pair(parsed, (2, 4), trim_str(o.stdout.as_str())) {
        Err(t) => Err(NixError::NixTooOld { minimum: t.minimum, found: t.found }),
        Ok(_) => Ok(()),
    }
}

/// The identity of the nix manager: the built-in `nix`.
pub fn manager_identity() -> (r: TestManager)
    ensures
        r == TestManager::WellKnownTestManager(WellKnownTestManager::Nix),
{
    TestManager::well_known(WellKnownTestManager::Nix)
}

/// The `--apply` expression of the discovery eval: the host system and, per
/// system, each attribute's `drvPath` (null for non-derivations).
pub open spec fn apply_expr() -> Seq<char> {
    "x: { currentSystem = builtins.currentSystem; perSystem = builtins.mapAttrs (system: attrs: builtins.mapAttrs (name: drv: drv.drvPath or null) attrs) x; }"@
}

/// The flake reference of an attribute set.
pub open spec fn flake_ref(attrset: Seq<char>) -> Seq<char> {
    ".#"@ + attrset
}

/// The arguments of the discovery eval of `attrset`.
pub fn eval_args(attrset: &str) -> (r: Vec<String>)
    ensures
        strs(r@) == seq!["eval"@, flake_ref(attrset@), "--impure"@, "--json"@, "--apply"@, apply_expr()],
{
    let mut v: Vec<String> = Vec::new();
    v.push(owned("eval"));
    v.push(concat(".#", attrset));
    v.push(owned("--impure"));
    v.push(owned("--json"));
    v.push(owned("--apply"));
    v.push(owned("x: { currentSystem = builtins.currentSystem; perSystem = builtins.mapAttrs (system: attrs: builtins.mapAttrs (name: drv: drv.drvPath or null) attrs) x; }"));
    assert(strs(v@) =~= seq!["eval"@, flake_ref(attrset@), "--impure"@, "--json"@, "--apply"@, apply_expr()]);
    v
}

/// One attribute of a system in the eval: its name and its `drvPath` (`None` for a non-derivation).
#[derive(Debug, Clone, PartialEq, Eq)]
pub struct EvalAttr {
    pub name: String,
    pub drv_path: Option<String>,
}

/// The attributes the eval reports for one system.
#[derive(Debug, Clone, PartialEq, Eq)]
pub struct EvalSystem {
    pub system: String,
    pub attrs: Vec<EvalAttr>,
}

/// The discovery eval: the host system and each system's attributes.
#[derive(Debug, Clone, PartialEq, Eq)]
pub struct EvalOutput {
    pub current_system: String,
    pub per_system: Vec<EvalSystem>,
}

/// The attributes of `system` in the eval (the first entry for it), `None` when it has none.
pub open spec fn system_attrs(per_system: Seq<EvalSystem>, system: Seq<char>) -> Option<Seq<EvalAttr>>
    decreases per_system.len(),
{
    if per_system.len() == 0 {
        None
    } else if per_system[0].system@ == system {
        Some(per_system[0].attrs@)
    } else {
        system_attrs(per_system.drop_first(), system)
    }
}

fn find_system(per_system: &Vec<EvalSystem>, system: &str) -> (r: Option<usize>)
    ensures
        match r {
            Some(k) => k < per_system@.len() && system_attrs(per_system@, system@) == Some(per_system@[k as int].attrs@),
            None => system_attrs(per_system@, system@) is None,
        },
{
    let target = chars_of(system);
    let n = per_system.len();
    let mut i: usize = 0;
    assert(per_system@.skip(0) =~= per_system@);
    while i < n
        invariant
            n == per_system@.len(),
            i <= n,
            target@ == system@,
            system_attrs(per_system@, system@) == system_attrs(per_system@.skip(i as int), system@),
        decreases n - i,
    {
        assert(per_system@.skip(i as int).drop_first() =~= per_system@.skip(i + 1));
        assert(per_system@.skip(i as int)[0] == per_system@[i as int]);
        let c = chars_of(per_system[i].system.as_str());
        if chars_eq(c.as_slice(), target.as_slice()) {
            return Some(i);
        }
        i = i + 1;
    }
    None
}

/// What `nix build` builds for an attribute: its derivation's outputs
/// (`<drv>^*`, so nothing is re-evaluated), or the flake attribute itself
/// when the eval gave no derivation.
pub open spec fn spec_build_target(attrset: Seq<char>, system: Seq<char>, name: Seq<char>, drv_path: Option<Seq<char>>) -> Seq<char> {
    match drv_path {
        Some(drv) => drv + "^*"@,
        None => ".#"@ + attrset + "."@ + system + "."@ + name,
    }
}

pub fn resolve_build_target(attrset: &str, system: &str, name: &str, drv_path: Option<&str>) -> (r: String)
    ensures
        r@ == spec_build_target(attrset@, system@, name@, match drv_path {
            Some(d) => Some(d@),
            None => None,
        }),
{
    match drv_path {
        Some(drv) => concat(drv, "^*"),
        None => {
            let a = concat(".#", attrset);
            let b = concat(a.as_str(), ".");
            let c = concat(b.as_str(), system);
            let d = concat(c.as_str(), ".");
            concat(d.as_str(), name)
        },
    }
}

pub open spec fn opt_str(o: Option<String>) -> Option<Seq<char>> {
    match o {
        Some(s) => Some(s@),
        None => None,
    }
}

/// Runs each derivation of a flake attribute set as a test.
pub struct NixManager {
    attrset: String,
}

impl NixManager {
    pub closed spec fn attrset(&self) -> Seq<char> {
        self.attrset@
    }

    pub fn new(attrset: String) -> (r: NixManager)
        ensures
            r.attrset() == attrset@,
    {
        NixManager { attrset }
    }

    pub fn identity(&self) -> (r: TestManager)
        ensures
            r == TestManager::WellKnownTestManager(WellKnownTestManager::Nix),
    {
        manager_identity()
    }

    /// The arguments of this manager's discovery eval.
    pub fn discover_args(&self) -> (r: Vec<String>)
        ensures
            strs(r@) == seq!["eval"@, flake_ref(self.attrset()), "--impure"@, "--json"@, "--apply"@, apply_expr()],
    {
        eval_args(self.attrset.as_str())
    }

    /// The tests of the eval: one per attribute of the current system, named
    /// after it, building its target; none when the current system has no entry.
    pub fn discover(&self, eval: &EvalOutput) -> (r: Vec<Test>)
        ensures
            match system_attrs(eval.per_system@, eval.current_system@) {
                None => r@.len() == 0,
                Some(attrs) => r@.len() == attrs.len() && forall|i: int| 0 <= i < attrs.len() ==> (
                    #[trigger] r@[i]).name@ == attrs[i].name@ && r@[i].manager
                    == TestManager::WellKnownTestManager(WellKnownTestManager::Nix) && (r@[i].payload matches TestPayload::Nix { build_target } && build_target@ == spec_build_target(
                    self.attrset(),
                    eval.current_system@,
                    attrs[i].name@,
                    opt_str(attrs[i].drv_path),
                )),
            },
    {
        let mut out: Vec<Test> = Vec::new();
        let k = match find_system(&eval.per_system, eval.current_system.as_str()) {
            Some(k) => k,
            None => return out,
        };
        let attrs = &eval.per_system[k].attrs;
        let n = attrs.len();
        for i in 0..n
            invariant
                n == attrs@.len(),
                out@.len() == i,
                forall|j: int| 0 <= j < i ==> (#[trigger] out@[j]).name@ == attrs@[j].name@ && out@[j].manager
                    == TestManager::WellKnownTestManager(WellKnownTestManager::Nix) && (out@[j].payload matches TestPayload::Nix { build_target } && build_target@ == spec_build_target(
                    self.attrset(),
                    eval.current_system@,
                    attrs@[j].name@,
                    opt_str(attrs@[j].drv_path),
                )),
        {
            let a = &attrs[i];
            let drv: Option<&str> = match &a.drv_path {
                Some(d) => Some(d.as_str()),
                None => None,
            };
            let target = resolve_build_target(self.attrset.as_str(), eval.current_system.as_str(), a.name.as_str(), drv);
            out.push(Test { name: owned(a.name.as_str()), manager: manager_identity(), payload: TestPayload::Nix { build_target: target } });
        }
        out
    }
}

/// The arguments that build a target without a result link, printing its outputs.
pub fn build_args(target: &str) -> (r: Vec<String>)
    ensures
        strs(r@) == seq!["build"@, target@, "--no-link"@, "--print-out-paths"@],
{
    let mut v: Vec<String> = Vec::new();
    v.push(owned("build"));
    v.push(owned(target));
    v.push(owned("--no-link"));
    v.push(owned("--print-out-paths"));
    assert(strs(v@) =~= seq!["build"@, target@, "--no-link"@, "--print-out-paths"@]);
    v
}

/// The command that builds a nix test, or the failed outcome of a test that is not nix's.
pub fn nix_invocation(test: &Test) -> (r: Result<Invocation, TestOutcome>)
    ensures
        match test.payload {
            TestPayload::Nix { build_target } => r matches Ok(inv) && (inv.program@ == "nix"@ && strs(inv.args@)
                == seq!["build"@, build_target@, "--no-link"@, "--print-out-paths"@] && inv.dir is None
                && !inv.keep_output_on_spawn_error),
            _ => r matches Err(o) && (!o.passed && o.duration_ms == 0 && o.stderr@
                == malformed_message("nix"@, "build_target"@)),
        },
{
    match &test.payload {
        TestPayload::Nix { build_target } => Ok(invocation("nix", build_args(build_target.as_str()), None, false)),
        _ => Err(malformed_outcome("nix", "build_target")),
    }
}

/// How a nix test ended: the build's success and its stderr (the build log),
/// or failure with the error's text when `nix` could not be started.
pub fn build_result(outcome: StepOutcome) -> (r: (bool, String))
    ensures
        match outcome {
            StepOutcome::Ran { success, stdout, stderr } => r.0 == success && r.1@ == utf8_lossy(stderr@),
            StepOutcome::SpawnFailed { error } => !r.0 && r.1 == error,
        },
{
    match outcome {
        StepOutcome::Ran { success, stdout, stderr } => (success, lossy_string(stderr.as_slice())),
        StepOutcome::SpawnFailed { error } => (false, error),
    }
}

} // verus!
