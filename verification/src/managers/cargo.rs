//! The Cargo manager: discovery of unit, integration and doc tests, and the
//! commands that run them through `cargo test` or `cargo nextest`.

use vstd::prelude::*;

use crate::api::{TestManager, WellKnownTestManager};
use crate::managers::nextest::{nextest_run_args, spec_nextest_filter, NextestCase, NextestSource};
use crate::managers::{
    check_pair, gate_pair, invocation, malformed_message, malformed_outcome, opt_view, or_default,
    or_default_str, Invocation, Test, TestEvent, TestKind, TestOutcome, TestPayload, ToolOutput,
};
use crate::text::{
    chars_eq, chars_of, concat, lemma_strs_push, lines, lines_chars, owned, string_of, strip_suffix,
    strs, trim, trim_chars, trim_str, views,
};
use crate::version::{version_of_token, version_of_token_chars};

verus! {

/// Why the tool cannot be used here.
#[derive(Debug, Clone, PartialEq, Eq)]
pub enum CargoError {
    CargoNotFound,
    CargoTooOld { minimum: String, found: String },
    MetadataFailed { stderr: String },
    CompilationFailed { stderr: String },
    NextestFailed { stderr: String },
    NextestArchiveNoNextest,
    ArchivePrepFailed { path: String, reason: String },
    ManifestNotFound { path: String },
}

impl CargoError {
    pub open spec fn spec_message(self) -> Seq<char> {
        match self {
            CargoError::CargoNotFound => "cargo not found on PATH"@,
            CargoError::CargoTooOld { minimum, found } => "cargo version "@ + found@ + " is too old (minimum "@ + minimum@ + ")"@,
            CargoError::MetadataFailed { stderr } => "cargo metadata failed: "@ + stderr@,
            CargoError::CompilationFailed { stderr } => "cargo test --no-run failed: "@ + stderr@,
            CargoError::NextestFailed { stderr } => "cargo nextest failed: "@ + stderr@,
            CargoError::NextestArchiveNoNextest => "nextest_archive is set but cargo-nextest was not found on PATH"@,
            CargoError::ArchivePrepFailed { path, reason } => "failed to prepare nextest archive "@ + path@ + ": "@ + reason@,
            CargoError::ManifestNotFound { path } => "cargo manifest not found at "@ + path@,
        }
    }

    /// The error as the runner reports it.
    pub fn message(&self) -> (r: String)
        ensures
            r@ == self.spec_message(),
    {
        match self {
            CargoError::CargoNotFound => owned("cargo not found on PATH"),
            CargoError::CargoTooOld { minimum, found } => {
                let s0 = owned("cargo version ");
                let s1 = concat(s0.as_str(), found.as_str());
                let s2 = concat(s1.as_str(), " is too old (minimum ");
                let s3 = concat(s2.as_str(), minimum.as_str());
                let s4 = concat(s3.as_str(), ")");
                s4
            },
            CargoError::MetadataFailed { stderr } => {
                let s0 = owned("cargo metadata failed: ");
                let s1 = concat(s0.as_str(), stderr.as_str());
                s1
            },
            CargoError::CompilationFailed { stderr } => {
                let s0 = owned("cargo test --no-run failed: ");
                let s1 = concat(s0.as_str(), stderr.as_str());
                s1
            },
            CargoError::NextestFailed { stderr } => {
                let s0 = owned("cargo nextest failed: ");
                let s1 = concat(s0.as_str(), stderr.as_str());
                s1
            },
            CargoError::NextestArchiveNoNextest => owned("nextest_archive is set but cargo-nextest was not found on PATH"),
            CargoError::ArchivePrepFailed { path, reason } => {
                let s0 = owned("failed to prepare nextest archive ");
                let s1 = concat(s0.as_str(), path.as_str());
                let s2 = concat(s1.as_str(), ": ");
                let s3 = concat(s2.as_str(), reason.as_str());
                s3
            },
            CargoError::ManifestNotFound { path } => {
                let s0 = owned("cargo manifest not found at ");
                let s1 = concat(s0.as_str(), path.as_str());
                s1
            },
        }
    }
}

/// The `major.minor` version in `cargo --version` output: its second token
/// (`"cargo 1.84.0 (66221abde 2024-11-19)"` is 1.84).
pub open spec fn spec_parse_version(output: Seq<char>) -> Option<(u32, u32)> {
    version_of_token(output, 1)
}

/// Reads the `major.minor` version from `cargo --version` output.
pub fn parse_version(output: &str) -> (r: Option<(u32, u32)>)
    ensures
        r == spec_parse_version(output@),
{
    let c = chars_of(output);
    version_of_token_chars(c.as_slice(), 1)
}

/// Where the manifest is looked for unless one is configured.
pub open spec fn default_path() -> Seq<char> {
    "Cargo.toml"@
}

/// The manifest a detection uses.
pub fn manifest_location(configured: Option<&str>) -> (r: String)
    ensures
        r@ == or_default(opt_view(configured), default_path()),
{
    or_default_str(configured, "Cargo.toml")
}

/// The outcome of detection: `cargo` answering its version query
/// (`version`), at least 1.70, and, when no manifest is configured,
/// `Cargo.toml` existing (`exists`). A configured manifest is taken as given.
pub open spec fn spec_detect(version: Option<ToolOutput>, configured: Option<Seq<char>>, exists: bool) -> Result<Seq<char>, Seq<char>> {
    match version {
        None => Err("cargo not found on PATH"@),
        Some(o) => match gate_pair(spec_parse_version(o.stdout@), (1, 70), trim(o.stdout@)) {
            Err((minimum, found)) => Err("cargo version "@ + found + " is too old (minimum "@ + minimum + ")"@),
            Ok(_) => {
                let path = or_default(configured, default_path());
                if configured is None && !exists {
                    Err("cargo manifest not found at "@ + path)
                } else {
                    Ok(path)
                }
            },
        },
    }
}

/// Checks that `cargo` can run the workspace's tests.
pub fn detect_cargo(version: Option<ToolOutput>, configured: Option<&str>, exists: bool) -> (r: Result<String, CargoError>)
    ensures
        match r {
            Ok(p) => spec_detect(version, opt_view(configured), exists) == Ok::<Seq<char>, Seq<char>>(p@),
            Err(e) => spec_detect(version, opt_view(configured), exists) == Err::<Seq<char>, Seq<char>>(e.spec_message()),
        },
{
    let o = match version {
        Some(o) => o,
        None => return Err(CargoError::CargoNotFound),
    };
    let parsed = parse_version(o.stdout.as_str());
    match check_pair(parsed, (1, 70), trim_str(o.stdout.as_str())) {
        Err(t) => return Err(CargoError::CargoTooOld { minimum: t.minimum, found: t.found }),
        Ok(_) => {},
    }
    let path = manifest_location(configured);
    if configured.is_none() && !exists {
        return Err(CargoError::ManifestNotFound { path });
    }
    Ok(path)
}

/// The identity of the cargo manager: the built-in `cargo`.
pub fn manager_identity() -> (r: TestManager)
    ensures
        r == TestManager::WellKnownTestManager(WellKnownTestManager::Cargo),
{
    TestManager::well_known(WellKnownTestManager::Cargo)
}

/// Which tool compiles and runs the unit and integration tests. Doctests
/// always run through `cargo test --doc`: nextest cannot run them.
#[derive(Debug, Clone, PartialEq, Eq)]
pub enum CargoBackend {
    /// Plain `cargo test`: compile the test binaries, then run each test with `--exact`.
    CargoTest,
    /// `cargo nextest`, with binaries from the given source.
    Nextest(NextestSource),
}

impl CargoBackend {
    pub open spec fn spec_name(&self) -> Seq<char> {
        match self {
            CargoBackend::CargoTest => "cargo test"@,
            CargoBackend::Nextest(_) => "cargo-nextest"@,
        }
    }

    /// A short name for diagnostics.
    pub fn name(&self) -> (r: String)
        ensures
            r@ == self.spec_name(),
    {
        match self {
            CargoBackend::CargoTest => owned("cargo test"),
            CargoBackend::Nextest(_) => owned("cargo-nextest"),
        }
    }
}

/// Picks the backend from the configured `nextest` preference and whether
/// `cargo nextest` is available: `Some(false)` forces `cargo test`; otherwise
/// nextest over the local workspace when available, else `cargo test`.
pub fn decide_backend(nextest: Option<bool>, available: bool, manifest_path: &str) -> (r: CargoBackend)
    ensures
        nextest == Some(false) ==> r == CargoBackend::CargoTest,
        nextest != Some(false) && !available ==> r == CargoBackend::CargoTest,
        nextest != Some(false) && available ==> (r matches CargoBackend::Nextest(
            NextestSource::Local { manifest_path: m },
        ) && m@ == manifest_path@),
{
    if nextest == Some(false) {
        CargoBackend::CargoTest
    } else if available {
        CargoBackend::Nextest(NextestSource::Local { manifest_path: owned(manifest_path) })
    } else {
        CargoBackend::CargoTest
    }
}

/// The warning printed when nextest was required but is missing.
pub fn fallback_warning(nextest: Option<bool>, available: bool) -> (r: Option<String>)
    ensures
        match r {
            Some(w) => nextest == Some(true) && !available && w@
                == "warning: cargo nextest requested but not found on PATH; using `cargo test`"@,
            None => !(nextest == Some(true) && !available),
        },
{
    if nextest == Some(true) && !available {
        Some(owned("warning: cargo nextest requested but not found on PATH; using `cargo test`"))
    } else {
        None
    }
}

/// The line that announces the chosen backend.
pub fn backend_announcement(backend: &CargoBackend) -> (r: String)
    ensures
        r@ == "cargo: using "@ + backend.spec_name() + " backend"@,
{
    let n = backend.name();
    let a = concat("cargo: using ", n.as_str());
    concat(a.as_str(), " backend")
}

/// Runs a workspace's tests through `cargo test` or `cargo nextest`.
pub struct CargoManager {
    pub manifest_path: String,
    pub backend: CargoBackend,
}

impl CargoManager {
    /// The manager for `manifest_path`, its backend decided from the
    /// configured preference and whether `cargo nextest` is on `PATH`.
    pub fn new(manifest_path: String, nextest: Option<bool>, available: bool) -> (r: CargoManager)
        ensures
            r.manifest_path == manifest_path,
            nextest == Some(false) || !available ==> r.backend == CargoBackend::CargoTest,
            nextest != Some(false) && available ==> (r.backend matches CargoBackend::Nextest(
                NextestSource::Local { manifest_path: m },
            ) && m@ == manifest_path@),
    {
        let backend = decide_backend(nextest, available, manifest_path.as_str());
        CargoManager { manifest_path, backend }
    }

    pub fn identity(&self) -> (r: TestManager)
        ensures
            r == TestManager::WellKnownTestManager(WellKnownTestManager::Cargo),
    {
        manager_identity()
    }
}

/// The names a test binary's `--list` output declares as tests: each trimmed
/// line that ends in `: test`, without that suffix (benchmarks are skipped).
pub open spec fn listed_tests(ls: Seq<Seq<char>>) -> Seq<Seq<char>>
    decreases ls.len(),
{
    if ls.len() == 0 {
        seq![]
    } else {
        let rest = listed_tests(ls.drop_last());
        match strip_suffix(trim(ls.last()), ": test"@) {
            Some(name) => rest.push(name),
            None => rest,
        }
    }
}

/// Reads the test names from a test binary's `--list` output.
pub fn parse_test_list(text: &str) -> (r: Vec<String>)
    ensures
        strs(r@) == listed_tests(lines(text@)),
{
    let c = chars_of(text);
    let ls = lines_chars(c.as_slice());
    let suffix = chars_of(": test");
    let mut out: Vec<String> = Vec::new();
    let n = ls.len();
    for i in 0..n
        invariant
            n == ls@.len(),
            views(ls@) == lines(text@),
            suffix@ == ": test"@,
            strs(out@) == listed_tests(views(ls@).take(i as int)),
    {
        let t = trim_chars(ls[i].as_slice());
        assert(views(ls@)[i as int] == ls@[i as int]@);
        assert(views(ls@).take(i + 1).drop_last() =~= views(ls@).take(i as int));
        if crate::text::ends_with_chars(t.as_slice(), suffix.as_slice()) {
            let k = t.len() - suffix.len();
            let name = crate::text::slice_of(t.as_slice(), 0, k);
            let s = string_of(name.as_slice());
            let ghost prev = out@;
            out.push(s);
            proof {
                lemma_strs_push(prev, s);
            }
        }
    }
    assert(views(ls@).take(n as int) =~= views(ls@));
    out
}

/// The wire name of a unit or integration test.
pub open spec fn unit_test_name(package: Seq<char>, test_name: Seq<char>) -> Seq<char> {
    package + "::"@ + test_name
}

/// The wire test for one unit or integration test: named
/// `<package>::<test>`, identical for both backends.
pub fn unit_test(package: &str, test_name: String) -> (r: Test)
    ensures
        r.name@ == unit_test_name(package@, test_name@),
        r.manager == TestManager::WellKnownTestManager(WellKnownTestManager::Cargo),
        r.payload matches TestPayload::Cargo { package: p, test_name: t, kind } && p@ == package@
            && t == test_name && kind == TestKind::Unit,
{
    let a = concat(package, "::");
    let name = concat(a.as_str(), test_name.as_str());
    Test {
        name,
        manager: manager_identity(),
        payload: TestPayload::Cargo { package: owned(package), test_name, kind: TestKind::Unit },
    }
}

/// The synthetic test that runs a package's doctests, named `<package>::[doctests]`.
pub fn doctest_test(package: &str) -> (r: Test)
    ensures
        r.name@ == package@ + "::[doctests]"@,
        r.manager == TestManager::WellKnownTestManager(WellKnownTestManager::Cargo),
        r.payload matches TestPayload::Cargo { package: p, test_name: t, kind } && p@ == package@
            && t@ == "[doctests]"@ && kind == TestKind::Doctests,
{
    Test {
        name: concat(package, "::[doctests]"),
        manager: manager_identity(),
        payload: TestPayload::Cargo {
            package: owned(package),
            test_name: owned("[doctests]"),
            kind: TestKind::Doctests,
        },
    }
}

/// The unit tests of the cases `cargo nextest list` reports, in order.
pub fn nextest_unit_tests(cases: &Vec<NextestCase>) -> (r: Vec<Test>)
    ensures
        r@.len() == cases@.len(),
        forall|i: int| 0 <= i < cases@.len() ==> ((#[trigger] r@[i]).name@ == unit_test_name(
            cases@[i].package@,
            cases@[i].test_name@,
        ) && (r@[i].payload matches TestPayload::Cargo { package: p, test_name: t, kind } && p@
            == cases@[i].package@ && t@ == cases@[i].test_name@ && kind == TestKind::Unit)),
        forall|i: int| 0 <= i < cases@.len() ==> (#[trigger] r@[i]).manager
            == TestManager::WellKnownTestManager(WellKnownTestManager::Cargo),
{
    let mut out: Vec<Test> = Vec::new();
    let n = cases.len();
    for i in 0..n
        invariant
            n == cases@.len(),
            out@.len() == i,
            forall|j: int| 0 <= j < i ==> ((#[trigger] out@[j]).name@ == unit_test_name(
                cases@[j].package@,
                cases@[j].test_name@,
            ) && (out@[j].payload matches TestPayload::Cargo { package: p, test_name: t, kind } && p@
                == cases@[j].package@ && t@ == cases@[j].test_name@ && kind == TestKind::Unit)),
            forall|j: int| 0 <= j < i ==> (#[trigger] out@[j]).manager
                == TestManager::WellKnownTestManager(WellKnownTestManager::Cargo),
    {
        let c = &cases[i];
        out.push(unit_test(c.package.as_str(), owned(c.test_name.as_str())));
    }
    out
}

/// A workspace package as `cargo metadata` describes it: its name, its id,
/// and whether any of its targets has doctests.
#[derive(Debug, Clone, PartialEq, Eq)]
pub struct MetadataPackage {
    pub name: String,
    pub id: String,
    pub has_doctests: bool,
}

/// One message of `cargo test --no-run --message-format=json`.
#[derive(Debug, Clone, PartialEq, Eq)]
pub struct CompilerArtifact {
    pub reason: String,
    pub package_id: String,
    pub profile_test: bool,
    pub executable: Option<String>,
}

/// The package a metadata id names: the last listed with that id, as a map
/// built from the list keeps.
pub open spec fn package_by_id(pkgs: Seq<MetadataPackage>, id: Seq<char>) -> Option<MetadataPackage>
    decreases pkgs.len(),
{
    if pkgs.len() == 0 {
        None
    } else if pkgs.last().id@ == id {
        Some(pkgs.last())
    } else {
        package_by_id(pkgs.drop_last(), id)
    }
}

fn find_package(pkgs: &Vec<MetadataPackage>, id: &str) -> (r: Option<usize>)
    ensures
        match r {
            Some(k) => k < pkgs@.len() && package_by_id(pkgs@, id@) == Some(pkgs@[k as int]),
            None => package_by_id(pkgs@, id@) is None,
        },
{
    let target = chars_of(id);
    let mut i = pkgs.len();
    assert(pkgs@.take(i as int) =~= pkgs@);
    while i > 0
        invariant
            i <= pkgs@.len(),
            target@ == id@,
            package_by_id(pkgs@, id@) == package_by_id(pkgs@.take(i as int), id@),
        decreases i,
    {
        let k = i - 1;
        assert(pkgs@.take(i as int).drop_last() =~= pkgs@.take(k as int));
        assert(pkgs@.take(i as int).last() == pkgs@[k as int]);
        let c = chars_of(pkgs[k].id.as_str());
        if chars_eq(c.as_slice(), target.as_slice()) {
            return Some(k);
        }
        i = k;
    }
    None
}

/// Whether a build message is a test binary of a workspace package.
pub open spec fn is_test_binary(a: CompilerArtifact, pkgs: Seq<MetadataPackage>) -> bool {
    &&& a.reason@ == "compiler-artifact"@
    &&& a.profile_test
    &&& a.executable is Some
    &&& package_by_id(pkgs, a.package_id@) is Some
}

/// The (executable, package name) of every test binary among the build
/// messages, in order: the binaries whose tests `--list` enumerates.
pub open spec fn test_binaries_of(arts: Seq<CompilerArtifact>, pkgs: Seq<MetadataPackage>) -> Seq<(Seq<char>, Seq<char>)>
    decreases arts.len(),
{
    if arts.len() == 0 {
        seq![]
    } else {
        let rest = test_binaries_of(arts.drop_last(), pkgs);
        let a = arts.last();
        if is_test_binary(a, pkgs) {
            rest.push((a.executable->0@, package_by_id(pkgs, a.package_id@)->0.name@))
        } else {
            rest
        }
    }
}

pub open spec fn pair_views(v: Seq<(String, String)>) -> Seq<(Seq<char>, Seq<char>)> {
    v.map_values(|p: (String, String)| (p.0@, p.1@))
}

/// Selects the test binaries of workspace packages from the build messages.
pub fn test_binaries(arts: &Vec<CompilerArtifact>, pkgs: &Vec<MetadataPackage>) -> (r: Vec<(String, String)>)
    ensures
        pair_views(r@) == test_binaries_of(arts@, pkgs@),
{
    let reason = chars_of("compiler-artifact");
    let mut out: Vec<(String, String)> = Vec::new();
    let n = arts.len();
    for i in 0..n
        invariant
            n == arts@.len(),
            reason@ == "compiler-artifact"@,
            pair_views(out@) == test_binaries_of(arts@.take(i as int), pkgs@),
    {
        let a = &arts[i];
        assert(arts@.take(i + 1).drop_last() =~= arts@.take(i as int));
        let r = chars_of(a.reason.as_str());
        if chars_eq(r.as_slice(), reason.as_slice()) && a.profile_test {
            match &a.executable {
                Some(exe) => match find_package(pkgs, a.package_id.as_str()) {
                    Some(k) => {
                        let ghost prev = out@;
                        let e = (owned(exe.as_str()), owned(pkgs[k].name.as_str()));
                        out.push(e);
                        assert(pair_views(out@) =~= pair_views(prev).push((e.0@, e.1@)));
                    },
                    None => {},
                },
                None => {},
            }
        }
    }
    assert(arts@.take(n as int) =~= arts@);
    out
}

/// Whether some package of `pkgs` has the id `id`.
pub open spec fn has_id(pkgs: Seq<MetadataPackage>, id: Seq<char>) -> bool {
    exists|j: int| 0 <= j < pkgs.len() && (#[trigger] pkgs[j]).id@ == id
}

/// The packages whose doctests run, in listed order: those with doctests,
/// each id once, as the last package listed under it (what a map built from
/// the list holds).
pub open spec fn doctest_packages(pkgs: Seq<MetadataPackage>) -> Seq<Seq<char>>
    decreases pkgs.len(),
{
    if pkgs.len() == 0 {
        seq![]
    } else {
        let rest = doctest_packages(pkgs.drop_first());
        let p = pkgs[0];
        if p.has_doctests && !has_id(pkgs.drop_first(), p.id@) {
            seq![p.name@] + rest
        } else {
            rest
        }
    }
}

fn id_later(pkgs: &Vec<MetadataPackage>, i: usize) -> (r: bool)
    requires
        i < pkgs@.len(),
    ensures
        r == has_id(pkgs@.skip(i + 1), pkgs@[i as int].id@),
{
    let target = chars_of(pkgs[i].id.as_str());
    let n = pkgs.len();
    let mut j = i + 1;
    while j < n
        invariant
            i < j <= n,
            n == pkgs@.len(),
            target@ == pkgs@[i as int].id@,
            forall|k: int| i < k < j ==> (#[trigger] pkgs@[k]).id@ != pkgs@[i as int].id@,
        decreases n - j,
    {
        let c = chars_of(pkgs[j].id.as_str());
        if chars_eq(c.as_slice(), target.as_slice()) {
            assert(pkgs@.skip(i + 1)[j - i - 1] == pkgs@[j as int]);
            return true;
        }
        j = j + 1;
    }
    assert forall|k: int| 0 <= k < pkgs@.skip(i + 1).len() implies (#[trigger] pkgs@.skip(i + 1)[k]).id@ != pkgs@[i as int].id@ by {
        assert(pkgs@.skip(i + 1)[k] == pkgs@[i + 1 + k]);
    }
    false
}

/// The synthetic doctest tests of a workspace: one per package with doctests.
pub fn doctest_tests(pkgs: &Vec<MetadataPackage>) -> (r: Vec<Test>)
    ensures
        r@.map_values(|t: Test| t.name@) == doctest_packages(pkgs@).map_values(
            |n: Seq<char>| n + "::[doctests]"@,
        ),
        forall|k: int| 0 <= k < r@.len() ==> (#[trigger] r@[k]).manager
            == TestManager::WellKnownTestManager(WellKnownTestManager::Cargo) && (r@[k].payload matches TestPayload::Cargo { package: p, test_name: t, kind } && p@ + "::[doctests]"@ == r@[k].name@ && t@ == "[doctests]"@ && kind == TestKind::Doctests),
{
    let n = pkgs.len();
    let mut out: Vec<Test> = Vec::new();
    let mut i = n;
    assert(pkgs@.skip(n as int) =~= Seq::<MetadataPackage>::empty());
    while i > 0
        invariant
            i <= n,
            n == pkgs@.len(),
            out@.map_values(|t: Test| t.name@) == doctest_packages(pkgs@.skip(i as int)).map_values(
                |m: Seq<char>| m + "::[doctests]"@,
            ),
            forall|k: int| 0 <= k < out@.len() ==> (#[trigger] out@[k]).manager
                == TestManager::WellKnownTestManager(WellKnownTestManager::Cargo) && (out@[k].payload matches TestPayload::Cargo { package: p, test_name: t, kind } && p@ + "::[doctests]"@ == out@[k].name@ && t@ == "[doctests]"@ && kind == TestKind::Doctests),
        decreases i,
    {
        let k = i - 1;
        let ghost s = pkgs@.skip(k as int);
        assert(s.drop_first() =~= pkgs@.skip(i as int));
        assert(s[0] == pkgs@[k as int]);
        let later = id_later(pkgs, k);
        if pkgs[k].has_doctests && !later {
            let t = doctest_test(pkgs[k].name.as_str());
            let ghost prev = out@;
            out.insert(0, t);
            assert(out@.map_values(|t: Test| t.name@) =~= seq![t.name@] + prev.map_values(|t: Test| t.name@));
            assert(doctest_packages(s).map_values(|m: Seq<char>| m + "::[doctests]"@) =~= seq![pkgs@[k as int].name@ + "::[doctests]"@] + doctest_packages(pkgs@.skip(i as int)).map_values(|m: Seq<char>| m + "::[doctests]"@));
            assert forall|q: int| 0 <= q < out@.len() implies (#[trigger] out@[q]).manager
                == TestManager::WellKnownTestManager(WellKnownTestManager::Cargo) && (out@[q].payload matches TestPayload::Cargo { package: p, test_name: tn, kind } && p@ + "::[doctests]"@ == out@[q].name@ && tn@ == "[doctests]"@ && kind == TestKind::Doctests) by {
                if q > 0 {
                    assert(out@[q] == prev[q - 1]);
                }
            }
        }
        i = k;
    }
    assert(pkgs@.skip(0) =~= pkgs@);
    out
}

/// The run of one cargo test: the command for its kind and the backend,
/// always through `cargo`.
pub open spec fn spec_cargo_args(kind: TestKind, package: Seq<char>, test_name: Seq<char>, manifest_path: Seq<char>, backend: CargoBackend) -> Seq<Seq<char>> {
    match kind {
        TestKind::Unit => match backend {
            CargoBackend::CargoTest => seq![
                "test"@,
                "--manifest-path"@,
                manifest_path,
                "-p"@,
                package,
                "--"@,
                "--exact"@,
                test_name,
                "--test-threads=1"@,
            ],
            CargoBackend::Nextest(source) => seq!["nextest"@, "run"@] + source.spec_source_args()
                + seq!["-E"@, spec_nextest_filter(package, test_name)],
        },
        TestKind::Doctests => seq!["test"@, "--manifest-path"@, manifest_path, "--doc"@, "-p"@, package],
    }
}

/// The command that runs `test`, or the failed outcome of a test that is not cargo's.
pub fn cargo_invocation(test: &Test, manifest_path: &str, backend: &CargoBackend) -> (r: Result<Invocation, TestOutcome>)
    ensures
        match test.payload {
            TestPayload::Cargo { package, test_name, kind } => r matches Ok(inv) && (inv.program@
                == "cargo"@ && strs(inv.args@) == spec_cargo_args(
                kind,
                package@,
                test_name@,
                manifest_path@,
                *backend,
            ) && inv.dir is None && !inv.keep_output_on_spawn_error),
            _ => r matches Err(o) && (!o.passed && o.duration_ms == 0 && o.stderr@
                == malformed_message("cargo"@, "package"@)),
        },
{
    match &test.payload {
        TestPayload::Cargo { package, test_name, kind } => {
            let args = match kind {
                TestKind::Unit => match backend {
                    CargoBackend::CargoTest => {
                        let mut v: Vec<String> = Vec::new();
                        v.push(owned("test"));
                        v.push(owned("--manifest-path"));
                        v.push(owned(manifest_path));
                        v.push(owned("-p"));
                        v.push(owned(package.as_str()));
                        v.push(owned("--"));
                        v.push(owned("--exact"));
                        v.push(owned(test_name.as_str()));
                        v.push(owned("--test-threads=1"));
                        assert(strs(v@) =~= spec_cargo_args(*kind, package@, test_name@, manifest_path@, *backend));
                        v
                    },
                    CargoBackend::Nextest(source) => nextest_run_args(source, package.as_str(), test_name.as_str()),
                },
                TestKind::Doctests => {
                    let mut v: Vec<String> = Vec::new();
                    v.push(owned("test"));
                    v.push(owned("--manifest-path"));
                    v.push(owned(manifest_path));
                    v.push(owned("--doc"));
                    v.push(owned("-p"));
                    v.push(owned(package.as_str()));
                    assert(strs(v@) =~= spec_cargo_args(*kind, package@, test_name@, manifest_path@, *backend));
                    v
                },
            };
            Ok(invocation("cargo", args, None, false))
        },
        _ => Err(malformed_outcome("cargo", "package")),
    }
}

/// The arguments of the metadata query for a manifest.
pub fn metadata_args(manifest_path: &str) -> (r: Vec<String>)
    ensures
        strs(r@) == seq!["metadata"@, "--no-deps"@, "--format-version"@, "1"@, "--manifest-path"@, manifest_path@],
{
    let mut v: Vec<String> = Vec::new();
    v.push(owned("metadata"));
    v.push(owned("--no-deps"));
    v.push(owned("--format-version"));
    v.push(owned("1"));
    v.push(owned("--manifest-path"));
    v.push(owned(manifest_path));
    assert(strs(v@) =~= seq!["metadata"@, "--no-deps"@, "--format-version"@, "1"@, "--manifest-path"@, manifest_path@]);
    v
}

/// The arguments that compile the test binaries and report them as JSON.
pub fn compile_args(manifest_path: &str) -> (r: Vec<String>)
    ensures
        strs(r@) == seq!["test"@, "--no-run"@, "--message-format=json"@, "--manifest-path"@, manifest_path@],
{
    let mut v: Vec<String> = Vec::new();
    v.push(owned("test"));
    v.push(owned("--no-run"));
    v.push(owned("--message-format=json"));
    v.push(owned("--manifest-path"));
    v.push(owned(manifest_path));
    assert(strs(v@) =~= seq!["test"@, "--no-run"@, "--message-format=json"@, "--manifest-path"@, manifest_path@]);
    v
}

/// The error when a test binary cannot be started to list its tests.
pub fn list_spawn_error(exe: &str, error: &str) -> (r: CargoError)
    ensures
        r.spec_message() == "cargo metadata failed: "@ + ("failed to run "@ + exe@ + " --list: "@ + error@),
{
    let a = concat("failed to run ", exe);
    let b = concat(a.as_str(), " --list: ");
    CargoError::MetadataFailed { stderr: concat(b.as_str(), error) }
}

/// The error when a test binary's `--list` fails.
pub fn list_failed_error(exe: &str, stderr: &str) -> (r: CargoError)
    ensures
        r.spec_message() == "cargo metadata failed: "@ + (exe@ + " --list failed: "@ + stderr@),
{
    let a = concat(exe, " --list failed: ");
    CargoError::MetadataFailed { stderr: concat(a.as_str(), stderr) }
}

/// The package of a cargo test; `None` for another manager's test.
pub open spec fn cargo_package(t: Test) -> Option<Seq<char>> {
    match t.payload {
        TestPayload::Cargo { package, .. } => Some(package@),
        _ => None,
    }
}

/// The tests of package `pkg`, in order.
pub open spec fn tests_of_package(tests: Seq<Test>, pkg: Seq<char>) -> Seq<Test>
    decreases tests.len(),
{
    if tests.len() == 0 {
        seq![]
    } else {
        let rest = tests_of_package(tests.drop_last(), pkg);
        if cargo_package(tests.last()) == Some(pkg) {
            rest.push(tests.last())
        } else {
            rest
        }
    }
}

proof fn lemma_no_tests_of_package(tests: Seq<Test>, pkg: Seq<char>)
    requires
        forall|j: int| 0 <= j < tests.len() ==> cargo_package(#[trigger] tests[j]) != Some(pkg),
    ensures
        tests_of_package(tests, pkg) == Seq::<Test>::empty(),
    decreases tests.len(),
{
    if tests.len() > 0 {
        assert forall|j: int| 0 <= j < tests.drop_last().len() implies cargo_package(#[trigger] tests.drop_last()[j]) != Some(pkg) by {
            assert(tests.drop_last()[j] == tests[j]);
        }
        lemma_no_tests_of_package(tests.drop_last(), pkg);
    }
}

/// The cargo tests of a batch grouped by package: each package once, with
/// its tests in order; every cargo test is in its package's group. Other
/// managers' tests are left out.
pub fn group_by_package(tests: Vec<Test>) -> (r: (Vec<String>, Vec<Vec<Test>>))
    ensures
        r.0@.len() == r.1@.len(),
        forall|a: int, b: int| 0 <= a < b < r.0@.len() ==> r.0@[a]@ != r.0@[b]@,
        forall|a: int| 0 <= a < r.0@.len() ==> (#[trigger] r.1@[a])@ == tests_of_package(tests@, r.0@[a]@),
        forall|j: int| 0 <= j < tests@.len() && (#[trigger] cargo_package(tests@[j])) is Some ==> exists|a: int|
            0 <= a < r.0@.len() && Some(#[trigger] r.0@[a]@) == cargo_package(tests@[j]),
{
    let ghost all = tests@;
    let n = tests.len();
    let mut rest = tests;
    let mut keys: Vec<String> = Vec::new();
    let mut groups: Vec<Vec<Test>> = Vec::new();
    let mut i: usize = 0;
    assert(all.skip(0) =~= all);
    while i < n
        invariant
            n == all.len(),
            i <= n,
            rest@ == all.skip(i as int),
            keys@.len() == groups@.len(),
            forall|a: int, b: int| 0 <= a < b < keys@.len() ==> keys@[a]@ != keys@[b]@,
            forall|a: int| 0 <= a < keys@.len() ==> (#[trigger] groups@[a])@ == tests_of_package(all.take(i as int), keys@[a]@),
            forall|j: int| 0 <= j < i && (#[trigger] cargo_package(all[j])) is Some ==> exists|a: int|
                0 <= a < keys@.len() && Some(#[trigger] keys@[a]@) == cargo_package(all[j]),
        decreases n - i,
    {
        assert(rest@[0] == all[i as int]);
        let t = rest.remove(0);
        assert(rest@ =~= all.skip(i + 1));
        assert(all.take(i + 1).drop_last() =~= all.take(i as int));
        assert(all.take(i + 1).last() == t);
        let ghost old_keys = keys@;
        let ghost old_groups = groups@;
        let pkg_opt: Option<String> = match &t.payload {
            TestPayload::Cargo { package, .. } => Some(owned(package.as_str())),
            _ => None,
        };
        match pkg_opt {
            None => {
                assert forall|a: int| 0 <= a < keys@.len() implies (#[trigger] groups@[a])@ == tests_of_package(all.take(i + 1), keys@[a]@) by {}
            },
            Some(pkg) => {
                let pc = chars_of(pkg.as_str());
                let mut k: usize = 0;
                let mut found = false;
                while !found && k < keys.len()
                    invariant
                        k <= keys@.len(),
                        pc@ == pkg@,
                        found ==> k < keys@.len() && keys@[k as int]@ == pkg@,
                        forall|a: int| 0 <= a < k ==> keys@[a]@ != pkg@,
                    decreases keys@.len() - k + (if found {
                        0int
                    } else {
                        1int
                    }),
                {
                    let kc = chars_of(keys[k].as_str());
                    if chars_eq(kc.as_slice(), pc.as_slice()) {
                        found = true;
                    } else {
                        k = k + 1;
                    }
                }
                if found {
                    let mut g = groups.remove(k);
                    g.push(t);
                    groups.insert(k, g);
                    assert forall|a: int| 0 <= a < keys@.len() implies (#[trigger] groups@[a])@ == tests_of_package(all.take(i + 1), keys@[a]@) by {
                        if a != k {
                            assert(groups@[a] == old_groups[a]);
                        }
                    }
                } else {
                    proof {
                        assert forall|j: int| 0 <= j < all.take(i as int).len() implies cargo_package(#[trigger] all.take(i as int)[j]) != Some(pkg@) by {
                            assert(all.take(i as int)[j] == all[j]);
                            if cargo_package(all[j]) == Some(pkg@) {
                                let a = choose|a: int| 0 <= a < keys@.len() && Some(#[trigger] keys@[a]@) == cargo_package(all[j]);
                                assert(keys@[a]@ == pkg@);
                            }
                        }
                        lemma_no_tests_of_package(all.take(i as int), pkg@);
                    }
                    let mut g: Vec<Test> = Vec::new();
                    g.push(t);
                    keys.push(pkg);
                    groups.push(g);
                    assert(groups@[groups@.len() - 1]@ =~= tests_of_package(all.take(i + 1), pkg@));
                    assert forall|a: int| 0 <= a < keys@.len() implies (#[trigger] groups@[a])@ == tests_of_package(all.take(i + 1), keys@[a]@) by {
                        if a < old_keys.len() {
                            assert(groups@[a] == old_groups[a]);
                            assert(keys@[a] == old_keys[a]);
                        }
                    }
                }
                assert forall|j: int| 0 <= j < i + 1 && (#[trigger] cargo_package(all[j])) is Some implies exists|a: int|
                    0 <= a < keys@.len() && Some(#[trigger] keys@[a]@) == cargo_package(all[j]) by {
                    if j < i {
                        let a = choose|a: int| 0 <= a < old_keys.len() && Some(#[trigger] old_keys[a]@) == cargo_package(all[j]);
                        assert(keys@[a] == old_keys[a]);
                    } else {
                        if found {
                            assert(keys@[k as int]@ == pkg@);
                        } else {
                            assert(keys@[keys@.len() - 1]@ == pkg@);
                        }
                    }
                }
            },
        }
        i = i + 1;
    }
    assert(all.take(n as int) =~= all);
    (keys, groups)
}

/// The tests of a batch that no package group takes (other managers'
/// tests), in order.
pub open spec fn ungrouped(tests: Seq<Test>) -> Seq<Test>
    decreases tests.len(),
{
    if tests.len() == 0 {
        seq![]
    } else {
        let rest = ungrouped(tests.drop_last());
        if cargo_package(tests.last()) is None {
            rest.push(tests.last())
        } else {
            rest
        }
    }
}

/// The events of the tests that `group_by_package` leaves out, so that every
/// test handed to the cargo manager is reported: for each such test, in
/// order, a `Started` and then a failed `Finished` that says its payload has
/// no cargo package.
pub fn ungrouped_events(tests: &Vec<Test>) -> (r: Vec<TestEvent>)
    ensures
        r@.len() == 2 * ungrouped(tests@).len(),
        forall|k: int| 0 <= k < ungrouped(tests@).len() ==> {
            &&& (#[trigger] r@[2 * k]) matches TestEvent::Started { name, manager }
            &&& name@ == ungrouped(tests@)[k].name@
            &&& manager == TestManager::WellKnownTestManager(WellKnownTestManager::Cargo)
        },
        forall|k: int| 0 <= k < ungrouped(tests@).len() ==> {
            &&& (#[trigger] r@[2 * k + 1]) matches TestEvent::Finished { name, manager, outcome }
            &&& name@ == ungrouped(tests@)[k].name@
            &&& manager == TestManager::WellKnownTestManager(WellKnownTestManager::Cargo)
            &&& !outcome.passed
            &&& outcome.duration_ms == 0
            &&& outcome.stderr@ == malformed_message("cargo"@, "package"@)
        },
{
    let mut r: Vec<TestEvent> = Vec::new();
    let mut i: usize = 0;
    assert(tests@.take(0) =~= Seq::<Test>::empty());
    while i < tests.len()
        invariant
            i <= tests@.len(),
            r@.len() == 2 * ungrouped(tests@.take(i as int)).len(),
            forall|k: int| 0 <= k < ungrouped(tests@.take(i as int)).len() ==> {
                &&& (#[trigger] r@[2 * k]) matches TestEvent::Started { name, manager }
                &&& name@ == ungrouped(tests@.take(i as int))[k].name@
                &&& manager == TestManager::WellKnownTestManager(WellKnownTestManager::Cargo)
            },
            forall|k: int| 0 <= k < ungrouped(tests@.take(i as int)).len() ==> {
                &&& (#[trigger] r@[2 * k + 1]) matches TestEvent::Finished { name, manager, outcome }
                &&& name@ == ungrouped(tests@.take(i as int))[k].name@
                &&& manager == TestManager::WellKnownTestManager(WellKnownTestManager::Cargo)
                &&& !outcome.passed
                &&& outcome.duration_ms == 0
                &&& outcome.stderr@ == malformed_message("cargo"@, "package"@)
            },
        decreases tests@.len() - i,
    {
        let ghost before = ungrouped(tests@.take(i as int));
        let ghost old_r = r@;
        assert(tests@.take(i + 1).drop_last() =~= tests@.take(i as int));
        assert(tests@.take(i + 1).last() == tests@[i as int]);
        let t = &tests[i];
        let grouped = match &t.payload {
            TestPayload::Cargo { .. } => true,
            _ => false,
        };
        if !grouped {
            let name = owned(t.name.as_str());
            r.push(TestEvent::Started { name, manager: manager_identity() });
            let outcome = malformed_outcome("cargo", "package");
            r.push(TestEvent::Finished { name: owned(t.name.as_str()), manager: manager_identity(), outcome });
            let ghost after = ungrouped(tests@.take(i + 1));
            assert(after == before.push(tests@[i as int]));
            assert forall|k: int| 0 <= k < after.len() implies {
                &&& (#[trigger] r@[2 * k]) matches TestEvent::Started { name, manager }
                &&& name@ == after[k].name@
                &&& manager == TestManager::WellKnownTestManager(WellKnownTestManager::Cargo)
            } by {
                if k < before.len() {
                    assert(r@[2 * k] == old_r[2 * k]);
                }
            }
            assert forall|k: int| 0 <= k < after.len() implies {
                &&& (#[trigger] r@[2 * k + 1]) matches TestEvent::Finished { name, manager, outcome }
                &&& name@ == after[k].name@
                &&& manager == TestManager::WellKnownTestManager(WellKnownTestManager::Cargo)
                &&& !outcome.passed
                &&& outcome.duration_ms == 0
                &&& outcome.stderr@ == malformed_message("cargo"@, "package"@)
            } by {
                if k < before.len() {
                    assert(r@[2 * k + 1] == old_r[2 * k + 1]);
                }
            }
        } else {
            assert(ungrouped(tests@.take(i + 1)) == before);
        }
        i = i + 1;
    }
    assert(tests@.take(tests@.len() as int) =~= tests@);
    r
}

} // verus!
