//! Test managers: what each one discovers, how it names its tests, how it
//! reads its tool's version, and how it combines a run's output.

use vstd::prelude::*;

use crate::api::TestManager;
use crate::text::{
    append_chars, chars_of, concat, dec, dec_string, dotted, dotted_string, owned, string_of, trim,
    trim_chars,
};
use crate::version::{first_line, first_line_chars, last_line, last_line_chars, or_empty};

pub mod buck2;
pub mod cargo;
pub mod cmake;
pub mod composer;
pub mod dart;
pub mod dotnet;
pub mod elixir;
pub mod go;
pub mod kotlin;
pub mod maven;
pub mod nextest;
pub mod nix;
pub mod nix_builder;
pub mod npm;
pub mod ocaml;
pub mod pytest;
pub mod r;
pub mod rspec;
pub mod sbt;

verus! {

/// Whether a cargo test is a unit/integration test or a package's doctests.
#[derive(Debug, Clone, Copy, PartialEq, Eq)]
pub enum TestKind {
    Unit,
    Doctests,
}

/// What a manager needs to run one of its tests. Opaque to every other manager.
#[derive(Debug, Clone, PartialEq, Eq)]
pub enum TestPayload {
    Cargo { package: String, test_name: String, kind: TestKind },
    Buck2 { target: String },
    Cmake { cmake_lists_path: String },
    Dart { pubspec_path: String },
    Dotnet { project_path: String },
    Go { go_mod_path: String },
    Nix { build_target: String },
    Npm { package_json_path: String },
    Pytest { config_path: String },
    R { description_path: String },
    Sbt { build_sbt_path: String },
}

/// A discovered test: its name, the manager that owns it, and that manager's payload.
#[derive(Debug, Clone, PartialEq, Eq)]
pub struct Test {
    pub name: String,
    pub manager: TestManager,
    pub payload: TestPayload,
}

/// How a test ended.
#[derive(Debug, Clone, PartialEq, Eq)]
pub struct TestOutcome {
    pub passed: bool,
    pub duration_ms: u64,
    pub stderr: String,
}

/// A step in a test's life as a manager reports it.
#[derive(Debug, Clone, PartialEq, Eq)]
pub enum TestEvent {
    Discovered { name: String, manager: TestManager },
    Started { name: String, manager: TestManager },
    Finished { name: String, manager: TestManager, outcome: TestOutcome },
}

/// The captured output of a tool's version command.
#[derive(Debug, Clone, PartialEq, Eq)]
pub struct ToolOutput {
    pub stdout: String,
    pub stderr: String,
}

/// `String::from_utf8_lossy`: `bytes` decoded as UTF-8, each invalid sequence
/// replaced by U+FFFD.
pub uninterp spec fn utf8_lossy(bytes: Seq<u8>) -> Seq<char>;

/// `String::from_utf8_lossy(bytes).to_string()`. Its result is named by
/// `utf8_lossy`; the decoding itself is not restated.
#[verifier::external_body]
pub(crate) fn lossy_string(bytes: &[u8]) -> (r: String)
    ensures
        r@ == utf8_lossy(bytes@),
{
    String::from_utf8_lossy(bytes).to_string()
}

/// Appends `piece` to `combined` on a new line; an empty piece adds nothing and
/// no newline precedes the first piece.
pub open spec fn join_output(combined: Seq<char>, piece: Seq<char>) -> Seq<char> {
    if piece.len() == 0 {
        combined
    } else if combined.len() == 0 {
        piece
    } else {
        combined + seq!['\n'] + piece
    }
}

/// Joining output is associative and has the empty text as identity on
/// both sides: gathering a suite's output step by step gives the same text
/// however the pieces are grouped.
pub proof fn lemma_join_output_monoid(a: Seq<char>, b: Seq<char>, c: Seq<char>)
    ensures
        join_output(join_output(a, b), c) == join_output(a, join_output(b, c)),
        join_output(a, seq![]) == a,
        join_output(seq![], a) == a,
{
    if a.len() > 0 && b.len() > 0 && c.len() > 0 {
        assert(a + seq!['\n'] + b + seq!['\n'] + c =~= a + seq!['\n'] + (b + seq!['\n'] + c));
    }
}

pub fn join_output_into(combined: &mut String, piece: &str)
    ensures
        final(combined)@ == join_output(old(combined)@, piece@),
{
    let p = chars_of(piece);
    if p.len() == 0 {
        return;
    }
    let mut c = chars_of(combined.as_str());
    if c.len() > 0 {
        c.push('\n');
    }
    append_chars(&mut c, &p);
    *combined = string_of(&c);
}

/// A process's output as the runners report it: stdout, then stderr on a new
/// line when there is any.
pub open spec fn combined_output(stdout: Seq<u8>, stderr: Seq<u8>) -> Seq<char> {
    join_output(utf8_lossy(stdout), utf8_lossy(stderr))
}

/// Combines a finished process's stdout and stderr.
pub fn combine_output(stdout: &[u8], stderr: &[u8]) -> (r: String)
    ensures
        r@ == combined_output(stdout@, stderr@),
{
    let mut combined = lossy_string(stdout);
    let err = lossy_string(stderr);
    join_output_into(&mut combined, err.as_str());
    combined
}

/// Appends a step's stdout and then its stderr to the running output.
pub fn append_output(combined: &mut String, stdout: &[u8], stderr: &[u8])
    ensures
        final(combined)@ == join_output(
            join_output(old(combined)@, utf8_lossy(stdout@)),
            utf8_lossy(stderr@),
        ),
{
    let out = lossy_string(stdout);
    join_output_into(combined, out.as_str());
    let err = lossy_string(stderr);
    join_output_into(combined, err.as_str());
}

/// `Path::parent` of a path given as text, rendered back as text.
pub uninterp spec fn path_parent(path: Seq<char>) -> Option<Seq<char>>;

/// `Path::new(path).parent()`, as a string. Its result is named by `path_parent`.
#[verifier::external_body]
pub(crate) fn parent_of(path: &str) -> (r: Option<String>)
    ensures
        match r {
            Some(p) => path_parent(path@) == Some(p@),
            None => path_parent(path@) is None,
        },
{
    std::path::Path::new(path).parent().map(|p| p.to_string_lossy().into_owned())
}

/// The directory a manager runs in: the parent of its config file, or `.`
/// when that parent is missing or empty.
pub open spec fn run_dir(path: Seq<char>) -> Seq<char> {
    match path_parent(path) {
        Some(p) => if p.len() > 0 {
            p
        } else {
            "."@
        },
        None => "."@,
    }
}

pub fn run_dir_of(path: &str) -> (r: String)
    ensures
        r@ == run_dir(path@),
{
    match parent_of(path) {
        Some(p) => {
            let c = chars_of(p.as_str());
            if c.len() > 0 {
                p
            } else {
                owned(".")
            }
        },
        None => owned("."),
    }
}

/// The parent of a config file (possibly empty), or `.` when it has none.
pub open spec fn parent_or_dot(path: Seq<char>) -> Seq<char> {
    match path_parent(path) {
        Some(p) => p,
        None => "."@,
    }
}

pub fn parent_or_dot_of(path: &str) -> (r: String)
    ensures
        r@ == parent_or_dot(path@),
{
    match parent_of(path) {
        Some(p) => p,
        None => owned("."),
    }
}

/// A single discovered test for the managers that run their whole suite as one.
pub fn single_test(name: &str, manager: TestManager, payload: TestPayload) -> (r: Vec<Test>)
    ensures
        r@.len() == 1,
        r@[0].name@ == name@,
        r@[0].manager == manager,
        r@[0].payload == payload,
{
    let mut v: Vec<Test> = Vec::new();
    v.push(Test { name: owned(name), manager, payload });
    v
}

// ---------------------------------------------------------------------------
// Version gates
// ---------------------------------------------------------------------------

/// `(a.0, a.1) < (b.0, b.1)` in the lexicographic order of tuples.
pub open spec fn pair_lt(a: (u32, u32), b: (u32, u32)) -> bool {
    a.0 < b.0 || (a.0 == b.0 && a.1 < b.1)
}

/// A tool older than a manager supports: the minimum and what was found.
#[derive(Debug, Clone, PartialEq, Eq)]
pub struct TooOld {
    pub minimum: String,
    pub found: String,
}

/// The check of a `major.minor` version: `Ok` with the version when one was
/// read and it is at least `min`; else the minimum as `major.minor` and what
/// was found, which is `raw` when no version was read and the version otherwise.
pub open spec fn gate_pair(parsed: Option<(u32, u32)>, min: (u32, u32), raw: Seq<char>) -> Result<
    (u32, u32),
    (Seq<char>, Seq<char>),
> {
    match parsed {
        None => Err((dotted(min.0, min.1), raw)),
        Some(v) => if pair_lt(v, min) {
            Err((dotted(min.0, min.1), dotted(v.0, v.1)))
        } else {
            Ok(v)
        },
    }
}

/// The `major.minor` gate accepts exactly the versions that are not older
/// than the minimum in the order of (major, minor) pairs, passes the version
/// on unchanged, and refuses output with no version in it.
pub proof fn lemma_version_gate(parsed: Option<(u32, u32)>, min: (u32, u32), raw: Seq<char>)
    ensures
        gate_pair(parsed, min, raw) is Ok <==> (parsed matches Some(v) && (v.0 > min.0 || (v.0
            == min.0 && v.1 >= min.1))),
        gate_pair(parsed, min, raw) is Ok ==> Some(gate_pair(parsed, min, raw)->Ok_0) == parsed,
        forall|v: (u32, u32), w: (u32, u32)|
            #![trigger gate_pair(Some(v), min, raw), gate_pair(Some(w), min, raw)]
            gate_pair(Some(v), min, raw) is Ok && (w.0 > v.0 || (w.0 == v.0 && w.1 >= v.1))
                ==> gate_pair(Some(w), min, raw) is Ok,
{
}

/// The major-version gate accepts exactly the versions at least the minimum.
pub proof fn lemma_major_gate(parsed: Option<u32>, min: u32, raw: Seq<char>)
    ensures
        gate_major(parsed, min, raw) is Ok <==> (parsed is Some && parsed->0 >= min),
        gate_major(parsed, min, raw) is Ok ==> Some(gate_major(parsed, min, raw)->Ok_0) == parsed,
{
}

pub fn check_pair(parsed: Option<(u32, u32)>, min: (u32, u32), raw: String) -> (r: Result<
    (u32, u32),
    TooOld,
>)
    ensures
        match r {
            Ok(v) => gate_pair(parsed, min, raw@) == Ok::<(u32, u32), (Seq<char>, Seq<char>)>(v),
            Err(e) => gate_pair(parsed, min, raw@) == Err::<(u32, u32), (Seq<char>, Seq<char>)>(
                (e.minimum@, e.found@),
            ),
        },
        parsed is None ==> r is Err,
        forall|v: (u32, u32)| parsed == Some(v) ==> (r is Ok <==> (v.0 > min.0 || (v.0 == min.0 && v.1 >= min.1))),
        forall|v: (u32, u32)| r == Ok::<(u32, u32), TooOld>(v) ==> parsed == Some(v),
{
    let minimum = dotted_string(min.0, min.1);
    match parsed {
        None => Err(TooOld { minimum, found: raw }),
        Some(v) => {
            if v.0 < min.0 || (v.0 == min.0 && v.1 < min.1) {
                Err(TooOld { minimum, found: dotted_string(v.0, v.1) })
            } else {
                Ok(v)
            }
        },
    }
}

/// The check of a major version alone, as `gate_pair` does for two numbers.
pub open spec fn gate_major(parsed: Option<u32>, min: u32, raw: Seq<char>) -> Result<
    u32,
    (Seq<char>, Seq<char>),
> {
    match parsed {
        None => Err((dec(min as nat), raw)),
        Some(v) => if v < min {
            Err((dec(min as nat), dec(v as nat)))
        } else {
            Ok(v)
        },
    }
}

pub fn check_major(parsed: Option<u32>, min: u32, raw: String) -> (r: Result<u32, TooOld>)
    ensures
        match r {
            Ok(v) => gate_major(parsed, min, raw@) == Ok::<u32, (Seq<char>, Seq<char>)>(v),
            Err(e) => gate_major(parsed, min, raw@) == Err::<u32, (Seq<char>, Seq<char>)>(
                (e.minimum@, e.found@),
            ),
        },
        parsed is None ==> r is Err,
        forall|v: u32| parsed == Some(v) ==> (r is Ok <==> v >= min),
        forall|v: u32| r == Ok::<u32, TooOld>(v) ==> parsed == Some(v),
{
    let minimum = dec_string(min);
    match parsed {
        None => Err(TooOld { minimum, found: raw }),
        Some(v) => {
            if v < min {
                Err(TooOld { minimum, found: dec_string(v) })
            } else {
                Ok(v)
            }
        },
    }
}

/// `text.lines().next().unwrap_or("").trim()`.
pub open spec fn first_line_found(text: Seq<char>) -> Seq<char> {
    trim(or_empty(first_line(text)))
}

pub fn first_line_found_of(text: &str) -> (r: String)
    ensures
        r@ == first_line_found(text@),
{
    let c = chars_of(text);
    let l = match first_line_chars(c.as_slice()) {
        Some(l) => l,
        None => Vec::new(),
    };
    let t = trim_chars(l.as_slice());
    string_of(t.as_slice())
}

/// `text.trim().lines().last().unwrap_or("").trim()`.
pub open spec fn last_line_found(text: Seq<char>) -> Seq<char> {
    trim(or_empty(last_line(trim(text))))
}

pub fn last_line_found_of(text: &str) -> (r: String)
    ensures
        r@ == last_line_found(text@),
{
    let c = chars_of(text);
    let tc = trim_chars(c.as_slice());
    let l = match last_line_chars(tc.as_slice()) {
        Some(l) => l,
        None => Vec::new(),
    };
    let t = trim_chars(l.as_slice());
    string_of(t.as_slice())
}

/// `path.unwrap_or(default)`.
pub open spec fn or_default(path: Option<Seq<char>>, default: Seq<char>) -> Seq<char> {
    match path {
        Some(p) => p,
        None => default,
    }
}

pub fn or_default_str(path: Option<&str>, default: &str) -> (r: String)
    ensures
        r@ == or_default(
            match path {
                Some(p) => Some(p@),
                None => None,
            },
            default@,
        ),
{
    match path {
        Some(p) => owned(p),
        None => owned(default),
    }
}

/// The string `scripts.test` of the JSON document `text`: `None` when
/// `text` is not JSON, `Some(None)` when it has no such string.
pub uninterp spec fn json_test_script(text: Seq<char>) -> Option<Option<Seq<char>>>;

/// `serde_json::from_str::<serde_json::Value>(text)`, then
/// `json["scripts"]["test"].as_str()`. Its result is named by `json_test_script`.
#[verifier::external_body]
fn test_script_of(text: &str) -> (r: Option<Option<String>>)
    ensures
        match r {
            None => json_test_script(text@) is None,
            Some(None) => json_test_script(text@) == Some(None::<Seq<char>>),
            Some(Some(s)) => json_test_script(text@) == Some(Some(s@)),
        },
{
    let json: serde_json::Value = serde_json::from_str(text).ok()?;
    Some(json["scripts"]["test"].as_str().map(|s| s.to_string()))
}

/// Whether the JSON document `text` declares a `test` script.
pub open spec fn declares_test_script(text: Seq<char>) -> bool {
    json_test_script(text) matches Some(Some(_))
}

pub fn has_test_script(text: &str) -> (r: bool)
    ensures
        r == declares_test_script(text@),
{
    match test_script_of(text) {
        Some(Some(_)) => true,
        _ => false,
    }
}

/// The first of `candidates` that exists, by the flags in `exists`.
pub open spec fn first_existing(candidates: Seq<Seq<char>>, exists: Seq<bool>) -> Option<Seq<char>>
    decreases candidates.len(),
{
    if candidates.len() == 0 || exists.len() == 0 {
        None
    } else if exists[0] {
        Some(candidates[0])
    } else {
        first_existing(candidates.drop_first(), exists.drop_first())
    }
}

pub fn first_existing_of(candidates: &Vec<String>, exists: &[bool]) -> (r: Option<String>)
    ensures
        match r {
            Some(p) => first_existing(crate::text::strs(candidates@), exists@) == Some(p@),
            None => first_existing(crate::text::strs(candidates@), exists@) is None,
        },
{
    let n = candidates.len();
    let m = exists.len();
    let mut i: usize = 0;
    assert(crate::text::strs(candidates@).skip(0) =~= crate::text::strs(candidates@));
    assert(exists@.skip(0) =~= exists@);
    while i < n && i < m
        invariant
            n == candidates@.len(),
            m == exists@.len(),
            i <= n,
            i <= m,
            first_existing(crate::text::strs(candidates@), exists@) == first_existing(
                crate::text::strs(candidates@).skip(i as int),
                exists@.skip(i as int),
            ),
        decreases n - i,
    {
        assert(crate::text::strs(candidates@).skip(i as int).drop_first() =~= crate::text::strs(
            candidates@,
        ).skip(i + 1));
        assert(exists@.skip(i as int).drop_first() =~= exists@.skip(i + 1));
        if exists[i] {
            return Some(owned(candidates[i].as_str()));
        }
        i = i + 1;
    }
    None
}

/// A configured path as a ghost text.
pub open spec fn opt_view(path: Option<&str>) -> Option<Seq<char>> {
    match path {
        Some(p) => Some(p@),
        None => None,
    }
}

// ---------------------------------------------------------------------------
// Running a suite
// ---------------------------------------------------------------------------

/// A command a manager runs: the program, its arguments, the directory it
/// runs in (`None`: the runner's own), and whether the output gathered so far
/// is kept when the program cannot be started.
#[derive(Debug, Clone, PartialEq, Eq)]
pub struct Invocation {
    pub program: String,
    pub args: Vec<String>,
    pub dir: Option<String>,
    pub keep_output_on_spawn_error: bool,
}

/// How one command of a suite ended.
#[derive(Debug, Clone, PartialEq, Eq)]
pub enum StepOutcome {
    /// It ran: whether it exited successfully, and its raw output.
    Ran { success: bool, stdout: Vec<u8>, stderr: Vec<u8> },
    /// It could not be started; the error's text.
    SpawnFailed { error: String },
}

/// What follows a command of a suite.
#[derive(Debug, Clone, PartialEq, Eq)]
pub enum StepNext {
    /// Run the next command, with the output gathered so far.
    Continue { combined: String },
    /// The suite is over: whether it passed and its output.
    Finish { passed: bool, output: String },
}

/// After a command that ran, its stdout and stderr are appended to the
/// output; a failure or the last command ends the suite. A command that could
/// not start ends it failed, with the error's text after the output so far or
/// in its place.
pub open spec fn spec_after_step(
    combined: Seq<char>,
    is_last: bool,
    keep: bool,
    outcome: StepOutcome,
) -> (bool, bool, Seq<char>) {
    match outcome {
        StepOutcome::Ran { success, stdout, stderr } => {
            let c = join_output(join_output(combined, utf8_lossy(stdout@)), utf8_lossy(stderr@));
            (!success || is_last, success, c)
        },
        StepOutcome::SpawnFailed { error } => (
            true,
            false,
            if keep {
                combined + error@
            } else {
                error@
            },
        ),
    }
}

pub fn after_step(combined: String, is_last: bool, keep: bool, outcome: StepOutcome) -> (r: StepNext)
    ensures
        ({
            let (done, passed, out) = spec_after_step(combined@, is_last, keep, outcome);
            match r {
                StepNext::Continue { combined: c } => !done && c@ == out,
                StepNext::Finish { passed: p, output } => done && p == passed && output@ == out,
            }
        }),
{
    match outcome {
        StepOutcome::Ran { success, stdout, stderr } => {
            let mut c = combined;
            append_output(&mut c, stdout.as_slice(), stderr.as_slice());
            if !success || is_last {
                StepNext::Finish { passed: success, output: c }
            } else {
                StepNext::Continue { combined: c }
            }
        },
        StepOutcome::SpawnFailed { error } => {
            if keep {
                StepNext::Finish { passed: false, output: concat(combined.as_str(), error.as_str()) }
            } else {
                StepNext::Finish { passed: false, output: error }
            }
        },
    }
}

/// The event that opens a test's run.
pub fn started_event(name: &str, manager: TestManager) -> (r: TestEvent)
    ensures
        r matches TestEvent::Started { name: n, manager: m } && n@ == name@ && m == manager,
{
    TestEvent::Started { name: owned(name), manager }
}

/// The event that closes a test's run.
pub fn finished_event(name: &str, manager: TestManager, passed: bool, duration_ms: u64, output: String) -> (r: TestEvent)
    ensures
        r matches TestEvent::Finished { name: n, manager: m, outcome } && n@ == name@ && m
            == manager && outcome.passed == passed && outcome.duration_ms == duration_ms
            && outcome.stderr == output,
{
    TestEvent::Finished {
        name: owned(name),
        manager,
        outcome: TestOutcome { passed, duration_ms, stderr: output },
    }
}

/// Why a payload does not fit a manager: it lacks the manager's field.
pub open spec fn malformed_message(manager_name: Seq<char>, field: Seq<char>) -> Seq<char> {
    "malformed "@ + manager_name + " payload: missing field `"@ + field + "`"@
}

/// The failed outcome of a test whose payload is not the manager's own: no
/// time spent, and why the payload does not fit.
pub fn malformed_outcome(manager_name: &str, field: &str) -> (r: TestOutcome)
    ensures
        !r.passed,
        r.duration_ms == 0,
        r.stderr@ == malformed_message(manager_name@, field@),
{
    let a = concat("malformed ", manager_name);
    let b = concat(a.as_str(), " payload: missing field `");
    let c = concat(b.as_str(), field);
    TestOutcome { passed: false, duration_ms: 0, stderr: concat(c.as_str(), "`") }
}

/// A command to run.
pub fn invocation(program: &str, args: Vec<String>, dir: Option<String>, keep: bool) -> (r: Invocation)
    ensures
        r.program@ == program@,
        r.args == args,
        r.dir == dir,
        r.keep_output_on_spawn_error == keep,
{
    Invocation { program: owned(program), args, dir, keep_output_on_spawn_error: keep }
}

/// A single command, run with no output gathered before it.
pub fn single_invocation(program: &str, args: Vec<String>, dir: Option<String>) -> (r: Vec<Invocation>)
    ensures
        r@.len() == 1,
        r@[0].program@ == program@,
        r@[0].args == args,
        r@[0].dir == dir,
        !r@[0].keep_output_on_spawn_error,
{
    let mut v: Vec<Invocation> = Vec::new();
    v.push(Invocation { program: owned(program), args, dir, keep_output_on_spawn_error: false });
    v
}

/// The string list of some literal arguments.
pub fn args_of(a: &[&str]) -> (r: Vec<String>)
    ensures
        r@.len() == a@.len(),
        forall|i: int| 0 <= i < a@.len() ==> #[trigger] r@[i]@ == a@[i]@,
{
    let mut v: Vec<String> = Vec::new();
    for i in 0..a.len()
        invariant
            v@.len() == i,
            forall|j: int| 0 <= j < i ==> #[trigger] v@[j]@ == a@[j]@,
    {
        v.push(owned(a[i]));
    }
    v
}

} // verus!
