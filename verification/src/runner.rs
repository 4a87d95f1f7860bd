//! The run loop's decisions: which managers to register, how a ranked or
//! local batch is routed to its managers, what each event prints and counts,
//! and how a run ends.

use rand::seq::SliceRandom;
use vstd::prelude::*;

use crate::api::TestManager;
use crate::config::Config;
use crate::managers::nix_builder::PreFailed;
use crate::managers::{Test, TestEvent};
use crate::text::{chars_eq, chars_of, concat, dec, dec_chars, lines, lines_chars, owned, string_of, strs, views};

verus! {

/// How a run ends, and the process's exit status.
#[derive(Debug, Clone, Copy, PartialEq, Eq)]
pub enum RunResult {
    Success,
    TestsFailed,
    Error,
}

impl RunResult {
    /// The exit status: 0 on success, 1 when tests failed, 2 on an error.
    pub fn exit_code(&self) -> (r: i32)
        ensures
            r == match self {
                RunResult::Success => 0i32,
                RunResult::TestsFailed => 1i32,
                RunResult::Error => 2i32,
            },
    {
        match self {
            RunResult::Success => 0,
            RunResult::TestsFailed => 1,
            RunResult::Error => 2,
        }
    }
}

/// Which detections to try, in order, and with what.
#[derive(Debug, Clone, PartialEq, Eq)]
pub struct RegistryPlan {
    /// The nix manager's attribute set, when nix is to be detected.
    pub nix_attrset: Option<String>,
    /// Whether cargo is to be detected.
    pub cargo: bool,
    /// Whether npm is to be detected.
    pub npm: bool,
    /// Whether R is to be detected.
    pub r: bool,
    /// The treefmt setting, when treefmt is to be detected.
    pub treefmt: Option<Option<bool>>,
}

/// Decides which managers to detect. Everything needs `autodetect`. Nix
/// needs its table's `enabled` (default on) and a `flake.nix`; cargo its
/// `enabled` (default on); npm a `package.json`; R a `DESCRIPTION`; treefmt
/// anything but `enabled = false`.
pub fn plan_registry(config: &Config, flake_exists: bool, package_json_exists: bool, description_exists: bool) -> (r: RegistryPlan)
    ensures
        ({
            let m = config.managers;
            let nix_enabled = match m.nix {
                Some(n) => n.enabled,
                None => true,
            };
            let cargo_enabled = match m.cargo {
                Some(c) => c.enabled,
                None => true,
            };
            let treefmt_enabled = match m.treefmt {
                Some(t) => t.enabled,
                None => None,
            };
            &&& (m.autodetect && nix_enabled && flake_exists) <==> r.nix_attrset is Some
            &&& r.nix_attrset is Some ==> r.nix_attrset->0@ == match m.nix {
                Some(n) => n.attrset@,
                None => crate::config::spec_default_attrset(),
            }
            &&& r.cargo == (m.autodetect && cargo_enabled)
            &&& r.npm == (m.autodetect && package_json_exists)
            &&& r.r == (m.autodetect && description_exists)
            &&& r.treefmt == (if m.autodetect && treefmt_enabled != Some(false) {
                Some(treefmt_enabled)
            } else {
                None
            })
        }),
{
    let m = &config.managers;
    let nix_enabled = match &m.nix {
        Some(n) => n.enabled,
        None => true,
    };
    let attrset = match &m.nix {
        Some(n) => owned(n.attrset.as_str()),
        None => crate::config::default_attrset(),
    };
    let cargo_enabled = match &m.cargo {
        Some(c) => c.enabled,
        None => true,
    };
    let treefmt_enabled = match &m.treefmt {
        Some(t) => t.enabled,
        None => None,
    };
    RegistryPlan {
        nix_attrset: if m.autodetect && nix_enabled && flake_exists {
            Some(attrset)
        } else {
            None
        },
        cargo: m.autodetect && cargo_enabled,
        npm: m.autodetect && package_json_exists,
        r: m.autodetect && description_exists,
        treefmt: if m.autodetect && treefmt_enabled != Some(false) {
            Some(treefmt_enabled)
        } else {
            None
        },
    }
}

/// The warning printed when a manager that was to be detected is not.
pub fn detection_warning(manager: &str, error: &str) -> (r: String)
    ensures
        r@ == "warning: "@ + manager@ + " detection failed: "@ + error@,
{
    let a = concat("warning: ", manager);
    let b = concat(a.as_str(), " detection failed: ");
    concat(b.as_str(), error)
}

/// What an event means for the totals.
#[derive(Debug, Clone, Copy, PartialEq, Eq)]
pub enum Transition {
    Discovered,
    Started,
    Passed,
    Failed,
}

/// The lines an event prints: `  > name` when it starts; `  PASS name (Nms)`
/// or `  FAIL name (Nms)` when it finishes, a failure followed by each line
/// of its output indented by four spaces.
pub open spec fn event_lines(e: TestEvent) -> Seq<Seq<char>> {
    match e {
        TestEvent::Discovered { .. } => seq![],
        TestEvent::Started { name, .. } => seq!["  > "@ + name@],
        TestEvent::Finished { name, outcome, .. } => {
            let tail = " ("@ + dec(outcome.duration_ms as nat) + "ms)"@;
            if outcome.passed {
                seq!["  PASS "@ + name@ + tail]
            } else {
                seq!["  FAIL "@ + name@ + tail] + lines(outcome.stderr@).map_values(
                    |l: Seq<char>| "    "@ + l,
                )
            }
        },
    }
}

pub open spec fn event_transition(e: TestEvent) -> Transition {
    match e {
        TestEvent::Discovered { .. } => Transition::Discovered,
        TestEvent::Started { .. } => Transition::Started,
        TestEvent::Finished { outcome, .. } => if outcome.passed {
            Transition::Passed
        } else {
            Transition::Failed
        },
    }
}

/// What an event counts as, and the lines it prints.
pub fn render_event(event: &TestEvent) -> (r: (Transition, Vec<String>))
    ensures
        r.0 == event_transition(*event),
        strs(r.1@) == event_lines(*event),
{
    let mut out: Vec<String> = Vec::new();
    match event {
        TestEvent::Discovered { .. } => {
            assert(strs(out@) =~= event_lines(*event));
            (Transition::Discovered, out)
        },
        TestEvent::Started { name, .. } => {
            out.push(concat("  > ", name.as_str()));
            assert(strs(out@) =~= event_lines(*event));
            (Transition::Started, out)
        },
        TestEvent::Finished { name, outcome, .. } => {
            let ms = dec_chars(outcome.duration_ms);
            let ms_s = string_of(ms.as_slice());
            let t0 = concat(" (", ms_s.as_str());
            let tail = concat(t0.as_str(), "ms)");
            if outcome.passed {
                let h = concat("  PASS ", name.as_str());
                out.push(concat(h.as_str(), tail.as_str()));
                assert(strs(out@) =~= event_lines(*event));
                (Transition::Passed, out)
            } else {
                let h = concat("  FAIL ", name.as_str());
                out.push(concat(h.as_str(), tail.as_str()));
                let c = chars_of(outcome.stderr.as_str());
                let ls = lines_chars(c.as_slice());
                let n = ls.len();
                let ghost head = strs(out@);
                for i in 0..n
                    invariant
                        n == ls@.len(),
                        views(ls@) == lines(outcome.stderr@),
                        strs(out@) == head + views(ls@).take(i as int).map_values(|l: Seq<char>| "    "@ + l),
                {
                    let l = string_of(ls[i].as_slice());
                    let line = concat("    ", l.as_str());
                    let ghost prev = out@;
                    out.push(line);
                    proof {
                        crate::text::lemma_strs_push(prev, line);
                        assert(views(ls@)[i as int] == ls@[i as int]@);
                        assert(views(ls@).take(i + 1).map_values(|l: Seq<char>| "    "@ + l) =~= views(ls@).take(i as int).map_values(|l: Seq<char>| "    "@ + l).push("    "@ + ls@[i as int]@));
                    }
                }
                assert(views(ls@).take(n as int) =~= views(ls@));
                (Transition::Failed, out)
            }
        },
    }
}

/// The pass and fail counts of a run.
#[derive(Debug, Clone, Copy, PartialEq, Eq)]
pub struct Tally {
    pub passed: u64,
    pub failed: u64,
}

impl Tally {
    pub fn new() -> (r: Tally)
        ensures
            r.passed == 0 && r.failed == 0,
    {
        Tally { passed: 0, failed: 0 }
    }

    /// Counts one transition: a pass or a failure adds one to its count.
    pub fn record(&mut self, t: Transition)
        requires
            old(self).passed < u64::MAX,
            old(self).failed < u64::MAX,
        ensures
            final(self).passed == old(self).passed + (if t == Transition::Passed {
                1int
            } else {
                0int
            }),
            final(self).failed == old(self).failed + (if t == Transition::Failed {
                1int
            } else {
                0int
            }),
    {
        match t {
            Transition::Passed => self.passed = self.passed + 1,
            Transition::Failed => self.failed = self.failed + 1,
            _ => {},
        }
    }

    /// Counts `n` tests already failed before the run (submitted as failures before ranking).
    pub fn add_failed(&mut self, n: u64)
        requires
            old(self).failed + n <= u64::MAX,
        ensures
            final(self).passed == old(self).passed,
            final(self).failed == old(self).failed + n,
    {
        self.failed = self.failed + n;
    }

    /// The summary line: `N passed, M failed`.
    pub fn summary(&self) -> (r: String)
        ensures
            r@ == dec(self.passed as nat) + " passed, "@ + dec(self.failed as nat) + " failed"@,
    {
        let p = dec_chars(self.passed);
        let f = dec_chars(self.failed);
        let ps = string_of(p.as_slice());
        let fs = string_of(f.as_slice());
        let a = concat(ps.as_str(), " passed, ");
        let b = concat(a.as_str(), fs.as_str());
        concat(b.as_str(), " failed")
    }
}

/// How a run ends: an error when any manager failed to discover, else
/// failed tests, else success.
pub open spec fn spec_final_result(discovery_errors: nat, failed: nat) -> RunResult {
    if discovery_errors > 0 {
        RunResult::Error
    } else if failed > 0 {
        RunResult::TestsFailed
    } else {
        RunResult::Success
    }
}

/// A run ends in success only when every manager discovered and no test
/// failed; any failed test makes it fail (exit 1), and any discovery error
/// makes it an error (exit 2), whatever the tests did.
pub proof fn lemma_run_result_reflects_counts(discovery_errors: nat, failed: nat)
    ensures
        spec_final_result(discovery_errors, failed) == RunResult::Success <==> (discovery_errors == 0
            && failed == 0),
        spec_final_result(discovery_errors, failed) == RunResult::TestsFailed <==> (discovery_errors
            == 0 && failed > 0),
        spec_final_result(discovery_errors, failed) == RunResult::Error <==> discovery_errors > 0,
{
}

pub fn final_result(discovery_errors: usize, failed: u64) -> (r: RunResult)
    ensures
        r == spec_final_result(discovery_errors as nat, failed as nat),
        discovery_errors > 0 ==> r == RunResult::Error,
        discovery_errors == 0 && failed > 0 ==> r == RunResult::TestsFailed,
        discovery_errors == 0 && failed == 0 ==> r == RunResult::Success,
{
    if discovery_errors > 0 {
        RunResult::Error
    } else if failed > 0 {
        RunResult::TestsFailed
    } else {
        RunResult::Success
    }
}

/// The result of a discovery-only run: an error when any manager failed to discover.
pub fn discovery_result(discovery_errors: usize) -> (r: RunResult)
    ensures
        r == spec_final_result(discovery_errors as nat, 0),
{
    final_result(discovery_errors, 0)
}

/// Whether there is nothing to run or report: no tests, no discovery
/// errors, no builds that failed before ranking.
pub fn nothing_to_run(tests: usize, discovery_errors: usize, pre_failed: usize) -> (r: bool)
    ensures
        r == (tests == 0 && discovery_errors == 0 && pre_failed == 0),
{
    tests == 0 && discovery_errors == 0 && pre_failed == 0
}

/// The lines that restate discovery failures after the summary: none when
/// there are none, else a count and one line per manager.
pub fn discovery_error_report(errors: &Vec<(TestManager, String)>) -> (r: Vec<String>)
    ensures
        errors@.len() == 0 ==> r@.len() == 0,
        errors@.len() > 0 ==> r@.len() == errors@.len() + 1 && r@[0]@ == "\n"@ + dec(errors@.len()) + " manager(s) failed to discover:"@
            && forall|i: int| 0 <= i < errors@.len() ==> (#[trigger] r@[i + 1])@ == "  - "@ + errors@[i].0.spec_wire() + ": "@ + errors@[i].1@,
{
    let mut out: Vec<String> = Vec::new();
    let n = errors.len();
    if n == 0 {
        return out;
    }
    let count = dec_chars(n as u64);
    let cs = string_of(count.as_slice());
    let a = concat("\n", cs.as_str());
    out.push(concat(a.as_str(), " manager(s) failed to discover:"));
    for i in 0..n
        invariant
            n == errors@.len(),
            n > 0,
            out@.len() == i + 1,
            out@[0]@ == "\n"@ + dec(errors@.len()) + " manager(s) failed to discover:"@,
            forall|j: int| 0 <= j < i ==> (#[trigger] out@[j + 1])@ == "  - "@ + errors@[j].0.spec_wire() + ": "@ + errors@[j].1@,
    {
        let w = errors[i].0.to_string();
        let b = concat("  - ", w.as_str());
        let c = concat(b.as_str(), ": ");
        out.push(concat(c.as_str(), errors[i].1.as_str()));
    }
    out
}

// ---------------------------------------------------------------------------
// Routing a batch
// ---------------------------------------------------------------------------

/// The first registered manager with `m`'s identity.
pub open spec fn manager_index(managers: Seq<TestManager>, m: TestManager) -> Option<int>
    decreases managers.len(),
{
    if managers.len() == 0 {
        None
    } else if managers[0].spec_wire() == m.spec_wire() {
        Some(0)
    } else {
        match manager_index(managers.drop_first(), m) {
            Some(i) => Some(i + 1),
            None => None,
        }
    }
}

/// Whether a test was submitted as a failure before ranking, and must not run.
pub open spec fn is_presubmitted(skip: Seq<(TestManager, String)>, t: Test) -> bool {
    exists|k: int| 0 <= k < skip.len() && (#[trigger] skip[k]).0.spec_wire() == t.manager.spec_wire() && skip[k].1@ == t.name@
}

/// The tests of a batch that manager `i` runs, in batch order: those whose
/// identity first matches it, less the pre-submitted ones.
pub open spec fn routed(batch: Seq<Test>, managers: Seq<TestManager>, skip: Seq<(TestManager, String)>, i: int) -> Seq<Test>
    decreases batch.len(),
{
    if batch.len() == 0 {
        seq![]
    } else {
        let rest = routed(batch.drop_last(), managers, skip, i);
        let t = batch.last();
        if manager_index(managers, t.manager) == Some(i) && !is_presubmitted(skip, t) {
            rest.push(t)
        } else {
            rest
        }
    }
}

/// A routed test belongs to the manager it is routed to, and was not
/// submitted as a failure before ranking: such a test never runs again.
pub proof fn lemma_routed_tests(batch: Seq<Test>, managers: Seq<TestManager>, skip: Seq<(TestManager, String)>, i: int, j: int)
    requires
        0 <= j < routed(batch, managers, skip, i).len(),
    ensures
        manager_index(managers, routed(batch, managers, skip, i)[j].manager) == Some(i),
        !is_presubmitted(skip, routed(batch, managers, skip, i)[j]),
        batch.contains(routed(batch, managers, skip, i)[j]),
    decreases batch.len(),
{
    let rest = routed(batch.drop_last(), managers, skip, i);
    if j < rest.len() {
        lemma_routed_tests(batch.drop_last(), managers, skip, i, j);
        let t = rest[j];
        let k = choose|k: int| 0 <= k < batch.drop_last().len() && batch.drop_last()[k] == t;
        assert(batch[k] == t);
    } else {
        assert(batch[batch.len() - 1] == batch.last());
    }
}

/// No test is routed to two managers.
pub proof fn lemma_routed_disjoint(batch: Seq<Test>, managers: Seq<TestManager>, skip: Seq<(TestManager, String)>, i: int, k: int, j: int)
    requires
        i != k,
        0 <= j < routed(batch, managers, skip, i).len(),
    ensures
        !routed(batch, managers, skip, k).contains(routed(batch, managers, skip, i)[j]),
{
    lemma_routed_tests(batch, managers, skip, i, j);
    if routed(batch, managers, skip, k).contains(routed(batch, managers, skip, i)[j]) {
        let q = choose|q: int| 0 <= q < routed(batch, managers, skip, k).len() && routed(batch, managers, skip, k)[q] == routed(batch, managers, skip, i)[j];
        lemma_routed_tests(batch, managers, skip, k, q);
    }
}

fn same_manager(a: &TestManager, b: &TestManager) -> (r: bool)
    ensures
        r == (a.spec_wire() == b.spec_wire()),
{
    let x = a.to_string();
    let y = b.to_string();
    let xc = chars_of(x.as_str());
    let yc = chars_of(y.as_str());
    chars_eq(xc.as_slice(), yc.as_slice())
}

fn find_manager(managers: &Vec<TestManager>, m: &TestManager) -> (r: Option<usize>)
    ensures
        match r {
            Some(k) => k < managers@.len() && manager_index(managers@, *m) == Some(k as int),
            None => manager_index(managers@, *m) is None,
        },
{
    let n = managers.len();
    let mut i: usize = 0;
    assert(managers@.skip(0) =~= managers@);
    while i < n
        invariant
            n == managers@.len(),
            i <= n,
            manager_index(managers@, *m) == match manager_index(managers@.skip(i as int), *m) {
                Some(j) => Some(j + i),
                None => None,
            },
        decreases n - i,
    {
        assert(managers@.skip(i as int).drop_first() =~= managers@.skip(i + 1));
        assert(managers@.skip(i as int)[0] == managers@[i as int]);
        if same_manager(&managers[i], m) {
            return Some(i);
        }
        i = i + 1;
    }
    None
}

fn presubmitted(skip: &Vec<(TestManager, String)>, t: &Test) -> (r: bool)
    ensures
        r == is_presubmitted(skip@, *t),
{
    let name = chars_of(t.name.as_str());
    let n = skip.len();
    for k in 0..n
        invariant
            n == skip@.len(),
            name@ == t.name@,
            forall|j: int| 0 <= j < k ==> !((#[trigger] skip@[j]).0.spec_wire() == t.manager.spec_wire() && skip@[j].1@ == t.name@),
    {
        let sn = chars_of(skip[k].1.as_str());
        if same_manager(&skip[k].0, &t.manager) && chars_eq(sn.as_slice(), name.as_slice()) {
            return true;
        }
    }
    false
}

/// Routes a batch to the registered managers: entry `i` holds what manager
/// `i` runs, in batch order, with the pre-submitted tests left out.
pub fn route_batch(batch: Vec<Test>, managers: &Vec<TestManager>, skip: &Vec<(TestManager, String)>) -> (r: Vec<Vec<Test>>)
    ensures
        r@.len() == managers@.len(),
        forall|i: int| 0 <= i < managers@.len() ==> (#[trigger] r@[i])@ == routed(batch@, managers@, skip@, i),
{
    let ghost all = batch@;
    let n = batch.len();
    let m = managers.len();
    let mut groups: Vec<Vec<Test>> = Vec::new();
    for i in 0..m
        invariant
            groups@.len() == i,
            forall|q: int| 0 <= q < i ==> (#[trigger] groups@[q])@ == Seq::<Test>::empty(),
    {
        groups.push(Vec::new());
    }
    assert forall|q: int| 0 <= q < m implies (#[trigger] groups@[q])@ == routed(all.take(0), managers@, skip@, q) by {
        assert(all.take(0) =~= Seq::<Test>::empty());
    }
    let mut rest = batch;
    let mut i: usize = 0;
    assert(all.skip(0) =~= all);
    while i < n
        invariant
            n == all.len(),
            m == managers@.len(),
            i <= n,
            rest@ == all.skip(i as int),
            groups@.len() == m,
            forall|q: int| 0 <= q < m ==> (#[trigger] groups@[q])@ == routed(all.take(i as int), managers@, skip@, q),
        decreases n - i,
    {
        assert(rest@[0] == all[i as int]);
        let t = rest.remove(0);
        assert(rest@ =~= all.skip(i + 1));
        assert(all.take(i + 1).drop_last() =~= all.take(i as int));
        assert(all.take(i + 1).last() == t);
        let ghost old_groups = groups@;
        let skipped = presubmitted(skip, &t);
        match find_manager(managers, &t.manager) {
            Some(k) => {
                if !skipped {
                    let mut g = groups.remove(k);
                    g.push(t);
                    groups.insert(k, g);
                    assert forall|q: int| 0 <= q < m implies (#[trigger] groups@[q])@ == routed(all.take(i + 1), managers@, skip@, q) by {
                        if q != k {
                            assert(groups@[q] == old_groups[q]);
                        }
                    }
                } else {
                    assert forall|q: int| 0 <= q < m implies (#[trigger] groups@[q])@ == routed(all.take(i + 1), managers@, skip@, q) by {}
                }
            },
            None => {
                assert forall|q: int| 0 <= q < m implies (#[trigger] groups@[q])@ == routed(all.take(i + 1), managers@, skip@, q) by {}
            },
        }
        i = i + 1;
    }
    assert(all.take(n as int) =~= all);
    groups
}

// ---------------------------------------------------------------------------
// Choosing the batch source
// ---------------------------------------------------------------------------

/// Where a run's batches come from, and what it uploads.
#[derive(Debug, Clone, PartialEq, Eq)]
pub enum RunSource {
    /// Batches ranked by the service; results are uploaded. The builds that
    /// failed before ranking were submitted as failures: they are skipped and
    /// counted as `failed`.
    Ranked { skip: Vec<(TestManager, String)>, failed: usize },
    /// The tests in a random local order; results are uploaded when `upload`.
    Local { upload: bool },
    /// The service is required and ranking failed: the run stops with this message.
    Fatal { message: String },
}

/// Decides where batches come from. Without an authenticated upload (no
/// ranking attempt), a local random order. With one, the ranking outcome
/// decides: ranked batches when it succeeded; otherwise an error when the
/// service is required, else a local random order whose results are still uploaded.
pub fn plan_run(ranking: Option<Result<(), String>>, required: bool, pre_failed: &Vec<PreFailed>) -> (r: RunSource)
    ensures
        match ranking {
            None => r == RunSource::Local { upload: false },
            Some(Ok(_)) => r matches RunSource::Ranked { skip, failed } && failed == pre_failed@.len() && skip@.len() == pre_failed@.len()
                && forall|i: int| 0 <= i < pre_failed@.len() ==> (#[trigger] skip@[i]).0.spec_wire() == pre_failed@[i].manager.spec_wire() && skip@[i].1@ == pre_failed@[i].name@,
            Some(Err(e)) => if required {
                r matches RunSource::Fatal { message } && message@ == "cloud failed and `[cloud] required = true`: "@ + e@
            } else {
                r == RunSource::Local { upload: true }
            },
        },
{
    match ranking {
        None => RunSource::Local { upload: false },
        Some(Ok(_)) => {
            let mut skip: Vec<(TestManager, String)> = Vec::new();
            let n = pre_failed.len();
            for i in 0..n
                invariant
                    n == pre_failed@.len(),
                    skip@.len() == i,
                    forall|j: int| 0 <= j < i ==> (#[trigger] skip@[j]).0.spec_wire() == pre_failed@[j].manager.spec_wire() && skip@[j].1@ == pre_failed@[j].name@,
            {
                let m = copy_manager(&pre_failed[i].manager);
                skip.push((m, owned(pre_failed[i].name.as_str())));
            }
            RunSource::Ranked { skip, failed: n }
        },
        Some(Err(e)) => {
            if required {
                RunSource::Fatal { message: concat("cloud failed and `[cloud] required = true`: ", e.as_str()) }
            } else {
                RunSource::Local { upload: true }
            }
        },
    }
}

/// A copy of a manager identity.
pub fn copy_manager(m: &TestManager) -> (r: TestManager)
    ensures
        r.spec_wire() == m.spec_wire(),
        r is WellKnownTestManager <==> m is WellKnownTestManager,
{
    match m {
        TestManager::WellKnownTestManager(w) => TestManager::WellKnownTestManager(*w),
        TestManager::CustomTestManager(c) => TestManager::CustomTestManager(c.copy()),
    }
}

/// `rand::seq::SliceRandom::shuffle` with the thread-local generator. The
/// order it leaves is random and unstated: only that the tests stay the same.
#[verifier::external_body]
fn shuffle_in_place(tests: &mut Vec<Test>)
    ensures
        final(tests)@.to_multiset() == old(tests)@.to_multiset(),
{
    tests.shuffle(&mut rand::rng());
}

/// The tests of a local run in a random order: the same tests, each as often.
pub fn shuffle(tests: Vec<Test>) -> (r: Vec<Test>)
    ensures
        r@.to_multiset() == tests@.to_multiset(),
{
    let mut tests = tests;
    shuffle_in_place(&mut tests);
    tests
}

/// The notice that the service is unavailable and the order is local.
pub fn cloud_unavailable_notice(error: &str) -> (r: String)
    ensures
        r@ == "cloud unavailable ("@ + error@ + "); using local random order"@,
{
    let a = concat("cloud unavailable (", error);
    concat(a.as_str(), "); using local random order")
}

// ---------------------------------------------------------------------------
// Banners and listings
// ---------------------------------------------------------------------------

/// The banner without credentials.
pub fn unauthenticated_banner(env: &str) -> (r: String)
    ensures
        r@ == "unauthenticated (env: "@ + env@ + ")"@,
{
    let a = concat("unauthenticated (env: ", env);
    concat(a.as_str(), ")")
}

/// The banner of an authenticated session.
pub fn authed_banner(display_name: &str, env: &str) -> (r: String)
    ensures
        r@ == "authed as "@ + display_name@ + " (env: "@ + env@ + ")"@,
{
    let a = concat("authed as ", display_name);
    let b = concat(a.as_str(), " (env: ");
    let c = concat(b.as_str(), env);
    concat(c.as_str(), ")")
}

/// The banner of a failed authentication.
pub fn auth_failed_banner(env: &str, error: &str) -> (r: String)
    ensures
        r@ == "auth failed (env: "@ + env@ + "): "@ + error@,
{
    let a = concat("auth failed (env: ", env);
    let b = concat(a.as_str(), "): ");
    concat(b.as_str(), error)
}

/// Lexicographic order of texts by character (the order of `str`'s `Ord`,
/// as UTF-8 keeps code point order).
pub open spec fn text_le(a: Seq<char>, b: Seq<char>) -> bool
    decreases a.len(),
{
    if a.len() == 0 {
        true
    } else if b.len() == 0 {
        false
    } else if a[0] != b[0] {
        a[0] < b[0]
    } else {
        text_le(a.drop_first(), b.drop_first())
    }
}

proof fn lemma_text_le_total(a: Seq<char>, b: Seq<char>)
    ensures
        text_le(a, b) || text_le(b, a),
    decreases a.len(),
{
    if a.len() > 0 && b.len() > 0 {
        if a[0] == b[0] {
            lemma_text_le_total(a.drop_first(), b.drop_first());
        }
    }
}

proof fn lemma_text_le_trans(a: Seq<char>, b: Seq<char>, c: Seq<char>)
    requires
        text_le(a, b),
        text_le(b, c),
    ensures
        text_le(a, c),
    decreases a.len(),
{
    if a.len() > 0 && b.len() > 0 && c.len() > 0 && a[0] == b[0] && b[0] == c[0] {
        lemma_text_le_trans(a.drop_first(), b.drop_first(), c.drop_first());
    }
}

fn text_le_exec(a: &[char], b: &[char]) -> (r: bool)
    ensures
        r == text_le(a@, b@),
{
    let mut i: usize = 0;
    let n = a.len();
    let m = b.len();
    assert(a@.skip(0) =~= a@);
    assert(b@.skip(0) =~= b@);
    while i < n && i < m && a[i] == b[i]
        invariant
            i <= n,
            i <= m,
            n == a@.len(),
            m == b@.len(),
            text_le(a@, b@) == text_le(a@.skip(i as int), b@.skip(i as int)),
        decreases n - i,
    {
        assert(a@.skip(i as int).drop_first() =~= a@.skip(i + 1));
        assert(b@.skip(i as int).drop_first() =~= b@.skip(i + 1));
        i = i + 1;
    }
    if i == n {
        true
    } else if i == m {
        false
    } else {
        assert(a@.skip(i as int)[0] == a@[i as int]);
        assert(b@.skip(i as int)[0] == b@[i as int]);
        a[i] < b[i]
    }
}

/// The names of the tests, sorted (the order the discovery listing prints them in).
pub fn sorted_names(tests: &Vec<Test>) -> (r: Vec<String>)
    ensures
        strs(r@).to_multiset() == tests@.map_values(|t: Test| t.name@).to_multiset(),
        forall|i: int, j: int| 0 <= i < j < r@.len() ==> text_le(r@[i]@, r@[j]@),
{
    let mut out: Vec<String> = Vec::new();
    let n = tests.len();
    assert(strs(out@) =~= Seq::<Seq<char>>::empty());
    assert(tests@.take(0).map_values(|t: Test| t.name@) =~= Seq::<Seq<char>>::empty());
    for k in 0..n
        invariant
            n == tests@.len(),
            strs(out@).to_multiset() == tests@.take(k as int).map_values(|t: Test| t.name@).to_multiset(),
            forall|i: int, j: int| 0 <= i < j < out@.len() ==> text_le(out@[i]@, out@[j]@),
    {
        let name = owned(tests[k].name.as_str());
        let nc = chars_of(name.as_str());
        let mut p: usize = 0;
        let m = out.len();
        let mut stop = false;
        while !stop && p < m
            invariant
                p <= m,
                m == out@.len(),
                nc@ == name@,
                stop ==> p < m && !text_le(out@[p as int]@, name@),
                forall|q: int| 0 <= q < p ==> text_le(#[trigger] out@[q]@, name@),
            decreases m - p + (if stop {
                0int
            } else {
                1int
            }),
        {
            let oc = chars_of(out[p].as_str());
            if text_le_exec(oc.as_slice(), nc.as_slice()) {
                p = p + 1;
            } else {
                stop = true;
            }
        }
        proof {
            if p < m {
                lemma_text_le_total(out@[p as int]@, name@);
            }
        }
        let ghost prev = out@;
        out.insert(p, name);
        proof {
            assert(strs(out@) =~= strs(prev).insert(p as int, name@));
            assert(tests@.take(k + 1).map_values(|t: Test| t.name@) =~= tests@.take(k as int).map_values(|t: Test| t.name@).push(tests@[k as int].name@));
            assert(strs(prev).insert(p as int, name@).to_multiset() =~= strs(prev).to_multiset().insert(name@)) by {
                vstd::seq_lib::to_multiset_insert(strs(prev), p as int, name@);
            }
            assert(tests@.take(k as int).map_values(|t: Test| t.name@).push(name@).to_multiset() =~= tests@.take(k as int).map_values(|t: Test| t.name@).to_multiset().insert(name@)) by {
                tests@.take(k as int).map_values(|t: Test| t.name@).to_multiset_ensures();
            }
            assert forall|i: int, j: int| 0 <= i < j < out@.len() implies text_le(out@[i]@, out@[j]@) by {
                if j < p {
                    assert(out@[i] == prev[i] && out@[j] == prev[j]);
                } else if j == p {
                    assert(out@[i] == prev[i]);
                } else if i == p {
                    assert(out@[j] == prev[j - 1]);
                    if p < prev.len() {
                        if j - 1 > p {
                            assert(text_le(prev[p as int]@, prev[j - 1]@));
                            lemma_text_le_trans(name@, prev[p as int]@, prev[j - 1]@);
                        }
                    }
                } else if i < p {
                    assert(out@[i] == prev[i] && out@[j] == prev[j - 1]);
                } else {
                    assert(out@[i] == prev[i - 1] && out@[j] == prev[j - 1]);
                }
            }
        }
    }
    assert(tests@.take(n as int) =~= tests@);
    out
}

/// What a discovery-only run prints for a manager: its identity and test
/// count, then each test name, in sorted order.
pub fn discovery_listing(manager: &TestManager, tests: &Vec<Test>) -> (r: Vec<String>)
    ensures
        r@.len() == tests@.len() + 1,
        r@[0]@ == manager.spec_wire() + ": "@ + dec(tests@.len()) + " test(s)"@,
        strs(r@.drop_first()).to_multiset() == tests@.map_values(|t: Test| "  - "@ + t.name@).to_multiset(),
        forall|i: int, j: int| 1 <= i < j < r@.len() ==> text_le(r@[i]@.skip(4), r@[j]@.skip(4)),
        forall|i: int| 1 <= i < r@.len() ==> "  - "@.is_prefix_of(#[trigger] r@[i]@),
{
    let names = sorted_names(tests);
    let w = manager.to_string();
    let count = dec_chars(tests.len() as u64);
    let cs = string_of(count.as_slice());
    let a = concat(w.as_str(), ": ");
    let b = concat(a.as_str(), cs.as_str());
    let mut out: Vec<String> = Vec::new();
    out.push(concat(b.as_str(), " test(s)"));
    let n = names.len();
    proof {
        reveal_strlit("  - ");
    }
    for i in 0..n
        invariant
            n == names@.len(),
            out@.len() == i + 1,
            out@[0]@ == manager.spec_wire() + ": "@ + dec(tests@.len()) + " test(s)"@,
            forall|k: int| 0 <= k < i ==> (#[trigger] out@[k + 1])@ == "  - "@ + names@[k]@,
    {
        out.push(concat("  - ", names[i].as_str()));
    }
    proof {
        reveal_strlit("  - ");
        strs(names@).to_multiset_ensures();
        tests@.map_values(|t: Test| t.name@).to_multiset_ensures();
        assert(strs(names@).len() == names@.len());
        let f = |s: Seq<char>| "  - "@ + s;
        assert(strs(out@.drop_first()) =~= strs(names@).map_values(f));
        assert(tests@.map_values(|t: Test| "  - "@ + t.name@) =~= tests@.map_values(|t: Test| t.name@).map_values(f));
        lemma_map_multiset(strs(names@), tests@.map_values(|t: Test| t.name@), f);
        assert forall|i: int, j: int| 1 <= i < j < out@.len() implies text_le(out@[i]@.skip(4), out@[j]@.skip(4)) by {
            assert(out@[(i - 1) + 1]@ == "  - "@ + names@[i - 1]@);
            assert(out@[(j - 1) + 1]@ == "  - "@ + names@[j - 1]@);
            assert(out@[i]@.skip(4) =~= names@[i - 1]@);
            assert(out@[j]@.skip(4) =~= names@[j - 1]@);
        }
        assert forall|i: int| 1 <= i < out@.len() implies "  - "@.is_prefix_of(#[trigger] out@[i]@) by {
            assert(out@[(i - 1) + 1]@ == "  - "@ + names@[i - 1]@);
            assert(out@[i]@.subrange(0, 4) =~= "  - "@);
        }
    }
    out
}

/// Mapping the elements of two sequences with the same elements keeps them the same.
proof fn lemma_map_multiset(a: Seq<Seq<char>>, b: Seq<Seq<char>>, f: spec_fn(Seq<char>) -> Seq<char>)
    requires
        a.to_multiset() == b.to_multiset(),
    ensures
        a.map_values(f).to_multiset() == b.map_values(f).to_multiset(),
    decreases a.len(),
{
    a.to_multiset_ensures();
    b.to_multiset_ensures();
    if a.len() > 0 {
        let x = a.last();
        assert(a.to_multiset().count(x) > 0) by {
            assert(a.contains(x)) by {
                assert(a[a.len() - 1] == x);
            }
        }
        assert(b.contains(x));
        let k = choose|k: int| 0 <= k < b.len() && b[k] == x;
        let a2 = a.drop_last();
        let b2 = b.remove(k);
        assert(a =~= a2.push(x));
        a2.to_multiset_ensures();
        assert(a2.to_multiset() =~= b2.to_multiset());
        lemma_map_multiset(a2, b2, f);
        a2.map_values(f).to_multiset_ensures();
        b.map_values(f).to_multiset_ensures();
        assert(a.map_values(f) =~= a2.map_values(f).push(f(x)));
        assert(b2.map_values(f) =~= b.map_values(f).remove(k));
        assert(b.map_values(f)[k] == f(x));
    } else {
        assert(b.len() == 0);
        assert(a.map_values(f) =~= Seq::<Seq<char>>::empty());
        assert(b.map_values(f) =~= Seq::<Seq<char>>::empty());
    }
}

/// The total line of a discovery-only run.
pub fn discovery_total(total: u64) -> (r: String)
    ensures
        r@ == "\nTotal: "@ + dec(total as nat) + " test(s)"@,
{
    let c = dec_chars(total);
    let s = string_of(c.as_slice());
    let a = concat("\nTotal: ", s.as_str());
    concat(a.as_str(), " test(s)")
}

} // verus!
