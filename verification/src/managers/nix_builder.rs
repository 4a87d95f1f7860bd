//! The nix builds other managers depend on: which derivations of the
//! attribute set the nix manager tracks on the current system, how a `nix://`
//! installable is checked against them, and the failed builds recorded for
//! the nix manager to report.

use vstd::prelude::*;

use crate::api::TestManager;
use crate::managers::nix::{manager_identity, system_attrs, EvalAttr, EvalOutput, EvalSystem};
use crate::managers::{lossy_string, utf8_lossy, StepOutcome};
use crate::text::{chars_eq, chars_of, concat, find, find_chars, lemma_find, occurs_at, owned, slice_of, string_of, trim, trim_chars};
use crate::version::{last_line, last_line_chars};

verus! {

/// The map a list of (key, value) pairs builds when later pairs overwrite earlier ones.
pub open spec fn pairs_map(pairs: Seq<(String, String)>) -> Map<Seq<char>, Seq<char>>
    decreases pairs.len(),
{
    if pairs.len() == 0 {
        Map::empty()
    } else {
        pairs_map(pairs.drop_last()).insert(pairs.last().0@, pairs.last().1@)
    }
}

/// No two pairs share a key.
pub open spec fn distinct_keys(pairs: Seq<(String, String)>) -> bool {
    forall|a: int, b: int| 0 <= a < b < pairs.len() ==> pairs[a].0@ != pairs[b].0@
}

proof fn lemma_pairs_map_get(pairs: Seq<(String, String)>, key: Seq<char>)
    requires
        distinct_keys(pairs),
    ensures
        pairs_map(pairs).contains_key(key) <==> exists|j: int| 0 <= j < pairs.len() && (#[trigger] pairs[j]).0@ == key,
        forall|j: int| 0 <= j < pairs.len() && (#[trigger] pairs[j]).0@ == key ==> pairs_map(pairs)[key] == pairs[j].1@,
    decreases pairs.len(),
{
    if pairs.len() > 0 {
        let rest = pairs.drop_last();
        assert forall|a: int, b: int| 0 <= a < b < rest.len() implies rest[a].0@ != rest[b].0@ by {
            assert(rest[a] == pairs[a] && rest[b] == pairs[b]);
        }
        lemma_pairs_map_get(rest, key);
        if pairs_map(pairs).contains_key(key) && pairs.last().0@ != key {
            let j = choose|j: int| 0 <= j < rest.len() && (#[trigger] rest[j]).0@ == key;
            assert(pairs[j] == rest[j]);
        }
        assert forall|j: int| 0 <= j < pairs.len() && (#[trigger] pairs[j]).0@ == key implies pairs_map(pairs)[key] == pairs[j].1@ by {
            if j < pairs.len() - 1 {
                assert(rest[j] == pairs[j]);
                assert(pairs.last().0@ != key);
            }
        }
        if exists|j: int| 0 <= j < pairs.len() && (#[trigger] pairs[j]).0@ == key {
            let j = choose|j: int| 0 <= j < pairs.len() && (#[trigger] pairs[j]).0@ == key;
            if j < pairs.len() - 1 {
                assert(rest[j] == pairs[j]);
            }
        }
    }
}

proof fn lemma_pairs_map_update(pairs: Seq<(String, String)>, k: int, x: (String, String))
    requires
        distinct_keys(pairs),
        0 <= k < pairs.len(),
        x.0@ == pairs[k].0@,
    ensures
        pairs_map(pairs.update(k, x)) == pairs_map(pairs).insert(x.0@, x.1@),
    decreases pairs.len(),
{
    let rest = pairs.drop_last();
    if k == pairs.len() - 1 {
        assert(pairs.update(k, x).drop_last() =~= rest);
        assert(pairs_map(pairs.update(k, x)) =~= pairs_map(pairs).insert(x.0@, x.1@));
    } else {
        assert(pairs.update(k, x).drop_last() =~= rest.update(k, x));
        assert forall|a: int, b: int| 0 <= a < b < rest.len() implies rest[a].0@ != rest[b].0@ by {
            assert(rest[a] == pairs[a] && rest[b] == pairs[b]);
        }
        lemma_pairs_map_update(rest, k, x);
        assert(pairs[k].0@ != pairs.last().0@);
        assert(pairs_map(pairs.update(k, x)) =~= pairs_map(pairs).insert(x.0@, x.1@));
    }
}

proof fn lemma_pairs_map_len(pairs: Seq<(String, String)>)
    requires
        distinct_keys(pairs),
    ensures
        pairs_map(pairs).dom().finite(),
        pairs_map(pairs).dom().len() == pairs.len(),
    decreases pairs.len(),
{
    if pairs.len() > 0 {
        let rest = pairs.drop_last();
        assert forall|a: int, b: int| 0 <= a < b < rest.len() implies rest[a].0@ != rest[b].0@ by {
            assert(rest[a] == pairs[a] && rest[b] == pairs[b]);
        }
        lemma_pairs_map_len(rest);
        lemma_pairs_map_get(rest, pairs.last().0@);
        if pairs_map(rest).contains_key(pairs.last().0@) {
            let j = choose|j: int| 0 <= j < rest.len() && (#[trigger] rest[j]).0@ == pairs.last().0@;
            assert(rest[j] == pairs[j]);
        }
    }
}

/// The derivations the nix manager tracks on the current system, each with
/// the attribute it builds for: `drvPath` to name, where a later attribute
/// with the same derivation takes its place.
pub open spec fn tracked_map(attrs: Seq<EvalAttr>) -> Map<Seq<char>, Seq<char>>
    decreases attrs.len(),
{
    if attrs.len() == 0 {
        Map::empty()
    } else {
        let m = tracked_map(attrs.drop_last());
        match attrs.last().drv_path {
            Some(d) => m.insert(d@, attrs.last().name@),
            None => m,
        }
    }
}

/// The targets the nix manager tracks: the host system and the map from
/// derivation path to attribute name of its derivations.
pub struct TrackedTargets {
    current_system: String,
    drv_to_name: Vec<(String, String)>,
}

impl TrackedTargets {
    #[verifier::type_invariant]
    spec fn wf(self) -> bool {
        distinct_keys(self.drv_to_name@)
    }

    pub closed spec fn view(&self) -> Map<Seq<char>, Seq<char>> {
        pairs_map(self.drv_to_name@)
    }

    pub closed spec fn system(&self) -> Seq<char> {
        self.current_system@
    }

    /// The host system.
    pub fn current_system(&self) -> (r: String)
        ensures
            r@ == self.system(),
    {
        owned(self.current_system.as_str())
    }

    /// The attribute the derivation `drv` builds for, when the nix manager builds it.
    pub fn name_of(&self, drv: &str) -> (r: Option<String>)
        ensures
            match r {
                Some(n) => self@.contains_key(drv@) && self@[drv@] == n@,
                None => !self@.contains_key(drv@),
            },
    {
        let target = chars_of(drv);
        let n = self.drv_to_name.len();
        let mut i: usize = 0;
        let mut found = false;
        while !found && i < n
            invariant
                n == self.drv_to_name@.len(),
                i <= n,
                target@ == drv@,
                found ==> i < n && self.drv_to_name@[i as int].0@ == drv@,
                forall|j: int| 0 <= j < i ==> (#[trigger] self.drv_to_name@[j]).0@ != drv@,
            decreases n - i + (if found {
                0int
            } else {
                1int
            }),
        {
            let c = chars_of(self.drv_to_name[i].0.as_str());
            if chars_eq(c.as_slice(), target.as_slice()) {
                found = true;
            } else {
                i = i + 1;
            }
        }
        proof {
            use_type_invariant(self);
            lemma_pairs_map_get(self.drv_to_name@, drv@);
        }
        if found {
            Some(owned(self.drv_to_name[i].1.as_str()))
        } else {
            None
        }
    }

    /// Whether the derivation `drv` is one the nix manager builds.
    pub fn contains(&self, drv: &str) -> (r: bool)
        ensures
            r == self@.contains_key(drv@),
    {
        self.name_of(drv).is_some()
    }

    /// How many derivations are targets.
    pub fn len(&self) -> (r: usize)
        ensures
            r == self@.dom().len(),
    {
        proof {
            use_type_invariant(self);
            lemma_pairs_map_len(self.drv_to_name@);
        }
        self.drv_to_name.len()
    }
}

/// Reduces the targets-set eval to the current system's derivations.
pub fn build_tracked(eval: &EvalOutput) -> (r: TrackedTargets)
    ensures
        r.system() == eval.current_system@,
        r@ == match system_attrs(eval.per_system@, eval.current_system@) {
            Some(attrs) => tracked_map(attrs),
            None => Map::<Seq<char>, Seq<char>>::empty(),
        },
{
    let mut pairs: Vec<(String, String)> = Vec::new();
    let target = chars_of(eval.current_system.as_str());
    let ns = eval.per_system.len();
    let mut s: usize = 0;
    assert(eval.per_system@.skip(0) =~= eval.per_system@);
    let mut hit = false;
    while !hit && s < ns
        invariant
            ns == eval.per_system@.len(),
            s <= ns,
            target@ == eval.current_system@,
            hit ==> s < ns && system_attrs(eval.per_system@, eval.current_system@) == Some(eval.per_system@[s as int].attrs@),
            !hit ==> system_attrs(eval.per_system@, eval.current_system@) == system_attrs(eval.per_system@.skip(s as int), eval.current_system@),
        decreases ns - s + (if hit {
            0int
        } else {
            1int
        }),
    {
        assert(eval.per_system@.skip(s as int).drop_first() =~= eval.per_system@.skip(s + 1));
        assert(eval.per_system@.skip(s as int)[0] == eval.per_system@[s as int]);
        let c = chars_of(eval.per_system[s].system.as_str());
        if chars_eq(c.as_slice(), target.as_slice()) {
            hit = true;
        } else {
            s = s + 1;
        }
    }
    if !hit {
        assert(eval.per_system@.skip(s as int) =~= Seq::<EvalSystem>::empty());
    }
    if hit {
        let k = s;
        let attrs = &eval.per_system[k].attrs;
        let n = attrs.len();
        for i in 0..n
            invariant
                n == attrs@.len(),
                distinct_keys(pairs@),
                pairs_map(pairs@) == tracked_map(attrs@.take(i as int)),
        {
            assert(attrs@.take(i + 1).drop_last() =~= attrs@.take(i as int));
            assert(attrs@.take(i + 1).last() == attrs@[i as int]);
            match &attrs[i].drv_path {
                Some(d) => {
                    let dc = chars_of(d.as_str());
                    let m = pairs.len();
                    let mut j: usize = 0;
                    let mut at = false;
                    while !at && j < m
                        invariant
                            m == pairs@.len(),
                            j <= m,
                            dc@ == d@,
                            at ==> j < m && pairs@[j as int].0@ == d@,
                            forall|q: int| 0 <= q < j ==> (#[trigger] pairs@[q]).0@ != d@,
                        decreases m - j + (if at {
                            0int
                        } else {
                            1int
                        }),
                    {
                        let c = chars_of(pairs[j].0.as_str());
                        if chars_eq(c.as_slice(), dc.as_slice()) {
                            at = true;
                        } else {
                            j = j + 1;
                        }
                    }
                    let entry = (owned(d.as_str()), owned(attrs[i].name.as_str()));
                    if at {
                        let ghost prev = pairs@;
                        proof {
                            lemma_pairs_map_update(pairs@, j as int, entry);
                        }
                        pairs.set(j, entry);
                        assert(pairs@ == prev.update(j as int, entry));
                        assert forall|a: int, b: int| 0 <= a < b < pairs@.len() implies pairs@[a].0@ != pairs@[b].0@ by {
                            assert(prev[a].0@ != prev[b].0@);
                        }
                    } else {
                        let ghost prev = pairs@;
                        pairs.push(entry);
                        assert(pairs@.drop_last() =~= prev);
                        assert forall|a: int, b: int| 0 <= a < b < pairs@.len() implies pairs@[a].0@ != pairs@[b].0@ by {
                            if b < prev.len() {
                                assert(prev[a].0@ != prev[b].0@);
                            }
                        }
                    }
                },
                None => {},
            }
        }
        assert(attrs@.take(n as int) =~= attrs@);
    }
    TrackedTargets { current_system: owned(eval.current_system.as_str()), drv_to_name: pairs }
}

/// `str::replace`: every occurrence of the non-empty `pat` in `s`, left to
/// right and without overlap, replaced by `with`.
pub open spec fn replace_all(s: Seq<char>, pat: Seq<char>, with: Seq<char>) -> Seq<char>
    decreases s.len(),
{
    if pat.len() == 0 {
        s
    } else {
        match find(s, pat) {
            None => s,
            Some(i) => {
                proof {
                    lemma_find(s, pat);
                }
                s.take(i as int) + with + replace_all(s.skip(i as int + pat.len()), pat, with)
            },
        }
    }
}

/// The placeholder a `nix://` installable writes for the host system.
pub open spec fn system_placeholder() -> Seq<char> {
    "${SYSTEM}"@
}

/// An installable with each `${SYSTEM}` replaced by the host system.
pub fn expand_system(installable: &str, system: &str) -> (r: String)
    ensures
        r@ == replace_all(installable@, system_placeholder(), system@),
{
    proof {
        reveal_strlit("${SYSTEM}");
    }
    let pat = chars_of("${SYSTEM}");
    let with = chars_of(system);
    let mut acc: Vec<char> = Vec::new();
    let mut rest = chars_of(installable);
    let mut done = false;
    while !done
        invariant
            pat@ == system_placeholder(),
            pat@.len() > 0,
            with@ == system@,
            acc@ + replace_all(rest@, pat@, with@) == replace_all(installable@, pat@, with@),
            done ==> find(rest@, pat@) is None,
        decreases rest@.len() + (if done {
            0int
        } else {
            1int
        }),
    {
        proof {
            lemma_find(rest@, pat@);
        }
        match find_chars(rest.as_slice(), pat.as_slice()) {
            None => {
                done = true;
            },
            Some(i) => {
                let n = rest.len();
                assert(occurs_at(rest@, pat@, find(rest@, pat@)->0 as int));
                let head = slice_of(rest.as_slice(), 0, i);
                let tail = slice_of(rest.as_slice(), i + pat.len(), n);
                crate::text::append_chars(&mut acc, head.as_slice());
                crate::text::append_chars(&mut acc, with.as_slice());
                rest = tail;
            },
        }
    }
    assert(replace_all(rest@, pat@, with@) == rest@);
    crate::text::append_chars(&mut acc, rest.as_slice());
    string_of(acc.as_slice())
}

/// Why a `nix://` archive gives no store path.
#[derive(Debug, Clone, PartialEq, Eq)]
pub enum ArchiveError {
    /// The installable is not a derivation the nix manager tracks: a
    /// misconfiguration, reported as a discovery error.
    Untracked(String),
    /// The installable is targets but its build failed; the nix manager
    /// reports the failure as its own test.
    BuildFailed,
    /// The eval that answers whether it is targets failed.
    Eval(String),
}

/// Whether an installable is targets, by derivation identity: the derivation
/// its `.drvPath` evaluates to (`None` when it is no derivation) must be one
/// the nix manager tracks. `Ok` gives the derivation and the attribute name.
pub fn archive_membership(targets: &TrackedTargets, installable: String, drv: Option<String>) -> (r: Result<(String, String), ArchiveError>)
    ensures
        match drv {
            None => r matches Err(ArchiveError::Untracked(i)) && i == installable,
            Some(d) => if targets@.contains_key(d@) {
                r matches Ok((rd, n)) && rd == d && n@ == targets@[d@]
            } else {
                r matches Err(ArchiveError::Untracked(i)) && i == installable
            },
        },
{
    match drv {
        None => Err(ArchiveError::Untracked(installable)),
        Some(d) => match targets.name_of(d.as_str()) {
            Some(n) => Ok((d, n)),
            None => Err(ArchiveError::Untracked(installable)),
        },
    }
}

/// The arguments that evaluate an installable's derivation path.
pub fn drv_eval_args(installable: &str) -> (r: Vec<String>)
    ensures
        crate::text::strs(r@) == seq!["eval"@, "--impure"@, "--raw"@, installable@ + ".drvPath"@],
{
    let mut v: Vec<String> = Vec::new();
    v.push(owned("eval"));
    v.push(owned("--impure"));
    v.push(owned("--raw"));
    v.push(concat(installable, ".drvPath"));
    assert(crate::text::strs(v@) =~= seq!["eval"@, "--impure"@, "--raw"@, installable@ + ".drvPath"@]);
    v
}

/// The derivation path an eval printed: its trimmed stdout when it succeeded
/// and printed something; `None` otherwise.
pub fn drv_path_of(outcome: StepOutcome) -> (r: Option<String>)
    ensures
        match outcome {
            StepOutcome::Ran { success, stdout, stderr } => if success && trim(utf8_lossy(stdout@)).len() > 0 {
                r matches Some(d) && d@ == trim(utf8_lossy(stdout@))
            } else {
                r is None
            },
            StepOutcome::SpawnFailed { .. } => r is None,
        },
{
    match outcome {
        StepOutcome::Ran { success, stdout, stderr } => {
            if !success {
                return None;
            }
            let out = lossy_string(stdout.as_slice());
            let t = crate::text::trim_str(out.as_str());
            if t.as_str().is_empty() {
                None
            } else {
                Some(t)
            }
        },
        StepOutcome::SpawnFailed { .. } => None,
    }
}

/// The store path a build printed, or why there is none: the error of a
/// build that could not start, the trimmed log of one that failed, or that
/// it printed no path. The path is the trimmed last line of its output.
pub open spec fn spec_out_path(outcome: StepOutcome) -> Result<Seq<char>, Seq<char>> {
    match outcome {
        StepOutcome::SpawnFailed { error } => Err("running nix build: "@ + error@ + " (is `nix` installed?)"@),
        StepOutcome::Ran { success, stdout, stderr } => if !success {
            Err(trim(utf8_lossy(stderr@)))
        } else {
            match last_line(utf8_lossy(stdout@)) {
                Some(l) => if trim(l).len() > 0 {
                    Ok(trim(l))
                } else {
                    Err("nix build produced no output path"@)
                },
                None => Err("nix build produced no output path"@),
            }
        },
    }
}

pub fn out_path_of(outcome: StepOutcome) -> (r: Result<String, String>)
    ensures
        match r {
            Ok(p) => spec_out_path(outcome) == Ok::<Seq<char>, Seq<char>>(p@),
            Err(e) => spec_out_path(outcome) == Err::<Seq<char>, Seq<char>>(e@),
        },
{
    match outcome {
        StepOutcome::SpawnFailed { error } => {
            let a = concat("running nix build: ", error.as_str());
            Err(concat(a.as_str(), " (is `nix` installed?)"))
        },
        StepOutcome::Ran { success, stdout, stderr } => {
            if !success {
                let e = lossy_string(stderr.as_slice());
                return Err(crate::text::trim_str(e.as_str()));
            }
            let out = lossy_string(stdout.as_slice());
            let c = chars_of(out.as_str());
            match last_line_chars(c.as_slice()) {
                Some(l) => {
                    let t = trim_chars(l.as_slice());
                    if t.len() > 0 {
                        Ok(string_of(t.as_slice()))
                    } else {
                        Err(owned("nix build produced no output path"))
                    }
                },
                None => Err(owned("nix build produced no output path")),
            }
        },
    }
}

/// A targets build that failed while another manager depended on it, to be
/// reported as a failed test of the nix manager before ranking.
#[derive(Debug, Clone, PartialEq, Eq)]
pub struct PreFailed {
    pub name: String,
    pub manager: TestManager,
    pub stderr: String,
}

/// The shared handle through which other managers resolve nix builds: the
/// attribute set, the targets targets once evaluated, and the failures recorded so far.
pub struct NixBuilder {
    pub attrset: String,
    pub targets: Option<TrackedTargets>,
    pub pre_failed: Vec<PreFailed>,
}

impl NixBuilder {
    pub fn new(attrset: String) -> (r: NixBuilder)
        ensures
            r.attrset == attrset,
            r.targets is None,
            r.pre_failed@.len() == 0,
    {
        NixBuilder { attrset, targets: None, pre_failed: Vec::new() }
    }

    /// Records the failed build of the targets attribute `name`.
    pub fn record_failure(&mut self, name: String, stderr: String)
        ensures
            final(self).attrset == old(self).attrset,
            final(self).targets == old(self).targets,
            final(self).pre_failed@.len() == old(self).pre_failed@.len() + 1,
            final(self).pre_failed@.drop_last() == old(self).pre_failed@,
            final(self).pre_failed@.last().name == name,
            final(self).pre_failed@.last().stderr == stderr,
            final(self).pre_failed@.last().manager == TestManager::WellKnownTestManager(
                crate::api::WellKnownTestManager::Nix,
            ),
    {
        let ghost prev = self.pre_failed@;
        self.pre_failed.push(PreFailed { name, manager: manager_identity(), stderr });
        assert(self.pre_failed@.drop_last() =~= prev);
    }

    /// Hands over the failures recorded so far, leaving none.
    pub fn take_pre_failed(&mut self) -> (r: Vec<PreFailed>)
        ensures
            r@ == old(self).pre_failed@,
            final(self).pre_failed@.len() == 0,
            final(self).attrset == old(self).attrset,
            final(self).targets == old(self).targets,
    {
        let mut taken: Vec<PreFailed> = Vec::new();
        std::mem::swap(&mut taken, &mut self.pre_failed);
        taken
    }
}

} // verus!
